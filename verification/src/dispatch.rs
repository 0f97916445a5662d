//! The pure mapping from an activated menu command to the supervisor
//! operation or control-loop transition it triggers, and the menu-status
//! mirroring that accompanies start and stop commands.

use vstd::prelude::*;
use crate::command::MenuCommand;
use crate::menu::Status;
use crate::supervisor::Slot;

verus! {

/// What an activated menu entry asks the control loop to do.
#[derive(Debug, Clone, Copy, PartialEq, Eq, Structural)]
pub enum DispatchAction {
    /// Spawn the slot's process if it is idle, then drain its output.
    Start(Slot),
    /// Kill the slot's recorded process if one is running.
    Stop(Slot),
    /// Fire-and-forget run streaming into the slot's log, with no
    /// `running` guard.
    RunOnce(Slot),
    /// Suspend the terminal, hand off to the external editor, resume.
    OpenEditor,
    /// Display-only; no supervisor interaction.
    ShowAbout,
    /// Set the termination flag consumed by the control loop.
    Quit,
    /// A command that needs a launch description was activated with no
    /// selection: report a diagnostic instead of acting.
    ReportNoSelection,
}

/// The dispatch table. Commands that launch a process need a selected
/// launch description; activated without one they become a reportable
/// no-op rather than an error.
pub open spec fn spec_dispatch(cmd: MenuCommand, has_selection: bool) -> DispatchAction {
    match cmd {
        MenuCommand::ComfyRun => if has_selection {
            DispatchAction::Start(Slot::Primary)
        } else {
            DispatchAction::ReportNoSelection
        },
        MenuCommand::ComfyUpdate => if has_selection {
            DispatchAction::RunOnce(Slot::Primary)
        } else {
            DispatchAction::ReportNoSelection
        },
        MenuCommand::ComfyKill => DispatchAction::Stop(Slot::Primary),
        MenuCommand::CronRun => if has_selection {
            DispatchAction::Start(Slot::Secondary)
        } else {
            DispatchAction::ReportNoSelection
        },
        MenuCommand::CronKill => DispatchAction::Stop(Slot::Secondary),
        MenuCommand::Config => DispatchAction::OpenEditor,
        MenuCommand::About => DispatchAction::ShowAbout,
        MenuCommand::Exit => DispatchAction::Quit,
    }
}

/// Maps an activated command to its action, exactly as `spec_dispatch`
/// says.
pub fn dispatch(cmd: MenuCommand, has_selection: bool) -> (a: DispatchAction)
    ensures
        a == spec_dispatch(cmd, has_selection),
{
    match cmd {
        MenuCommand::ComfyRun => if has_selection {
            DispatchAction::Start(Slot::Primary)
        } else {
            DispatchAction::ReportNoSelection
        },
        MenuCommand::ComfyUpdate => if has_selection {
            DispatchAction::RunOnce(Slot::Primary)
        } else {
            DispatchAction::ReportNoSelection
        },
        MenuCommand::ComfyKill => DispatchAction::Stop(Slot::Primary),
        MenuCommand::CronRun => if has_selection {
            DispatchAction::Start(Slot::Secondary)
        } else {
            DispatchAction::ReportNoSelection
        },
        MenuCommand::CronKill => DispatchAction::Stop(Slot::Secondary),
        MenuCommand::Config => DispatchAction::OpenEditor,
        MenuCommand::About => DispatchAction::ShowAbout,
        MenuCommand::Exit => DispatchAction::Quit,
    }
}

/// Which entry's status a command mirrors, and to what: a start shows its
/// run entry as `Run`, a stop shows it as `Idle`, other commands touch no
/// status.
pub open spec fn spec_status_mirror(cmd: MenuCommand) -> Option<(MenuCommand, Status)> {
    match cmd {
        MenuCommand::ComfyRun => Some((MenuCommand::ComfyRun, Status::Run)),
        MenuCommand::ComfyKill => Some((MenuCommand::ComfyRun, Status::Idle)),
        MenuCommand::CronRun => Some((MenuCommand::CronRun, Status::Run)),
        MenuCommand::CronKill => Some((MenuCommand::CronRun, Status::Idle)),
        _ => None,
    }
}

/// The status change a command mirrors onto the menu, if any, exactly as
/// `spec_status_mirror` says.
pub fn status_mirror(cmd: MenuCommand) -> (r: Option<(MenuCommand, Status)>)
    ensures
        r == spec_status_mirror(cmd),
{
    match cmd {
        MenuCommand::ComfyRun => Some((MenuCommand::ComfyRun, Status::Run)),
        MenuCommand::ComfyKill => Some((MenuCommand::ComfyRun, Status::Idle)),
        MenuCommand::CronRun => Some((MenuCommand::CronRun, Status::Run)),
        MenuCommand::CronKill => Some((MenuCommand::CronRun, Status::Idle)),
        MenuCommand::ComfyUpdate => None,
        MenuCommand::Config => None,
        MenuCommand::About => None,
        MenuCommand::Exit => None,
    }
}

/// The invocation behind the "list tasks" quick command.
pub fn task_list_invocation() -> (r: (String, Vec<String>))
    ensures
        r.0@ == "pwsh"@,
        r.1.deep_view() == seq![
            "-NoProfile"@,
            "-Command"@,
            "tasklist"@,
            "|"@,
            "rg"@,
            "\"deno*|python*\""@,
        ],
{
    let mut args: Vec<String> = Vec::new();
    args.push("-NoProfile".to_owned());
    args.push("-Command".to_owned());
    args.push("tasklist".to_owned());
    args.push("|".to_owned());
    args.push("rg".to_owned());
    args.push("\"deno*|python*\"".to_owned());
    proof {
        assert(args.deep_view() =~= seq![
            "-NoProfile"@,
            "-Command"@,
            "tasklist"@,
            "|"@,
            "rg"@,
            "\"deno*|python*\""@,
        ]);
    }
    ("pwsh".to_owned(), args)
}

/// The invocation behind the "kill all" quick command.
pub fn kill_all_invocation() -> (r: (String, Vec<String>))
    ensures
        r.0@ == "pwsh"@,
        r.1.deep_view() == seq![
            "-NoProfile"@,
            "-Command"@,
            "taskkill"@,
            "/f"@,
            "/im"@,
            "deno*"@,
            "&&"@,
            "taskkill"@,
            "/f"@,
            "/im"@,
            "python*"@,
        ],
{
    let mut args: Vec<String> = Vec::new();
    args.push("-NoProfile".to_owned());
    args.push("-Command".to_owned());
    args.push("taskkill".to_owned());
    args.push("/f".to_owned());
    args.push("/im".to_owned());
    args.push("deno*".to_owned());
    args.push("&&".to_owned());
    args.push("taskkill".to_owned());
    args.push("/f".to_owned());
    args.push("/im".to_owned());
    args.push("python*".to_owned());
    proof {
        assert(args.deep_view() =~= seq![
            "-NoProfile"@,
            "-Command"@,
            "taskkill"@,
            "/f"@,
            "/im"@,
            "deno*"@,
            "&&"@,
            "taskkill"@,
            "/f"@,
            "/im"@,
            "python*"@,
        ]);
    }
    ("pwsh".to_owned(), args)
}

} // verus!
