use procdash::command::MenuCommand;
use procdash::dispatch::{
    dispatch, kill_all_invocation, status_mirror, task_list_invocation, DispatchAction,
};
use procdash::menu::{MenuInfo, MenuList, Status};
use procdash::supervisor::Slot;
use procdash::ui::{ActivePanel, InputKey, UiAction, UiState};

#[test]
fn dispatch_table_with_selection() {
    assert_eq!(dispatch(MenuCommand::ComfyRun, true), DispatchAction::Start(Slot::Primary));
    assert_eq!(dispatch(MenuCommand::ComfyUpdate, true), DispatchAction::RunOnce(Slot::Primary));
    assert_eq!(dispatch(MenuCommand::ComfyKill, true), DispatchAction::Stop(Slot::Primary));
    assert_eq!(dispatch(MenuCommand::CronRun, true), DispatchAction::Start(Slot::Secondary));
    assert_eq!(dispatch(MenuCommand::CronKill, true), DispatchAction::Stop(Slot::Secondary));
    assert_eq!(dispatch(MenuCommand::Config, true), DispatchAction::OpenEditor);
    assert_eq!(dispatch(MenuCommand::About, true), DispatchAction::ShowAbout);
    assert_eq!(dispatch(MenuCommand::Exit, true), DispatchAction::Quit);
}

#[test]
fn dispatch_without_selection_reports_instead_of_launching() {
    assert_eq!(dispatch(MenuCommand::ComfyRun, false), DispatchAction::ReportNoSelection);
    assert_eq!(dispatch(MenuCommand::ComfyUpdate, false), DispatchAction::ReportNoSelection);
    assert_eq!(dispatch(MenuCommand::CronRun, false), DispatchAction::ReportNoSelection);
    // commands that need no launch description are unaffected
    assert_eq!(dispatch(MenuCommand::ComfyKill, false), DispatchAction::Stop(Slot::Primary));
    assert_eq!(dispatch(MenuCommand::CronKill, false), DispatchAction::Stop(Slot::Secondary));
    assert_eq!(dispatch(MenuCommand::Exit, false), DispatchAction::Quit);
}

#[test]
fn status_mirror_table() {
    assert_eq!(
        status_mirror(MenuCommand::ComfyRun),
        Some((MenuCommand::ComfyRun, Status::Run))
    );
    assert_eq!(
        status_mirror(MenuCommand::ComfyKill),
        Some((MenuCommand::ComfyRun, Status::Idle))
    );
    assert_eq!(
        status_mirror(MenuCommand::CronRun),
        Some((MenuCommand::CronRun, Status::Run))
    );
    assert_eq!(
        status_mirror(MenuCommand::CronKill),
        Some((MenuCommand::CronRun, Status::Idle))
    );
    assert_eq!(status_mirror(MenuCommand::ComfyUpdate), None);
    assert_eq!(status_mirror(MenuCommand::About), None);
}

#[test]
fn quick_command_invocations() {
    let (shell, args) = task_list_invocation();
    assert_eq!(shell, "pwsh");
    assert_eq!(
        args,
        vec!["-NoProfile", "-Command", "tasklist", "|", "rg", "\"deno*|python*\""]
    );
    let (shell2, args2) = kill_all_invocation();
    assert_eq!(shell2, "pwsh");
    assert_eq!(
        args2,
        vec![
            "-NoProfile", "-Command", "taskkill", "/f", "/im", "deno*", "&&", "taskkill", "/f",
            "/im", "python*"
        ]
    );
}

#[test]
fn panel_cycle() {
    assert_eq!(ActivePanel::Menu.next(), ActivePanel::ComfyLog);
    assert_eq!(ActivePanel::ComfyLog.next(), ActivePanel::CronLog);
    assert_eq!(ActivePanel::CronLog.next(), ActivePanel::Menu);
    assert_eq!(ActivePanel::DebugLog.next(), ActivePanel::DebugLog);
}

#[test]
fn quit_key_sets_exit_flag() {
    let mut ui = UiState::new();
    assert_eq!(ui.on_key(InputKey::Char('q')), UiAction::NoOp);
    assert!(ui.should_exit);
}

#[test]
fn debug_key_toggles_console() {
    let mut ui = UiState::new();
    assert_eq!(ui.on_key(InputKey::Char('d')), UiAction::NoOp);
    assert!(ui.show_debug);
    assert_eq!(ui.on_key(InputKey::Char('d')), UiAction::NoOp);
    assert!(!ui.show_debug);
}

#[test]
fn quick_command_keys_yield_actions() {
    let mut ui = UiState::new();
    assert_eq!(ui.on_key(InputKey::Char('t')), UiAction::QuickList);
    assert_eq!(ui.on_key(InputKey::Char('k')), UiAction::QuickKillAll);
    assert_eq!(ui.on_key(InputKey::Char('c')), UiAction::ClearLogs);
    assert_eq!(ui.on_key(InputKey::Char('x')), UiAction::NoOp);
    assert!(!ui.should_exit);
}

#[test]
fn arrows_in_menu_move_selection() {
    let mut ui = UiState::new();
    assert_eq!(ui.active_panel, ActivePanel::Menu);
    assert_eq!(ui.on_key(InputKey::Down), UiAction::MenuNext);
    assert_eq!(ui.on_key(InputKey::Up), UiAction::MenuPrev);
}

#[test]
fn arrows_in_log_panels_scroll() {
    let mut ui = UiState::new();
    assert_eq!(ui.on_key(InputKey::Tab), UiAction::NoOp);
    assert_eq!(ui.active_panel, ActivePanel::ComfyLog);
    assert_eq!(ui.on_key(InputKey::Down), UiAction::NoOp);
    assert_eq!(ui.on_key(InputKey::Down), UiAction::NoOp);
    assert_eq!(ui.comfy_scroll, 2);
    assert_eq!(ui.on_key(InputKey::Up), UiAction::NoOp);
    assert_eq!(ui.comfy_scroll, 1);

    assert_eq!(ui.on_key(InputKey::Tab), UiAction::NoOp);
    assert_eq!(ui.active_panel, ActivePanel::CronLog);
    assert_eq!(ui.on_key(InputKey::Down), UiAction::NoOp);
    assert_eq!(ui.cron_scroll, 1);
    assert_eq!(ui.comfy_scroll, 1);
}

#[test]
fn scrolling_up_saturates_at_zero() {
    let mut ui = UiState::new();
    ui.on_key(InputKey::Tab);
    assert_eq!(ui.active_panel, ActivePanel::ComfyLog);
    assert_eq!(ui.on_key(InputKey::Up), UiAction::NoOp);
    assert_eq!(ui.comfy_scroll, 0);
}

#[test]
fn enter_activates_selection() {
    let mut ui = UiState::new();
    assert_eq!(ui.on_key(InputKey::Enter), UiAction::Activate);
}

#[test]
fn menu_entry_from_parts() {
    let entry = MenuInfo::new(MenuCommand::CronRun, "start", "start the task server", Status::Idle);
    assert_eq!(entry.cmd, MenuCommand::CronRun);
    assert_eq!(entry.title, "start");
    assert_eq!(entry.info, "start the task server");
    assert_eq!(entry.status, Status::Idle);
}

#[test]
fn change_status_touches_first_match_only() {
    let mut menu = MenuList::new();
    menu.items.push(MenuInfo::new(MenuCommand::ComfyRun, "run", "", Status::Idle));
    menu.items.push(MenuInfo::new(MenuCommand::Exit, "quit", "", Status::Idle));
    menu.items.push(MenuInfo::new(MenuCommand::ComfyRun, "run again", "", Status::Idle));
    menu.change_status(MenuCommand::ComfyRun, Status::Run);
    assert_eq!(menu.items[0].status, Status::Run);
    assert_eq!(menu.items[1].status, Status::Idle);
    assert_eq!(menu.items[2].status, Status::Idle);
}

#[test]
fn change_status_without_match_changes_nothing() {
    let mut menu = MenuList::new();
    menu.items.push(MenuInfo::new(MenuCommand::Exit, "quit", "", Status::Idle));
    menu.change_status(MenuCommand::CronRun, Status::Run);
    assert_eq!(menu.items[0].status, Status::Idle);
}
