//! The closed set of menu commands and the immutable launch description
//! attached to a menu entry.

use vstd::prelude::*;

verus! {

/// Tag identifying the operation a menu entry performs; carries no payload.
#[derive(Debug, Clone, Copy, PartialEq, Eq, Structural)]
pub enum MenuCommand {
    ComfyRun,
    ComfyUpdate,
    ComfyKill,
    CronRun,
    CronKill,
    Config,
    About,
    Exit,
}

/// Immutable description of how to start a process for a menu entry:
/// executable path, working directory, argument list, display texts, and
/// the command tag it serves. Never mutated after load.
#[derive(Debug, Clone, PartialEq)]
pub struct CmdInfo {
    pub name: String,
    pub desc: String,
    pub command: MenuCommand,
    pub exe_path: String,
    pub work_dir: String,
    pub args: Vec<String>,
}

/// Which command a tag name denotes, if any.
pub open spec fn spec_command_of_name(s: Seq<char>) -> Result<MenuCommand, ()> {
    if s == "ComfyRun"@ {
        Ok(MenuCommand::ComfyRun)
    } else if s == "ComfyUpdate"@ {
        Ok(MenuCommand::ComfyUpdate)
    } else if s == "ComfyKill"@ {
        Ok(MenuCommand::ComfyKill)
    } else if s == "CronRun"@ {
        Ok(MenuCommand::CronRun)
    } else if s == "CronKill"@ {
        Ok(MenuCommand::CronKill)
    } else if s == "Config"@ {
        Ok(MenuCommand::Config)
    } else if s == "About"@ {
        Ok(MenuCommand::About)
    } else if s == "Exit"@ {
        Ok(MenuCommand::Exit)
    } else {
        Err(())
    }
}

fn str_eq(a: &str, b: &str) -> (r: bool)
    ensures
        r == (a@ == b@),
{
    let a1 = a.to_owned();
    let b1 = b.to_owned();
    a1 == b1
}

impl MenuCommand {
    /// Parses a command from its tag name; every other name is rejected.
    pub fn from_name(s: &str) -> (r: Result<MenuCommand, ()>)
        ensures
            r == spec_command_of_name(s@),
    {
        if str_eq(s, "ComfyRun") {
            Ok(MenuCommand::ComfyRun)
        } else if str_eq(s, "ComfyUpdate") {
            Ok(MenuCommand::ComfyUpdate)
        } else if str_eq(s, "ComfyKill") {
            Ok(MenuCommand::ComfyKill)
        } else if str_eq(s, "CronRun") {
            Ok(MenuCommand::CronRun)
        } else if str_eq(s, "CronKill") {
            Ok(MenuCommand::CronKill)
        } else if str_eq(s, "Config") {
            Ok(MenuCommand::Config)
        } else if str_eq(s, "About") {
            Ok(MenuCommand::About)
        } else if str_eq(s, "Exit") {
            Ok(MenuCommand::Exit)
        } else {
            Err(())
        }
    }
}

impl core::str::FromStr for MenuCommand {
    type Err = ();

    fn from_str(s: &str) -> Result<MenuCommand, ()> {
        MenuCommand::from_name(s)
    }
}

} // verus!
