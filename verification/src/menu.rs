//! The menu shown to the operator: one entry per configured command, each
//! carrying a status mirrored from the corresponding slot's liveness.

use vstd::prelude::*;
use crate::command::{CmdInfo, MenuCommand};

verus! {

/// Whether the entry's slot currently has a live managed process.
#[derive(Debug, Clone, Copy, PartialEq, Eq, PartialOrd, Ord, Hash, Structural)]
pub enum Status {
    Idle,
    Run,
}

/// Display projection of one configured command: title, description, the
/// command tag, and the current status.
#[derive(Debug, Clone)]
pub struct MenuInfo {
    pub cmd: MenuCommand,
    pub title: String,
    pub info: String,
    pub status: Status,
}

impl MenuInfo {
    pub fn new(cmd: MenuCommand, title: &str, info: &str, status: Status) -> (r: MenuInfo)
        ensures
            r.cmd == cmd,
            r.title@ == title@,
            r.info@ == info@,
            r.status == status,
    {
        MenuInfo { cmd, title: title.to_owned(), info: info.to_owned(), status }
    }
}

/// `m` with its status replaced.
pub open spec fn with_status(m: MenuInfo, status: Status) -> MenuInfo {
    MenuInfo { status, ..m }
}

/// The ordered list of menu entries.
#[derive(Debug, Clone)]
pub struct MenuList {
    pub items: Vec<MenuInfo>,
}

impl MenuList {
    pub fn new() -> (r: MenuList)
        ensures
            r.items@.len() == 0,
    {
        MenuList { items: Vec::new() }
    }

    /// One entry per configured command, titled and described from it,
    /// each starting out idle.
    pub fn from_commands(commands: &Vec<CmdInfo>) -> (r: MenuList)
        ensures
            r.items@.len() == commands@.len(),
            forall|i: int|
                0 <= i < commands@.len() ==> {
                    &&& (#[trigger] r.items@[i]).cmd == commands@[i].command
                    &&& r.items@[i].title@ == commands@[i].name@
                    &&& r.items@[i].info@ == commands@[i].desc@
                    &&& r.items@[i].status == Status::Idle
                },
    {
        let mut items: Vec<MenuInfo> = Vec::new();
        let mut i: usize = 0;
        while i < commands.len()
            invariant
                i <= commands@.len(),
                items@.len() == i,
                forall|k: int|
                    0 <= k < i ==> {
                        &&& (#[trigger] items@[k]).cmd == commands@[k].command
                        &&& items@[k].title@ == commands@[k].name@
                        &&& items@[k].info@ == commands@[k].desc@
                        &&& items@[k].status == Status::Idle
                    },
            decreases commands@.len() - i,
        {
            let c = &commands[i];
            items.push(MenuInfo::new(c.command, c.name.as_str(), c.desc.as_str(), Status::Idle));
            i += 1;
        }
        MenuList { items }
    }

    /// Sets the status of the first entry whose command equals `command`;
    /// every other entry, and the list when no entry matches, is unchanged.
    pub fn change_status(&mut self, command: MenuCommand, status: Status)
        ensures
            final(self).items@.len() == old(self).items@.len(),
            (forall|k: int|
                0 <= k < old(self).items@.len() ==> (#[trigger] old(self).items@[k]).cmd
                    != command) ==> final(self).items@ == old(self).items@,
            (exists|k: int|
                0 <= k < old(self).items@.len() && (#[trigger] old(self).items@[k]).cmd
                    == command) ==> exists|j: int|
                {
                    &&& 0 <= j < old(self).items@.len()
                    &&& (#[trigger] old(self).items@[j]).cmd == command
                    &&& forall|k: int| 0 <= k < j ==> (#[trigger] old(self).items@[k]).cmd != command
                    &&& final(self).items@ == old(self).items@.update(
                        j,
                        with_status(old(self).items@[j], status),
                    )
                },
    {
        let n = self.items.len();
        let mut i: usize = 0;
        while i < n
            invariant
                n == self.items@.len(),
                i <= n,
                self.items@ == old(self).items@,
                forall|k: int| 0 <= k < i ==> (#[trigger] self.items@[k]).cmd != command,
            decreases n - i,
        {
            if self.items[i].cmd == command {
                let ghost before = self.items@;
                self.items[i].status = status;
                proof {
                    assert(self.items@ =~= before.update(
                        i as int,
                        with_status(before[i as int], status),
                    ));
                }
                return ;
            }
            i += 1;
        }
    }
}

} // verus!
