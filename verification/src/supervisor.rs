//! Per-slot supervision bookkeeping: liveness and process-identifier
//! tracking, log ingestion from the merged output streams, and the
//! start/stop transitions that are safe to invoke repeatedly.
//!
//! Spawning, killing and stream reading are performed outside; their
//! outcomes come back in as plain values (`LineEvent`, `KillOutcome`,
//! a process identifier) and every state change they cause is made here.

use vstd::prelude::*;
use crate::command::MenuCommand;
use crate::log_buffer::{LogBuffer, push_evict};
use crate::menu::{MenuList, Status, with_status};
use crate::text::{dec_rep, join_spaces, joined_with_spaces, trim_line, trimmed_of, u32_to_string};

verus! {

/// One of the fixed managed long-running process roles.
#[derive(Debug, Clone, Copy, PartialEq, Eq, Structural)]
pub enum Slot {
    Primary,
    Secondary,
}

/// The other role.
pub open spec fn other_slot(slot: Slot) -> Slot {
    match slot {
        Slot::Primary => Slot::Secondary,
        Slot::Secondary => Slot::Primary,
    }
}

/// Which slot a menu command drives a run of, if any.
pub open spec fn slot_of_command(cmd: MenuCommand) -> Option<Slot> {
    match cmd {
        MenuCommand::ComfyRun => Some(Slot::Primary),
        MenuCommand::CronRun => Some(Slot::Secondary),
        _ => None,
    }
}

/// Mutable record of one managed long-running process.
pub struct SlotState {
    pub running: bool,
    pub pid: Option<u32>,
    pub log: LogBuffer,
}

/// The mathematical state of a slot: liveness, last known process
/// identifier, and the log contents with their bound.
pub ghost struct SlotModel {
    pub running: bool,
    pub pid: Option<u32>,
    pub cap: nat,
    pub log: Seq<Seq<char>>,
}

impl SlotState {
    pub open spec fn wf(&self) -> bool {
        self.log.wf()
    }

    pub open spec fn model(&self) -> SlotModel {
        SlotModel { running: self.running, pid: self.pid, cap: self.log.cap(), log: self.log@ }
    }

    pub fn new(capacity: usize) -> (r: SlotState)
        ensures
            r.wf(),
            !r.running,
            r.pid is None,
            r.log.cap() == capacity,
            r.log@ =~= Seq::<Seq<char>>::empty(),
    {
        SlotState { running: false, pid: None, log: LogBuffer::new(capacity) }
    }
}

/// One line consumed from the merged standard-output/standard-error
/// streams: its text, or a read error on either stream.
pub enum LineEvent {
    Text(String),
    ReadError,
}

/// The outcome the operating system reported for a kill request.
pub enum KillOutcome {
    Success,
    Failure(String),
}

/// The placeholder stored when a stream read fails mid-drain.
pub open spec fn sentinel_line() -> Seq<char> {
    "----deducted---"@
}

/// The line announcing a termination attempt against `pid`.
pub open spec fn exit_signal_line(pid: u32) -> Seq<char> {
    "Sending Exit Signal :"@ + dec_rep(pid as nat)
}

/// The line reporting that the kill of `pid` was accepted.
pub open spec fn kill_ok_line(pid: u32) -> Seq<char> {
    "Success :"@ + dec_rep(pid as nat)
}

/// The line reporting a rejected kill request.
pub open spec fn kill_err_line(err: Seq<char>) -> Seq<char> {
    "Failed to terminate pid :"@ + err
}

/// The per-slot line reporting a failed spawn.
pub open spec fn spawn_err_line(err: Seq<char>) -> Seq<char> {
    "Failed to execute command :"@ + err
}

/// The line closing a utility command's diagnostic output.
pub open spec fn finished_line() -> Seq<char> {
    "Finished..."@
}

/// How a consumed line is stored: right-trimmed, or the sentinel for a
/// read error.
pub open spec fn stored_line(e: LineEvent) -> Seq<char> {
    match e {
        LineEvent::Text(s) => trimmed_of(s@),
        LineEvent::ReadError => sentinel_line(),
    }
}

/// `start`: a running slot is left alone (no second spawn); an idle slot
/// becomes running and a spawn proceeds.
pub open spec fn start_step(m: SlotModel) -> (SlotModel, bool) {
    if m.running {
        (m, false)
    } else {
        (SlotModel { running: true, ..m }, true)
    }
}

/// A successful spawn reported the identifier the operating system chose.
pub open spec fn spawn_ok_step(m: SlotModel, pid: u32) -> SlotModel {
    SlotModel { pid: Some(pid), ..m }
}

/// A failed spawn: the slot is idle again and the error is reported as a
/// line in its own log.
pub open spec fn spawn_err_step(m: SlotModel, err: Seq<char>) -> SlotModel {
    SlotModel { running: false, log: push_evict(m.log, m.cap, spawn_err_line(err)), ..m }
}

/// One consumed line is appended to the slot's bounded log.
pub open spec fn line_step(m: SlotModel, line: Seq<char>) -> SlotModel {
    SlotModel { log: push_evict(m.log, m.cap, line), ..m }
}

/// `stop`: a slot that is not running, or whose identifier is unknown, is
/// left alone and no kill is issued. Otherwise the log is cleared and
/// replaced by the announcement line, and the kill target is returned.
pub open spec fn stop_step(m: SlotModel) -> (SlotModel, Option<u32>) {
    match m.pid {
        Some(pid) => if m.running {
            (SlotModel { log: push_evict(Seq::empty(), m.cap, exit_signal_line(pid)), ..m }, Some(pid))
        } else {
            (m, None)
        },
        None => (m, None),
    }
}

/// The reported kill outcome is appended to the slot's log, and the slot
/// counts as stopped whether or not the kill succeeded.
pub open spec fn kill_step(m: SlotModel, outcome: KillOutcome) -> SlotModel {
    let line = match outcome {
        KillOutcome::Success => kill_ok_line(match m.pid {
            Some(pid) => pid,
            None => 0,
        }),
        KillOutcome::Failure(err) => kill_err_line(err@),
    };
    SlotModel { running: false, log: push_evict(m.log, m.cap, line), ..m }
}

fn make_sentinel_line() -> (r: String)
    ensures
        r@ == sentinel_line(),
{
    "----deducted---".to_owned()
}

fn make_exit_signal_line(pid: u32) -> (r: String)
    ensures
        r@ == exit_signal_line(pid),
{
    let mut m = "Sending Exit Signal :".to_owned();
    let digits = u32_to_string(pid);
    m.append(digits.as_str());
    m
}

fn make_kill_ok_line(pid: u32) -> (r: String)
    ensures
        r@ == kill_ok_line(pid),
{
    let mut m = "Success :".to_owned();
    let digits = u32_to_string(pid);
    m.append(digits.as_str());
    m
}

fn make_kill_err_line(err: &String) -> (r: String)
    ensures
        r@ == kill_err_line(err@),
{
    let mut m = "Failed to terminate pid :".to_owned();
    m.append(err.as_str());
    m
}

fn make_spawn_err_line(err: &String) -> (r: String)
    ensures
        r@ == spawn_err_line(err@),
{
    let mut m = "Failed to execute command :".to_owned();
    m.append(err.as_str());
    m
}

/// The single shared store of mutable state: one record per slot and the
/// free-form diagnostic log for utility-command output.
pub struct Store {
    pub primary: SlotState,
    pub secondary: SlotState,
    pub diag: Vec<String>,
}

impl Store {
    pub open spec fn wf(&self) -> bool {
        self.primary.wf() && self.secondary.wf()
    }

    pub open spec fn slot_state(&self, slot: Slot) -> SlotState {
        match slot {
            Slot::Primary => self.primary,
            Slot::Secondary => self.secondary,
        }
    }

    /// Both slots idle with empty logs bounded by `limit`, and an empty
    /// diagnostic log.
    pub fn new(limit: usize) -> (r: Store)
        ensures
            r.wf(),
            !r.primary.running,
            !r.secondary.running,
            r.primary.pid is None,
            r.secondary.pid is None,
            r.primary.log.cap() == limit,
            r.secondary.log.cap() == limit,
            r.primary.log@ =~= Seq::<Seq<char>>::empty(),
            r.secondary.log@ =~= Seq::<Seq<char>>::empty(),
            r.diag@.len() == 0,
    {
        Store { primary: SlotState::new(limit), secondary: SlotState::new(limit), diag: Vec::new() }
    }

    /// Claims the slot for a new run: idempotent under the `running`
    /// guard, so at most one spawn proceeds until a stop intervenes.
    pub fn request_start(&mut self, slot: Slot) -> (proceed: bool)
        requires
            old(self).wf(),
        ensures
            final(self).wf(),
            final(self).slot_state(slot).model() == start_step(
                old(self).slot_state(slot).model(),
            ).0,
            proceed == start_step(old(self).slot_state(slot).model()).1,
            final(self).slot_state(other_slot(slot)) == old(self).slot_state(other_slot(slot)),
            final(self).diag == old(self).diag,
    {
        match slot {
            Slot::Primary => {
                if self.primary.running {
                    false
                } else {
                    self.primary.running = true;
                    true
                }
            },
            Slot::Secondary => {
                if self.secondary.running {
                    false
                } else {
                    self.secondary.running = true;
                    true
                }
            },
        }
    }

    /// Records the identifier the operating system supplied for the
    /// freshly spawned process.
    pub fn record_pid(&mut self, slot: Slot, pid: u32)
        requires
            old(self).wf(),
        ensures
            final(self).wf(),
            final(self).slot_state(slot).model() == spawn_ok_step(
                old(self).slot_state(slot).model(),
                pid,
            ),
            final(self).slot_state(other_slot(slot)) == old(self).slot_state(other_slot(slot)),
            final(self).diag == old(self).diag,
    {
        match slot {
            Slot::Primary => {
                self.primary.pid = Some(pid);
            },
            Slot::Secondary => {
                self.secondary.pid = Some(pid);
            },
        }
    }

    /// Reports a failed spawn: the slot is idle again and the error
    /// appears as a line in that slot's log.
    pub fn record_spawn_failure(&mut self, slot: Slot, err: String)
        requires
            old(self).wf(),
        ensures
            final(self).wf(),
            final(self).slot_state(slot).model() == spawn_err_step(
                old(self).slot_state(slot).model(),
                err@,
            ),
            final(self).slot_state(other_slot(slot)) == old(self).slot_state(other_slot(slot)),
            final(self).diag == old(self).diag,
    {
        let line = make_spawn_err_line(&err);
        match slot {
            Slot::Primary => {
                self.primary.running = false;
                self.primary.log.append(line);
            },
            Slot::Secondary => {
                self.secondary.running = false;
                self.secondary.log.append(line);
            },
        }
    }

    /// Appends one consumed line to the slot's bounded log: right-trimmed
    /// text, or the sentinel when the read failed.
    pub fn ingest_line(&mut self, slot: Slot, event: LineEvent)
        requires
            old(self).wf(),
        ensures
            final(self).wf(),
            final(self).slot_state(slot).model() == line_step(
                old(self).slot_state(slot).model(),
                stored_line(event),
            ),
            final(self).slot_state(other_slot(slot)) == old(self).slot_state(other_slot(slot)),
            final(self).diag == old(self).diag,
    {
        let line = match event {
            LineEvent::Text(s) => trim_line(s),
            LineEvent::ReadError => make_sentinel_line(),
        };
        match slot {
            Slot::Primary => self.primary.log.append(line),
            Slot::Secondary => self.secondary.log.append(line),
        }
    }

    /// Decides a `stop`: a no-op on an idle slot or one with no recorded
    /// identifier; otherwise the slot's log is reset to the announcement
    /// line and the identifier to kill is returned.
    pub fn request_stop(&mut self, slot: Slot) -> (target: Option<u32>)
        requires
            old(self).wf(),
        ensures
            final(self).wf(),
            final(self).slot_state(slot).model() == stop_step(
                old(self).slot_state(slot).model(),
            ).0,
            target == stop_step(old(self).slot_state(slot).model()).1,
            final(self).slot_state(other_slot(slot)) == old(self).slot_state(other_slot(slot)),
            final(self).diag == old(self).diag,
    {
        match slot {
            Slot::Primary => {
                if self.primary.running {
                    match self.primary.pid {
                        Some(pid) => {
                            self.primary.log.clear();
                            self.primary.log.append(make_exit_signal_line(pid));
                            Some(pid)
                        },
                        None => None,
                    }
                } else {
                    None
                }
            },
            Slot::Secondary => {
                if self.secondary.running {
                    match self.secondary.pid {
                        Some(pid) => {
                            self.secondary.log.clear();
                            self.secondary.log.append(make_exit_signal_line(pid));
                            Some(pid)
                        },
                        None => None,
                    }
                } else {
                    None
                }
            },
        }
    }

    /// Records the outcome of the kill issued after `request_stop`: the
    /// outcome is reported in the slot's log, and the slot counts as
    /// stopped either way.
    pub fn record_kill_result(&mut self, slot: Slot, outcome: KillOutcome)
        requires
            old(self).wf(),
            old(self).slot_state(slot).pid is Some,
        ensures
            final(self).wf(),
            final(self).slot_state(slot).model() == kill_step(
                old(self).slot_state(slot).model(),
                outcome,
            ),
            final(self).slot_state(other_slot(slot)) == old(self).slot_state(other_slot(slot)),
            final(self).diag == old(self).diag,
    {
        let line = match &outcome {
            KillOutcome::Success => {
                let pid = match slot {
                    Slot::Primary => self.primary.pid.unwrap(),
                    Slot::Secondary => self.secondary.pid.unwrap(),
                };
                make_kill_ok_line(pid)
            },
            KillOutcome::Failure(err) => make_kill_err_line(err),
        };
        match slot {
            Slot::Primary => {
                self.primary.running = false;
                self.primary.log.append(line);
            },
            Slot::Secondary => {
                self.secondary.running = false;
                self.secondary.log.append(line);
            },
        }
    }

    /// Notes a utility-command invocation in the diagnostic log as its
    /// arguments joined with spaces.
    pub fn diag_note_invocation(&mut self, args: &Vec<String>)
        ensures
            final(self).diag.deep_view() == old(self).diag.deep_view().push(
                joined_with_spaces(args.deep_view()),
            ),
            final(self).primary == old(self).primary,
            final(self).secondary == old(self).secondary,
            final(self).wf() == old(self).wf(),
    {
        let ghost before = self.diag.deep_view();
        let line = join_spaces(args);
        self.diag.push(line);
        proof {
            assert(self.diag.deep_view() =~= before.push(joined_with_spaces(args.deep_view())));
        }
    }

    /// Appends one consumed utility-command line to the diagnostic log.
    pub fn diag_ingest(&mut self, event: LineEvent)
        ensures
            final(self).diag.deep_view() == old(self).diag.deep_view().push(stored_line(event)),
            final(self).primary == old(self).primary,
            final(self).secondary == old(self).secondary,
            final(self).wf() == old(self).wf(),
    {
        let ghost before = self.diag.deep_view();
        let line = match event {
            LineEvent::Text(s) => trim_line(s),
            LineEvent::ReadError => make_sentinel_line(),
        };
        self.diag.push(line);
        proof {
            assert(self.diag.deep_view() =~= before.push(stored_line(event)));
        }
    }

    /// Closes a utility command's diagnostic output.
    pub fn diag_finished(&mut self)
        ensures
            final(self).diag.deep_view() == old(self).diag.deep_view().push(finished_line()),
            final(self).primary == old(self).primary,
            final(self).secondary == old(self).secondary,
            final(self).wf() == old(self).wf(),
    {
        let ghost before = self.diag.deep_view();
        self.diag.push("Finished...".to_owned());
        proof {
            assert(self.diag.deep_view() =~= before.push(finished_line()));
        }
    }

    /// Empties all three log views; liveness and identifiers are kept.
    pub fn clear_all_logs(&mut self)
        ensures
            final(self).wf(),
            final(self).primary.log@ =~= Seq::<Seq<char>>::empty(),
            final(self).secondary.log@ =~= Seq::<Seq<char>>::empty(),
            final(self).primary.log.cap() == old(self).primary.log.cap(),
            final(self).secondary.log.cap() == old(self).secondary.log.cap(),
            final(self).primary.running == old(self).primary.running,
            final(self).secondary.running == old(self).secondary.running,
            final(self).primary.pid == old(self).primary.pid,
            final(self).secondary.pid == old(self).secondary.pid,
            final(self).diag@.len() == 0,
    {
        self.primary.log.clear();
        self.secondary.log.clear();
        self.diag.clear();
    }

    /// Recomputes every menu entry's status from the liveness of the slot
    /// its command drives, so that a render snapshot never diverges from
    /// the slot states.
    pub fn sync_menu(&self, menu: &mut MenuList)
        ensures
            final(menu).items@.len() == old(menu).items@.len(),
            forall|i: int|
                0 <= i < old(menu).items@.len() ==> (#[trigger] final(menu).items@[i])
                    == match slot_of_command(old(menu).items@[i].cmd) {
                    Some(slot) => with_status(
                        old(menu).items@[i],
                        if self.slot_state(slot).running {
                            Status::Run
                        } else {
                            Status::Idle
                        },
                    ),
                    None => old(menu).items@[i],
                },
            menu_matches_store(final(menu), self),
    {
        let n = menu.items.len();
        let mut i: usize = 0;
        while i < n
            invariant
                n == menu.items@.len(),
                menu.items@.len() == old(menu).items@.len(),
                i <= n,
                forall|k: int|
                    i <= k < n ==> (#[trigger] menu.items@[k]) == old(menu).items@[k],
                forall|k: int|
                    0 <= k < i ==> (#[trigger] menu.items@[k]) == match slot_of_command(
                        old(menu).items@[k].cmd,
                    ) {
                        Some(slot) => with_status(
                            old(menu).items@[k],
                            if self.slot_state(slot).running {
                                Status::Run
                            } else {
                                Status::Idle
                            },
                        ),
                        None => old(menu).items@[k],
                    },
            decreases n - i,
        {
            let cmd = menu.items[i].cmd;
            let ghost before = menu.items@;
            match cmd {
                MenuCommand::ComfyRun => {
                    menu.items[i].status = if self.primary.running {
                        Status::Run
                    } else {
                        Status::Idle
                    };
                },
                MenuCommand::CronRun => {
                    menu.items[i].status = if self.secondary.running {
                        Status::Run
                    } else {
                        Status::Idle
                    };
                },
                _ => {},
            }
            i += 1;
        }
    }
}

/// Every entry whose command drives a slot shows `Run` exactly when that
/// slot's process is live.
pub open spec fn menu_matches_store(menu: &MenuList, store: &Store) -> bool {
    forall|i: int|
        0 <= i < menu.items@.len() ==> match slot_of_command((#[trigger] menu.items@[i]).cmd) {
            Some(slot) => (menu.items@[i].status == Status::Run) == store.slot_state(
                slot,
            ).running,
            None => true,
        }
}

/// Starting a slot twice in immediate succession, with no intervening
/// stop, spawns at most once: after the first start the slot is running,
/// and the second start changes nothing and does not proceed.
pub proof fn lemma_start_idempotent(m: SlotModel)
    ensures
        start_step(m).0.running,
        !start_step(start_step(m).0).1,
        start_step(start_step(m).0).0 == start_step(m).0,
{
}

/// `stop` on a slot that is not running performs no process action and
/// leaves the slot, its log included, unchanged.
pub proof fn lemma_stop_idle_noop(m: SlotModel)
    requires
        !m.running,
    ensures
        stop_step(m).0 == m,
        stop_step(m).1 is None,
{
}

/// After the kill issued by a stop reports back, the slot counts as
/// stopped whether the kill succeeded or failed.
pub proof fn lemma_kill_always_clears_running(m: SlotModel, outcome: KillOutcome)
    ensures
        !kill_step(m, outcome).running,
{
}

/// Start, record the spawn, stop, record the kill outcome (either way):
/// a fresh start on the same slot proceeds again with a new spawn.
pub proof fn lemma_restart_after_stop(m: SlotModel, pid: u32, outcome: KillOutcome)
    requires
        !m.running,
    ensures
        ({
            let started = start_step(m);
            let spawned = spawn_ok_step(started.0, pid);
            let stopped = stop_step(spawned);
            let killed = kill_step(stopped.0, outcome);
            let restarted = start_step(killed);
            started.1 && stopped.1 == Some(pid) && restarted.1 && restarted.0.running
        }),
{
}

} // verus!
