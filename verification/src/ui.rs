//! The input-driven state of the control loop: which panel is active, the
//! scroll positions, the debug-console toggle, the exit flag, and the
//! transition each key press causes.

use vstd::prelude::*;

verus! {

/// The panel that currently owns Up/Down key presses.
#[derive(Debug, Clone, Copy, PartialEq, Eq, Structural)]
pub enum ActivePanel {
    Menu,
    ComfyLog,
    CronLog,
    DebugLog,
}

impl ActivePanel {
    /// The panel the Tab key moves to.
    pub open spec fn spec_next(self) -> ActivePanel {
        match self {
            ActivePanel::Menu => ActivePanel::ComfyLog,
            ActivePanel::ComfyLog => ActivePanel::CronLog,
            ActivePanel::CronLog => ActivePanel::Menu,
            ActivePanel::DebugLog => ActivePanel::DebugLog,
        }
    }

    pub fn next(&self) -> (r: ActivePanel)
        ensures
            r == self.spec_next(),
    {
        match self {
            ActivePanel::Menu => ActivePanel::ComfyLog,
            ActivePanel::ComfyLog => ActivePanel::CronLog,
            ActivePanel::CronLog => ActivePanel::Menu,
            ActivePanel::DebugLog => ActivePanel::DebugLog,
        }
    }
}

/// A raw input event as the control loop sees it: a printable key or one
/// of the navigation keys it reacts to.
#[derive(Debug, Clone, Copy, PartialEq, Eq, Structural)]
pub enum InputKey {
    Char(char),
    Down,
    Up,
    Enter,
    Tab,
    Other,
}

/// What the control loop must do beyond updating its own state.
#[derive(Debug, Clone, Copy, PartialEq, Eq, Structural)]
pub enum UiAction {
    NoOp,
    MenuNext,
    MenuPrev,
    Activate,
    QuickList,
    QuickKillAll,
    ClearLogs,
}

/// The control loop's own mutable state.
#[derive(Debug, Clone, Copy, PartialEq, Eq, Structural)]
pub struct UiState {
    pub should_exit: bool,
    pub show_debug: bool,
    pub active_panel: ActivePanel,
    pub comfy_scroll: usize,
    pub cron_scroll: usize,
}

pub open spec fn inc_sat(n: usize) -> usize {
    if n < usize::MAX {
        (n + 1) as usize
    } else {
        n
    }
}

pub open spec fn dec_sat(n: usize) -> usize {
    if n > 0 {
        (n - 1) as usize
    } else {
        n
    }
}

/// The full key-to-transition table: the state after the key press and
/// the action the loop must perform.
pub open spec fn key_step(s: UiState, key: InputKey) -> (UiState, UiAction) {
    match key {
        InputKey::Char(c) => if c == 'q' {
            (UiState { should_exit: true, ..s }, UiAction::NoOp)
        } else if c == 'd' {
            (UiState { show_debug: !s.show_debug, ..s }, UiAction::NoOp)
        } else if c == 't' {
            (s, UiAction::QuickList)
        } else if c == 'k' {
            (s, UiAction::QuickKillAll)
        } else if c == 'c' {
            (s, UiAction::ClearLogs)
        } else {
            (s, UiAction::NoOp)
        },
        InputKey::Down => match s.active_panel {
            ActivePanel::Menu => (s, UiAction::MenuNext),
            ActivePanel::ComfyLog => (
                UiState { comfy_scroll: inc_sat(s.comfy_scroll), ..s },
                UiAction::NoOp,
            ),
            ActivePanel::CronLog => (
                UiState { cron_scroll: inc_sat(s.cron_scroll), ..s },
                UiAction::NoOp,
            ),
            ActivePanel::DebugLog => (s, UiAction::NoOp),
        },
        InputKey::Up => match s.active_panel {
            ActivePanel::Menu => (s, UiAction::MenuPrev),
            ActivePanel::ComfyLog => (
                UiState { comfy_scroll: dec_sat(s.comfy_scroll), ..s },
                UiAction::NoOp,
            ),
            ActivePanel::CronLog => (
                UiState { cron_scroll: dec_sat(s.cron_scroll), ..s },
                UiAction::NoOp,
            ),
            ActivePanel::DebugLog => (s, UiAction::NoOp),
        },
        InputKey::Enter => (s, UiAction::Activate),
        InputKey::Tab => (UiState { active_panel: s.active_panel.spec_next(), ..s }, UiAction::NoOp),
        InputKey::Other => (s, UiAction::NoOp),
    }
}

impl UiState {
    pub fn new() -> (r: UiState)
        ensures
            !r.should_exit,
            !r.show_debug,
            r.active_panel == ActivePanel::Menu,
            r.comfy_scroll == 0,
            r.cron_scroll == 0,
    {
        UiState {
            should_exit: false,
            show_debug: false,
            active_panel: ActivePanel::Menu,
            comfy_scroll: 0,
            cron_scroll: 0,
        }
    }

    /// Services one key press: updates the state and returns the action
    /// the loop must perform, exactly as `key_step` says.
    pub fn on_key(&mut self, key: InputKey) -> (a: UiAction)
        ensures
            *final(self) == key_step(*old(self), key).0,
            a == key_step(*old(self), key).1,
    {
        match key {
            InputKey::Char(c) => {
                if c == 'q' {
                    self.should_exit = true;
                    UiAction::NoOp
                } else if c == 'd' {
                    self.show_debug = !self.show_debug;
                    UiAction::NoOp
                } else if c == 't' {
                    UiAction::QuickList
                } else if c == 'k' {
                    UiAction::QuickKillAll
                } else if c == 'c' {
                    UiAction::ClearLogs
                } else {
                    UiAction::NoOp
                }
            },
            InputKey::Down => match self.active_panel {
                ActivePanel::Menu => UiAction::MenuNext,
                ActivePanel::ComfyLog => {
                    if self.comfy_scroll < usize::MAX {
                        self.comfy_scroll = self.comfy_scroll + 1;
                    }
                    UiAction::NoOp
                },
                ActivePanel::CronLog => {
                    if self.cron_scroll < usize::MAX {
                        self.cron_scroll = self.cron_scroll + 1;
                    }
                    UiAction::NoOp
                },
                ActivePanel::DebugLog => UiAction::NoOp,
            },
            InputKey::Up => match self.active_panel {
                ActivePanel::Menu => UiAction::MenuPrev,
                ActivePanel::ComfyLog => {
                    if self.comfy_scroll > 0 {
                        self.comfy_scroll = self.comfy_scroll - 1;
                    }
                    UiAction::NoOp
                },
                ActivePanel::CronLog => {
                    if self.cron_scroll > 0 {
                        self.cron_scroll = self.cron_scroll - 1;
                    }
                    UiAction::NoOp
                },
                ActivePanel::DebugLog => UiAction::NoOp,
            },
            InputKey::Enter => UiAction::Activate,
            InputKey::Tab => {
                self.active_panel = self.active_panel.next();
                UiAction::NoOp
            },
            InputKey::Other => UiAction::NoOp,
        }
    }
}

} // verus!
