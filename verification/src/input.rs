//! What is read from the window: what the user did, which keys are down,
//! and, from the machine, where its cursor is.

use vstd::prelude::*;

use crate::convert::{Key, MouseButton};
use crate::minion::TimedShortcut;

verus! {

/// A modifier key held while another key went down.
#[derive(Clone, Copy, Debug, PartialEq, Eq, Structural)]
pub enum Modifier {
    Shift,
    Control,
    Alt,
    Meta,
}

/// Something the user did, as the window reports it.  Pointer positions are
/// given as the cell they fall in, counted from zero.
#[derive(Clone, Debug)]
pub enum Event {
    KeyDown { key: Key, modifiers: Vec<Modifier> },
    Character { character: char },
    MouseDown { cell_x: u32, cell_y: u32, button: MouseButton },
    MouseDrag { cell_x: u32, cell_y: u32, button: MouseButton },
    /// The wheel turned while the pointer was over a cell; `negative` says
    /// whether the vertical amount was below zero.
    MouseScroll { cell_x: u32, cell_y: u32, negative: bool },
    /// Anything else.
    Other,
}

/// Which of the keys that matter to timed shortcuts are down.
#[derive(Clone, Copy, Debug, PartialEq, Eq, Structural)]
pub struct HeldKeys {
    pub left_control: bool,
    pub right_control: bool,
    pub r: bool,
    pub s: bool,
    pub t: bool,
}

/// What the emulated machine says of its cursor.
#[derive(Clone, Copy, Debug, PartialEq, Eq, Structural)]
pub struct CursorReport {
    pub x: i32,
    pub y: i32,
    pub color: i32,
    pub blink: bool,
}

/// Whether one of `modifiers` is the command modifier: control, and meta
/// where meta counts as command.
pub open spec fn command_down(modifiers: Seq<Modifier>, meta_is_command: bool) -> bool {
    modifiers.contains(Modifier::Control) || (meta_is_command && modifiers.contains(
        Modifier::Meta,
    ))
}

/// Whether one of `modifiers` is shift.
pub open spec fn shift_down(modifiers: Seq<Modifier>) -> bool {
    modifiers.contains(Modifier::Shift)
}

impl HeldKeys {
    /// Whether either control key is down.
    pub open spec fn command_down(self) -> bool {
        self.left_control || self.right_control
    }

    /// Whether the key of `shortcut` is down: R for reboot, S for shutdown,
    /// T for terminate.
    pub open spec fn is_down(self, shortcut: TimedShortcut) -> bool {
        match shortcut {
            TimedShortcut::Reboot => self.r,
            TimedShortcut::Shutdown => self.s,
            TimedShortcut::Terminate => self.t,
        }
    }

    /// The shortcut whose key is down; where several are, R goes before S
    /// and S before T.
    pub open spec fn pressed(self) -> Option<TimedShortcut> {
        if self.r {
            Some(TimedShortcut::Reboot)
        } else if self.s {
            Some(TimedShortcut::Shutdown)
        } else if self.t {
            Some(TimedShortcut::Terminate)
        } else {
            None
        }
    }
}

} // verus!
