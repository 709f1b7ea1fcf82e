//! What is handed to the emulated machine: the values it is built from and
//! the calls that are made on it.

use vstd::prelude::*;

verus! {

/// A value handed to the emulated machine when it is built.
#[derive(Clone, Debug, PartialEq, Eq)]
pub enum BackendValue {
    Int(i32),
    Long(i64),
    Boolean(bool),
    Text(String),
}

/// A call to make on the emulated machine.
#[derive(Clone, Copy, Debug, PartialEq, Eq, Structural)]
pub enum BackendCall {
    KeyEvent { code: i32 },
    CharEvent { character: char },
    MouseClickEvent { button: i32, x: i32, y: i32 },
    MouseDragEvent { button: i32, x: i32, y: i32 },
    MouseScrollEvent { direction: i32, x: i32, y: i32 },
    AttachModem,
    DetachModem,
    /// Hand the machine the text that the clipboard holds.
    Paste,
    Terminate,
    Shutdown,
    Reboot,
}

/// A cell number counted from one, as the 32-bit signed integer that the
/// machine takes: one more than `cell`, wrapped around.
pub open spec fn one_based(cell: u32) -> i32 {
    if cell + 1 < 0x8000_0000 {
        (cell + 1) as i32
    } else {
        (cell + 1 - 0x1_0000_0000) as i32
    }
}

/// A number as the 32-bit signed integer that the machine takes: the number
/// itself, wrapped around.
pub open spec fn signed(number: u32) -> i32 {
    if number < 0x8000_0000 {
        number as i32
    } else {
        (number - 0x1_0000_0000) as i32
    }
}

/// A number as the 64-bit signed integer that the machine takes: the number
/// itself, wrapped around.
pub open spec fn signed_long(number: u64) -> i64 {
    if number < 0x8000_0000_0000_0000 {
        number as i64
    } else {
        (number - 0x1_0000_0000_0000_0000) as i64
    }
}

/// Converts a cell number to the machine's count from one.
pub(crate) fn to_one_based(cell: u32) -> (number: i32)
    ensures
        number == one_based(cell),
{
    let next: i64 = cell as i64 + 1;
    if next < 0x8000_0000 {
        next as i32
    } else {
        (next - 0x1_0000_0000) as i32
    }
}

/// Converts a number to the machine's 32-bit signed integers.
pub(crate) fn to_signed(number: u32) -> (result: i32)
    ensures
        result == signed(number),
{
    if number < 0x8000_0000 {
        number as i32
    } else {
        (number as i64 - 0x1_0000_0000) as i32
    }
}

/// Converts a number to the machine's 64-bit signed integers.
pub(crate) fn to_signed_long(number: u64) -> (result: i64)
    ensures
        result == signed_long(number),
{
    if number < 0x8000_0000_0000_0000 {
        number as i64
    } else {
        (number as i128 - 0x1_0000_0000_0000_0000) as i64
    }
}

impl BackendCall {
    /// The call that passes on the typed `character`.
    pub fn char_event(character: char) -> (call: BackendCall)
        ensures
            call == (BackendCall::CharEvent { character }),
    {
        BackendCall::CharEvent { character }
    }
}

} // verus!
