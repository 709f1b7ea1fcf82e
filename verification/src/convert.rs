//! Convert to LWJGL key and mouse button values.

use vstd::prelude::*;

verus! {

/// A key of the keyboard, named by its position on a US layout.
#[derive(Clone, Copy, Debug, PartialEq, Eq, Structural)]
pub enum Key {
    Q,
    W,
    E,
    R,
    T,
    Y,
    U,
    I,
    O,
    P,
    A,
    S,
    D,
    F,
    G,
    H,
    J,
    K,
    L,
    Z,
    X,
    C,
    V,
    B,
    N,
    M,
    Number0,
    Number1,
    Number2,
    Number3,
    Number4,
    Number5,
    Number6,
    Number7,
    Number8,
    Number9,
    F1,
    F2,
    F3,
    F4,
    F5,
    F6,
    F7,
    F8,
    F9,
    F10,
    F11,
    F12,
    F13,
    F14,
    F15,
    Space,
    Comma,
    Period,
    Backslash,
    Semicolon,
    Apostrophe,
    ForwardSlash,
    OpenBracket,
    CloseBracket,
    Equals,
    Minus,
    Tab,
    Backtick,
    Return,
    CapsLock,
    Escape,
    Backspace,
    Home,
    End,
    PageUp,
    PageDown,
    Up,
    Left,
    Right,
    Down,
    LeftShift,
    RightShift,
    LeftControl,
    RightControl,
    LeftAlt,
    RightAlt,
    LeftMeta,
    RightMeta,
    F16,
    F17,
    F18,
    F19,
    F20,
    F21,
    F22,
    F23,
    F24,
    F25,
    Insert,
    Delete,
    NumLock,
    ScrollLock,
    PrintScreen,
    Pause,
    Menu,
    World1,
    World2,
}

/// A button of the mouse.
#[derive(Clone, Copy, Debug, PartialEq, Eq, Structural)]
pub enum MouseButton {
    Left,
    Middle,
    Right,
}

/// The LWJGL code of `key`, for the keys that have one.
pub open spec fn key_code(key: Key) -> Option<i32> {
    match key {
        Key::Q => Some(16i32),
        Key::W => Some(17i32),
        Key::E => Some(18i32),
        Key::R => Some(19i32),
        Key::T => Some(20i32),
        Key::Y => Some(21i32),
        Key::U => Some(22i32),
        Key::I => Some(23i32),
        Key::O => Some(24i32),
        Key::P => Some(25i32),
        Key::A => Some(30i32),
        Key::S => Some(31i32),
        Key::D => Some(32i32),
        Key::F => Some(33i32),
        Key::G => Some(34i32),
        Key::H => Some(35i32),
        Key::J => Some(36i32),
        Key::K => Some(37i32),
        Key::L => Some(38i32),
        Key::Z => Some(44i32),
        Key::X => Some(45i32),
        Key::C => Some(46i32),
        Key::V => Some(47i32),
        Key::B => Some(48i32),
        Key::N => Some(49i32),
        Key::M => Some(50i32),

        Key::Number0 => Some(11i32),
        Key::Number1 => Some(2i32),
        Key::Number2 => Some(3i32),
        Key::Number3 => Some(4i32),
        Key::Number4 => Some(5i32),
        Key::Number5 => Some(6i32),
        Key::Number6 => Some(7i32),
        Key::Number7 => Some(8i32),
        Key::Number8 => Some(9i32),
        Key::Number9 => Some(10i32),

        Key::F1 => Some(59i32),
        Key::F2 => Some(60i32),
        Key::F3 => Some(61i32),
        Key::F4 => Some(62i32),
        Key::F5 => Some(63i32),
        Key::F6 => Some(64i32),
        Key::F7 => Some(65i32),
        Key::F8 => Some(66i32),
        Key::F9 => Some(67i32),
        Key::F10 => Some(68i32),
        Key::F11 => Some(87i32),
        Key::F12 => Some(88i32),
        Key::F13 => Some(100i32),
        Key::F14 => Some(101i32),
        Key::F15 => Some(102i32),

        Key::Space => Some(57i32),
        Key::Comma => Some(51i32),
        Key::Period => Some(52i32),
        Key::Backslash => Some(43i32),
        Key::Semicolon => Some(39i32),
        Key::Apostrophe => Some(40i32),
        Key::ForwardSlash => Some(53i32),
        Key::OpenBracket => Some(26i32),
        Key::CloseBracket => Some(27i32),
        Key::Equals => Some(13i32),
        Key::Minus => Some(12i32),
        Key::Tab => Some(15i32),
        Key::Backtick => Some(41i32),

        Key::Return => Some(28i32),
        Key::CapsLock => Some(58i32),
        Key::Escape => Some(1i32),
        Key::Backspace => Some(14i32),
        Key::Home => Some(199i32),
        Key::End => Some(207i32),
        Key::PageUp => Some(201i32),
        Key::PageDown => Some(209i32),

        Key::Up => Some(200i32),
        Key::Left => Some(203i32),
        Key::Right => Some(205i32),
        Key::Down => Some(208i32),

        Key::LeftShift => Some(42i32),
        Key::RightShift => Some(54i32),
        Key::LeftControl => Some(29i32),
        Key::RightControl => Some(157i32),
        Key::LeftAlt => Some(56i32),
        Key::RightAlt => Some(184i32),
        Key::LeftMeta => Some(219i32),
        Key::RightMeta => Some(220i32),

        _ => None,
    }
}

/// The code that the emulated machine knows `button` by.
pub open spec fn button_code(button: MouseButton) -> i32 {
    match button {
        MouseButton::Left => 1,
        MouseButton::Middle => 3,
        MouseButton::Right => 2,
    }
}

/// Converts a key to an LWJGL key code.
pub fn key_to_lwjgl(key: Key) -> (code: Option<i32>)
    ensures
        code == key_code(key),
{
    match key {
        Key::Q => Some(16),
        Key::W => Some(17),
        Key::E => Some(18),
        Key::R => Some(19),
        Key::T => Some(20),
        Key::Y => Some(21),
        Key::U => Some(22),
        Key::I => Some(23),
        Key::O => Some(24),
        Key::P => Some(25),
        Key::A => Some(30),
        Key::S => Some(31),
        Key::D => Some(32),
        Key::F => Some(33),
        Key::G => Some(34),
        Key::H => Some(35),
        Key::J => Some(36),
        Key::K => Some(37),
        Key::L => Some(38),
        Key::Z => Some(44),
        Key::X => Some(45),
        Key::C => Some(46),
        Key::V => Some(47),
        Key::B => Some(48),
        Key::N => Some(49),
        Key::M => Some(50),

        Key::Number0 => Some(11),
        Key::Number1 => Some(2),
        Key::Number2 => Some(3),
        Key::Number3 => Some(4),
        Key::Number4 => Some(5),
        Key::Number5 => Some(6),
        Key::Number6 => Some(7),
        Key::Number7 => Some(8),
        Key::Number8 => Some(9),
        Key::Number9 => Some(10),

        Key::F1 => Some(59),
        Key::F2 => Some(60),
        Key::F3 => Some(61),
        Key::F4 => Some(62),
        Key::F5 => Some(63),
        Key::F6 => Some(64),
        Key::F7 => Some(65),
        Key::F8 => Some(66),
        Key::F9 => Some(67),
        Key::F10 => Some(68),
        Key::F11 => Some(87),
        Key::F12 => Some(88),
        Key::F13 => Some(100),
        Key::F14 => Some(101),
        Key::F15 => Some(102),

        Key::Space => Some(57),
        Key::Comma => Some(51),
        Key::Period => Some(52),
        Key::Backslash => Some(43),
        Key::Semicolon => Some(39),
        Key::Apostrophe => Some(40),
        Key::ForwardSlash => Some(53),
        Key::OpenBracket => Some(26),
        Key::CloseBracket => Some(27),
        Key::Equals => Some(13),
        Key::Minus => Some(12),
        Key::Tab => Some(15),
        Key::Backtick => Some(41),

        Key::Return => Some(28),
        Key::CapsLock => Some(58),
        Key::Escape => Some(1),
        Key::Backspace => Some(14),
        Key::Home => Some(199),
        Key::End => Some(207),
        Key::PageUp => Some(201),
        Key::PageDown => Some(209),

        Key::Up => Some(200),
        Key::Left => Some(203),
        Key::Right => Some(205),
        Key::Down => Some(208),

        Key::LeftShift => Some(42),
        Key::RightShift => Some(54),
        Key::LeftControl => Some(29),
        Key::RightControl => Some(157),
        Key::LeftAlt => Some(56),
        Key::RightAlt => Some(184),
        Key::LeftMeta => Some(219),
        Key::RightMeta => Some(220),

        _ => None,
    }
}

/// Converts a mouse button to an LWJGL one.
pub fn button_to_lwjgl(button: MouseButton) -> (code: i32)
    ensures
        code == button_code(button),
{
    match button {
        MouseButton::Left => 1,
        MouseButton::Middle => 3,
        MouseButton::Right => 2,
    }
}

/// No two keys share a code: the machine can tell from a code which key was
/// pressed.
pub proof fn lemma_key_codes_distinct(first: Key, second: Key)
    requires
        key_code(first) is Some,
        key_code(first) == key_code(second),
    ensures
        first == second,
{
}

/// Every key code lies between 1 and 220.
pub proof fn lemma_key_code_range(key: Key)
    ensures
        key_code(key) matches Some(code) ==> 1 <= code <= 220,
{
}

/// The three buttons have three different codes.
pub proof fn lemma_button_codes_distinct(first: MouseButton, second: MouseButton)
    requires
        button_code(first) == button_code(second),
    ensures
        first == second,
{
}

} // verus!
