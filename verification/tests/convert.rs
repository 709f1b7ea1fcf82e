use mimic::convert::{button_to_lwjgl, key_to_lwjgl, Key, MouseButton};

const MAPPED: [(Key, i32); 84] = [
    (Key::Q, 16), (Key::W, 17), (Key::E, 18), (Key::R, 19), (Key::T, 20), (Key::Y, 21),
    (Key::U, 22), (Key::I, 23), (Key::O, 24), (Key::P, 25), (Key::A, 30), (Key::S, 31),
    (Key::D, 32), (Key::F, 33), (Key::G, 34), (Key::H, 35), (Key::J, 36), (Key::K, 37),
    (Key::L, 38), (Key::Z, 44), (Key::X, 45), (Key::C, 46), (Key::V, 47), (Key::B, 48),
    (Key::N, 49), (Key::M, 50),
    (Key::Number0, 11), (Key::Number1, 2), (Key::Number2, 3), (Key::Number3, 4),
    (Key::Number4, 5), (Key::Number5, 6), (Key::Number6, 7), (Key::Number7, 8),
    (Key::Number8, 9), (Key::Number9, 10),
    (Key::F1, 59), (Key::F2, 60), (Key::F3, 61), (Key::F4, 62), (Key::F5, 63), (Key::F6, 64),
    (Key::F7, 65), (Key::F8, 66), (Key::F9, 67), (Key::F10, 68), (Key::F11, 87),
    (Key::F12, 88), (Key::F13, 100), (Key::F14, 101), (Key::F15, 102),
    (Key::Space, 57), (Key::Comma, 51), (Key::Period, 52), (Key::Backslash, 43),
    (Key::Semicolon, 39), (Key::Apostrophe, 40), (Key::ForwardSlash, 53),
    (Key::OpenBracket, 26), (Key::CloseBracket, 27), (Key::Equals, 13), (Key::Minus, 12),
    (Key::Tab, 15), (Key::Backtick, 41),
    (Key::Return, 28), (Key::CapsLock, 58), (Key::Escape, 1), (Key::Backspace, 14),
    (Key::Home, 199), (Key::End, 207), (Key::PageUp, 201), (Key::PageDown, 209),
    (Key::Up, 200), (Key::Left, 203), (Key::Right, 205), (Key::Down, 208),
    (Key::LeftShift, 42), (Key::RightShift, 54), (Key::LeftControl, 29),
    (Key::RightControl, 157), (Key::LeftAlt, 56), (Key::RightAlt, 184),
    (Key::LeftMeta, 219), (Key::RightMeta, 220),
];

const UNMAPPED: [Key; 19] = [
    Key::F16, Key::F17, Key::F18, Key::F19, Key::F20, Key::F21, Key::F22, Key::F23, Key::F24,
    Key::F25, Key::Insert, Key::Delete, Key::NumLock, Key::ScrollLock, Key::PrintScreen,
    Key::Pause, Key::Menu, Key::World1, Key::World2,
];

#[test]
fn every_mapped_key_has_its_code() {
    for (key, code) in MAPPED {
        assert_eq!(key_to_lwjgl(key), Some(code), "{:?}", key);
    }
}

#[test]
fn unmapped_keys_have_no_code() {
    for key in UNMAPPED {
        assert_eq!(key_to_lwjgl(key), None, "{:?}", key);
    }
}

#[test]
fn key_codes_are_distinct_and_in_range() {
    for (i, (_, first)) in MAPPED.iter().enumerate() {
        assert!(1 <= *first && *first <= 220);
        for (_, second) in MAPPED.iter().skip(i + 1) {
            assert_ne!(first, second);
        }
    }
}

#[test]
fn button_codes() {
    assert_eq!(button_to_lwjgl(MouseButton::Left), 1);
    assert_eq!(button_to_lwjgl(MouseButton::Middle), 3);
    assert_eq!(button_to_lwjgl(MouseButton::Right), 2);
}
