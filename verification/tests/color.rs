use mimic::color::{
    character_to_hex, number_to_hex, BLACK, BLUE, BROWN, CYAN, GRAY, GREEN, LIGHT_BLUE,
    LIGHT_GRAY, LIME, MAGENTA, ORANGE, PINK, PURPLE, RED, WHITE, YELLOW,
};
use mimic::failure::FrameError;

const PALETTE: [u32; 16] = [
    BLACK, RED, GREEN, BROWN, BLUE, PURPLE, CYAN, LIGHT_GRAY, GRAY, PINK, LIME, YELLOW,
    LIGHT_BLUE, MAGENTA, ORANGE, WHITE,
];

#[test]
fn palette_round_trip() {
    let digits = "0123456789abcdef";
    for (index, digit) in digits.chars().enumerate() {
        assert_eq!(character_to_hex(digit), Ok(PALETTE[index]));
        assert_eq!(number_to_hex(index as i32), Ok(PALETTE[index]));
    }
}

#[test]
fn palette_values() {
    assert_eq!(number_to_hex(0), Ok(0x000000));
    assert_eq!(number_to_hex(1), Ok(0xcc4c4c));
    assert_eq!(number_to_hex(14), Ok(0xf2b233));
    assert_eq!(number_to_hex(15), Ok(0xf0f0f0));
    assert_eq!(character_to_hex('a'), Ok(0x7fcc19));
    assert_eq!(character_to_hex('f'), Ok(0xf0f0f0));
}

#[test]
fn other_characters_are_no_colors() {
    for character in ['g', 'A', 'F', ' ', '/', ':', '`', 'é', '\u{0}', '０'] {
        assert_eq!(character_to_hex(character), Err(FrameError::InvalidColorDigit));
    }
}

#[test]
fn other_numbers_are_no_colors() {
    for number in [-1, 16, 17, 255, i32::MIN, i32::MAX] {
        assert_eq!(number_to_hex(number), Err(FrameError::InvalidColorDigit));
    }
}
