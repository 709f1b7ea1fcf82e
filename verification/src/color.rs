//! Color values and conversion.

use vstd::prelude::*;

use crate::failure::FrameError;

verus! {

/// ComputerCraft white color.
pub const WHITE: u32 = 0xf0f0f0;

/// ComputerCraft orange color.
pub const ORANGE: u32 = 0xf2b233;

/// ComputerCraft magenta color.
pub const MAGENTA: u32 = 0xe57fd8;

/// ComputerCraft light blue color.
pub const LIGHT_BLUE: u32 = 0x99b2f2;

/// ComputerCraft yellow color.
pub const YELLOW: u32 = 0xdede6c;

/// ComputerCraft lime color.
pub const LIME: u32 = 0x7fcc19;

/// ComputerCraft pink color.
pub const PINK: u32 = 0xf2b2cc;

/// ComputerCraft gray color.
pub const GRAY: u32 = 0x4c4c4c;

/// ComputerCraft light gray color.
pub const LIGHT_GRAY: u32 = 0x999999;

/// ComputerCraft cyan color.
pub const CYAN: u32 = 0x4c99b2;

/// ComputerCraft purple color.
pub const PURPLE: u32 = 0xb266e5;

/// ComputerCraft blue color.
pub const BLUE: u32 = 0x3366cc;

/// ComputerCraft brown color.
pub const BROWN: u32 = 0x7f664c;

/// ComputerCraft green color.
pub const GREEN: u32 = 0x57a64e;

/// ComputerCraft red color.
pub const RED: u32 = 0xcc4c4c;

/// ComputerCraft black color.
pub const BLACK: u32 = 0x000000;

/// Whether `index` names one of the sixteen palette entries.
pub open spec fn is_palette_index(index: int) -> bool {
    0 <= index < 16
}

/// The packed RGB value of palette entry `index`.
pub open spec fn palette(index: int) -> u32
    recommends
        is_palette_index(index),
{
    if index == 0 {
        BLACK
    } else if index == 1 {
        RED
    } else if index == 2 {
        GREEN
    } else if index == 3 {
        BROWN
    } else if index == 4 {
        BLUE
    } else if index == 5 {
        PURPLE
    } else if index == 6 {
        CYAN
    } else if index == 7 {
        LIGHT_GRAY
    } else if index == 8 {
        GRAY
    } else if index == 9 {
        PINK
    } else if index == 10 {
        LIME
    } else if index == 11 {
        YELLOW
    } else if index == 12 {
        LIGHT_BLUE
    } else if index == 13 {
        MAGENTA
    } else if index == 14 {
        ORANGE
    } else {
        WHITE
    }
}

/// Whether `character` is one of the sixteen palette digits, `0` to `9` and
/// lower-case `a` to `f`.
pub open spec fn is_palette_digit(character: char) -> bool {
    ('0' <= character && character <= '9') || ('a' <= character && character <= 'f')
}

/// The palette index that a palette digit stands for.
pub open spec fn digit_index(character: char) -> int
    recommends
        is_palette_digit(character),
{
    if character <= '9' {
        character as int - '0' as int
    } else {
        character as int - 'a' as int + 10
    }
}

/// The palette digit that stands for `index`.
pub open spec fn digit_of(index: int) -> char
    recommends
        is_palette_index(index),
{
    if index < 10 {
        ('0' as int + index) as char
    } else {
        ('a' as int + index - 10) as char
    }
}

/// What `number_to_hex` returns for `number`.
pub open spec fn number_color(number: int) -> Result<u32, FrameError> {
    if is_palette_index(number) {
        Ok(palette(number))
    } else {
        Err(FrameError::InvalidColorDigit)
    }
}

/// What `character_to_hex` returns for `character`.
pub open spec fn character_color(character: char) -> Result<u32, FrameError> {
    if is_palette_digit(character) {
        Ok(palette(digit_index(character)))
    } else {
        Err(FrameError::InvalidColorDigit)
    }
}

/// Converts a palette digit into a hex color code.
pub fn character_to_hex(character: char) -> (result: Result<u32, FrameError>)
    ensures
        result == character_color(character),
{
    if '0' <= character && character <= '9' {
        number_to_hex((character as u32 - '0' as u32) as i32)
    } else if 'a' <= character && character <= 'f' {
        number_to_hex((character as u32 - 'a' as u32 + 10) as i32)
    } else {
        Err(FrameError::InvalidColorDigit)
    }
}

/// Converts a palette index into a hex color code.
pub fn number_to_hex(number: i32) -> (result: Result<u32, FrameError>)
    ensures
        result == number_color(number as int),
{
    match number {
        0 => Ok(BLACK),
        1 => Ok(RED),
        2 => Ok(GREEN),
        3 => Ok(BROWN),
        4 => Ok(BLUE),
        5 => Ok(PURPLE),
        6 => Ok(CYAN),
        7 => Ok(LIGHT_GRAY),
        8 => Ok(GRAY),
        9 => Ok(PINK),
        10 => Ok(LIME),
        11 => Ok(YELLOW),
        12 => Ok(LIGHT_BLUE),
        13 => Ok(MAGENTA),
        14 => Ok(ORANGE),
        15 => Ok(WHITE),
        _ => Err(FrameError::InvalidColorDigit),
    }
}

/// Every palette index has a digit, and that digit decodes to the index's
/// color; a character that is no palette digit decodes to no color.
pub proof fn lemma_palette_round_trip(index: int)
    requires
        is_palette_index(index),
    ensures
        is_palette_digit(digit_of(index)),
        digit_index(digit_of(index)) == index,
        character_color(digit_of(index)) == Ok::<u32, FrameError>(palette(index)),
        character_color(digit_of(index)) == number_color(index),
{
}

/// A character decodes to a color if it is the digit of a palette index,
/// and to `InvalidColorDigit` if it is the digit of none.
pub proof fn lemma_only_digits_decode(character: char)
    ensures
        character_color(character) is Ok <==> exists|index: int|
            is_palette_index(index) && #[trigger] digit_of(index) == character,
        character_color(character) is Err ==> character_color(character) == Err::<
            u32,
            FrameError,
        >(FrameError::InvalidColorDigit),
{
    if is_palette_digit(character) {
        lemma_palette_round_trip(digit_index(character));
        assert(digit_of(digit_index(character)) == character);
    } else {
        assert forall|index: int| is_palette_index(index) implies #[trigger] digit_of(index)
            != character by {
            lemma_palette_round_trip(index);
        }
    }
}

} // verus!
