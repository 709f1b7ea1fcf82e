//! Text taken apart into characters, and numbers written out in decimal.

use vstd::prelude::*;
use vstd::string::StringExecFns;
use vstd::utf8::{decode_utf8, valid_utf8};

verus! {

/// The characters of `text`, in order.
pub fn characters(text: &str) -> (chars: Vec<char>)
    ensures
        chars@ == text@,
{
    let mut chars: Vec<char> = Vec::new();
    for character in it: text.chars()
        invariant
            chars@ == it.seq().take(it.index()),
            it.seq() == text@,
    {
        chars.push(character);
    }
    chars
}

/// `core::str::from_utf8`: the text that `bytes` are the UTF-8 encoding of,
/// if they are the encoding of any.
#[verifier::external_body]
pub(crate) fn text_of(bytes: &[u8]) -> (result: Option<&str>)
    ensures
        match result {
            Some(text) => valid_utf8(bytes@) && text@ == decode_utf8(bytes@),
            None => !valid_utf8(bytes@),
        },
{
    match core::str::from_utf8(bytes) {
        Ok(text) => Some(text),
        Err(_) => None,
    }
}

/// The character that stands for a single decimal digit.
pub open spec fn digit_character(digit: nat) -> char
    recommends
        digit < 10,
{
    ('0' as int + digit) as char
}

/// `number` in decimal: no sign, no leading zero, `0` for zero.
pub open spec fn decimal(number: nat) -> Seq<char>
    decreases number,
{
    if number < 10 {
        seq![digit_character(number)]
    } else {
        decimal(number / 10).push(digit_character(number % 10))
    }
}

/// The text of a single decimal digit.
fn digit_text(digit: u32) -> (text: &'static str)
    requires
        digit < 10,
    ensures
        text@ == seq![digit_character(digit as nat)],
{
    proof {
        reveal_strlit("0");
        reveal_strlit("1");
        reveal_strlit("2");
        reveal_strlit("3");
        reveal_strlit("4");
        reveal_strlit("5");
        reveal_strlit("6");
        reveal_strlit("7");
        reveal_strlit("8");
        reveal_strlit("9");
    }
    let text = match digit {
        0 => "0",
        1 => "1",
        2 => "2",
        3 => "3",
        4 => "4",
        5 => "5",
        6 => "6",
        7 => "7",
        8 => "8",
        _ => "9",
    };
    assert(text@ =~= seq![digit_character(digit as nat)]);
    text
}

/// Appends `number`, in decimal, to `text`.
pub fn append_decimal(text: &mut String, number: u32)
    ensures
        final(text)@ == old(text)@ + decimal(number as nat),
    decreases number,
{
    if number >= 10 {
        append_decimal(text, number / 10);
    }
    text.append(digit_text(number % 10));
    proof {
        if number >= 10 {
            assert(old(text)@ + decimal(number as nat) =~= (old(text)@ + decimal(
                (number / 10) as nat,
            )) + seq![digit_character((number % 10) as nat)]);
        }
    }
}

} // verus!
