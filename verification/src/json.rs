//! JSON values, as the `rustc_serialize` crate parses and holds them.
//!
//! The functions that call into that crate are not proved: each hands its
//! arguments to the crate, and its contract says what the crate's source
//! shows of the result.  What is proved is the test that a text is within
//! the limits inside which the parser can be trusted.

use vstd::prelude::*;

use rustc_serialize::json::{Json, ParserError};

use crate::text::characters;

verus! {

/// A JSON value, opaque to the verifier.
#[verifier::external_type_specification]
#[verifier::external_body]
pub struct ExJson(Json);

/// Why a text is no JSON, opaque to the verifier.
#[verifier::external_type_specification]
#[verifier::external_body]
pub struct ExParserError(ParserError);

/// The longest text, in characters, that is handed to the parser.
pub const MAX_TEXT_LENGTH: usize = 8192;

/// How deep arrays and objects may be nested in a text that is handed to
/// the parser.
pub const MAX_NESTING: usize = 128;

/// How many digits the exponent of a number may have in a text that is
/// handed to the parser.
pub const MAX_EXPONENT_DIGITS: usize = 9;

/// What a JSON value holds.  A number is kept as the parser read it: signed
/// if it had a minus sign, a float if it had a fraction or an exponent (its
/// value is not modelled), unsigned otherwise.
pub enum JsonValue {
    Signed(i64),
    Unsigned(u64),
    Float,
    Text(Seq<char>),
    Boolean(bool),
    Array(Seq<JsonValue>),
    Object(Map<Seq<char>, JsonValue>),
    Null,
}

/// What `json` holds.
pub uninterp spec fn json_value(json: Json) -> JsonValue;

/// What `Json::from_str` makes of `text`: the value it parses to, or none
/// where it reports an error.
pub uninterp spec fn parsed(text: Seq<char>) -> Option<JsonValue>;

/// The member of an object that goes by `key`; none if there is no such
/// member or the value is no object.
pub open spec fn member(value: JsonValue, key: Seq<char>) -> Option<JsonValue> {
    match value {
        JsonValue::Object(members) => if members.contains_key(key) {
            Some(members[key])
        } else {
            None
        },
        _ => None,
    }
}

/// The value as an unsigned number: an unsigned number is one, and so is a
/// signed number that is not negative.
pub open spec fn unsigned(value: JsonValue) -> Option<u64> {
    match value {
        JsonValue::Signed(number) => if number >= 0 {
            Some(number as u64)
        } else {
            None
        },
        JsonValue::Unsigned(number) => Some(number),
        _ => None,
    }
}

/// Whether `character` is one of `0` to `9`.
pub open spec fn is_decimal_digit(character: char) -> bool {
    '0' <= character && character <= '9'
}

/// Whether `character` is one that the parser skips between the parts of a
/// text: a space, a tab, a line feed or a carriage return.
pub open spec fn is_blank(character: char) -> bool {
    character == ' ' || character == '\t' || character == '\n' || character == '\r'
}

/// How far a text has been looked through for what the parser cannot be
/// trusted with.
#[derive(Clone, Copy, Debug, PartialEq, Eq, Structural)]
pub struct Scan {
    /// Whether nothing was found so far that the parser cannot take.
    pub safe: bool,
    /// Whether the text so far ends inside a string.
    pub in_string: bool,
    /// Whether the text so far ends in a backslash that escapes what
    /// follows it in a string.
    pub escaped: bool,
    /// How many arrays and objects are open at the end of the text so far.
    pub depth: usize,
    /// Whether the last thing outside strings, blanks aside, was a comma.
    pub after_comma: bool,
    /// Whether the last character was a digit outside strings.
    pub after_digit: bool,
    /// Whether the text so far ends in what may be the exponent of a number:
    /// an `e` or `E` right after a digit, signs, and digits.
    pub in_exponent: bool,
    /// How many digits that exponent has so far.
    pub exponent_digits: usize,
}

impl Scan {
    /// Before the first character.
    pub open spec fn start() -> Scan {
        Scan {
            safe: true,
            in_string: false,
            escaped: false,
            depth: 0,
            after_comma: false,
            after_digit: false,
            in_exponent: false,
            exponent_digits: 0,
        }
    }

    /// After one more character, outside strings and with nothing found so
    /// far, where the character is no quote, bracket or brace.
    pub open spec fn step_plain(self, character: char) -> Scan {
        if (character == 'e' || character == 'E') && self.after_digit {
            Scan {
                after_comma: false,
                after_digit: false,
                in_exponent: true,
                exponent_digits: 0,
                ..self
            }
        } else if self.in_exponent && is_decimal_digit(character) {
            if self.exponent_digits >= MAX_EXPONENT_DIGITS {
                Scan { safe: false, ..self }
            } else {
                Scan {
                    after_digit: true,
                    exponent_digits: (self.exponent_digits + 1) as usize,
                    ..self
                }
            }
        } else if self.in_exponent && (character == '+' || character == '-') {
            Scan { after_digit: false, ..self }
        } else if is_blank(character) {
            Scan { after_digit: false, in_exponent: false, ..self }
        } else {
            Scan {
                after_comma: character == ',',
                after_digit: is_decimal_digit(character),
                in_exponent: false,
                ..self
            }
        }
    }

    /// After one more character.
    ///
    /// Inside a string only its end is looked for: a quote that no
    /// backslash escapes.  Outside strings three things are not safe: an
    /// array or object opened inside `MAX_NESTING` others, a `}` with
    /// nothing but blanks between it and a comma before it, and more than
    /// `MAX_EXPONENT_DIGITS` digits after an `e` or `E` that comes right
    /// after a digit, where the exponent of a number begins, signs between
    /// them aside.  What is not safe once stays so.
    pub open spec fn step(self, character: char) -> Scan {
        if !self.safe {
            self
        } else if self.in_string {
            if self.escaped {
                Scan { escaped: false, ..self }
            } else if character == '\\' {
                Scan { escaped: true, ..self }
            } else if character == '"' {
                Scan { in_string: false, ..self }
            } else {
                self
            }
        } else if character == '"' {
            Scan {
                in_string: true,
                after_comma: false,
                after_digit: false,
                in_exponent: false,
                ..self
            }
        } else if character == '[' || character == '{' {
            if self.depth >= MAX_NESTING {
                Scan { safe: false, ..self }
            } else {
                Scan {
                    depth: (self.depth + 1) as usize,
                    after_comma: false,
                    after_digit: false,
                    in_exponent: false,
                    ..self
                }
            }
        } else if character == '}' && self.after_comma {
            Scan { safe: false, ..self }
        } else if character == ']' || character == '}' {
            Scan {
                depth: if self.depth > 0 {
                    (self.depth - 1) as usize
                } else {
                    0
                },
                after_comma: false,
                after_digit: false,
                in_exponent: false,
                ..self
            }
        } else {
            self.step_plain(character)
        }
    }

    /// After all of `text`, from its first character on.
    pub open spec fn of(text: Seq<char>) -> Scan
        decreases text.len(),
    {
        if text.len() == 0 {
            Scan::start()
        } else {
            Scan::of(text.drop_last()).step(text.last())
        }
    }

    /// Looks at one more character.
    pub fn advance(self, character: char) -> (next: Scan)
        ensures
            next == self.step(character),
    {
        if !self.safe {
            self
        } else if self.in_string {
            if self.escaped {
                Scan { escaped: false, ..self }
            } else if character == '\\' {
                Scan { escaped: true, ..self }
            } else if character == '"' {
                Scan { in_string: false, ..self }
            } else {
                self
            }
        } else if character == '"' {
            Scan {
                in_string: true,
                after_comma: false,
                after_digit: false,
                in_exponent: false,
                ..self
            }
        } else if character == '[' || character == '{' {
            if self.depth >= MAX_NESTING {
                Scan { safe: false, ..self }
            } else {
                Scan {
                    depth: self.depth + 1,
                    after_comma: false,
                    after_digit: false,
                    in_exponent: false,
                    ..self
                }
            }
        } else if character == '}' && self.after_comma {
            Scan { safe: false, ..self }
        } else if character == ']' || character == '}' {
            let depth = if self.depth > 0 {
                self.depth - 1
            } else {
                0
            };
            Scan { depth, after_comma: false, after_digit: false, in_exponent: false, ..self }
        } else {
            let digit = '0' <= character && character <= '9';
            if (character == 'e' || character == 'E') && self.after_digit {
                Scan {
                    after_comma: false,
                    after_digit: false,
                    in_exponent: true,
                    exponent_digits: 0,
                    ..self
                }
            } else if self.in_exponent && digit {
                if self.exponent_digits >= MAX_EXPONENT_DIGITS {
                    Scan { safe: false, ..self }
                } else {
                    Scan { after_digit: true, exponent_digits: self.exponent_digits + 1, ..self }
                }
            } else if self.in_exponent && (character == '+' || character == '-') {
                Scan { after_digit: false, ..self }
            } else if character == ' ' || character == '\t' || character == '\n' || character
                == '\r' {
                Scan { after_digit: false, in_exponent: false, ..self }
            } else {
                Scan {
                    after_comma: character == ',',
                    after_digit: digit,
                    in_exponent: false,
                    ..self
                }
            }
        }
    }
}

/// Whether `text` is within what the parser can be trusted with: it is no
/// longer than `MAX_TEXT_LENGTH`, and looking through it finds nothing that
/// is not safe.
pub open spec fn within_limits(text: Seq<char>) -> bool {
    text.len() <= MAX_TEXT_LENGTH && Scan::of(text).safe
}

/// Tests whether `text` is within what the parser can be trusted with.
pub fn check_limits(text: &str) -> (ok: bool)
    ensures
        ok == within_limits(text@),
{
    let letters = characters(text);
    if letters.len() > MAX_TEXT_LENGTH {
        return false;
    }
    let mut scan = Scan {
        safe: true,
        in_string: false,
        escaped: false,
        depth: 0,
        after_comma: false,
        after_digit: false,
        in_exponent: false,
        exponent_digits: 0,
    };
    let mut i: usize = 0;
    while i < letters.len()
        invariant
            i <= letters.len(),
            letters@ == text@,
            scan == Scan::of(letters@.take(i as int)),
        decreases letters.len() - i,
    {
        proof {
            assert(letters@.take(i + 1).drop_last() =~= letters@.take(i as int));
            assert(letters@.take(i + 1).last() == letters@[i as int]);
        }
        scan = scan.advance(letters[i]);
        i += 1;
    }
    assert(letters@.take(i as int) =~= letters@);
    scan.safe
}

/// `Json::from_str`: parses `text` as one JSON value.
///
/// The result depends on the text alone.  There are four things that the
/// parser cannot be trusted with, and a text within the limits stays clear
/// of all four.  It calls itself once for every array or object inside
/// another.  It keeps the keys it is inside of in a buffer that it indexes
/// with 16-bit numbers.  It adds up the digits of an exponent without a
/// check for overflow, which nine digits cannot cause.  And where a comma
/// in an object is followed by the closing brace, it forgets which array
/// or object it is inside of, and stops with a panic if more follows.
#[verifier::external_body]
pub(crate) fn parse(text: &str) -> (result: Result<Json, ParserError>)
    requires
        within_limits(text@),
    ensures
        match result {
            Ok(json) => parsed(text@) == Some(json_value(json)),
            Err(_) => parsed(text@) is None,
        },
{
    Json::from_str(text)
}

/// `Json::is_object`: whether the value is an object.
#[verifier::external_body]
pub(crate) fn is_object(json: &Json) -> (result: bool)
    ensures
        result == (json_value(*json) is Object),
{
    json.is_object()
}

/// `Json::find`: the member of an object that goes by `key`; none if there
/// is no such member or the value is no object.
#[verifier::external_body]
pub(crate) fn find<'a>(json: &'a Json, key: &str) -> (result: Option<&'a Json>)
    ensures
        match result {
            Some(found) => member(json_value(*json), key@) == Some(json_value(*found)),
            None => member(json_value(*json), key@) is None,
        },
{
    json.find(key)
}

/// `Json::as_u64`: the value as an unsigned number, if it is an unsigned
/// number or a signed one that is not negative.
#[verifier::external_body]
pub(crate) fn as_u64(json: &Json) -> (result: Option<u64>)
    ensures
        result == unsigned(json_value(*json)),
{
    json.as_u64()
}

/// The `Debug` form of a `ParserError`: the kind of the error with the line
/// and column it was found at.  Nothing is claimed of the text.
#[verifier::external_body]
pub(crate) fn describe(error: &ParserError) -> (text: String) {
    format!("{:?}", error)
}

} // verus!
