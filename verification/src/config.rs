//! Create and update emulator configuration.

use vstd::prelude::*;
use vstd::string::StringExecFns;
use vstd::utf8::{decode_utf8, valid_utf8};

use rustc_serialize::json::Json;

use crate::text::text_of;
use crate::json::{
    as_u64, check_limits, describe, find, is_object, json_value, member, parse, parsed, unsigned,
    within_limits, JsonValue,
};

verus! {

/// The default configuration file's contents.
pub const DEFAULT: &'static str =
    "{\n\t\"computer width\": 51,\n\t\"computer height\": 19,\n\t\"pocket width\": 26,\n\t\"pocket height\": 20,\n\t\"space limit\": 2097152,\n\t\"border width\": 2,\n\t\"border height\": 2\n}\n";

/// A set of configuration options.
#[derive(Clone, Copy, Debug, PartialEq, Eq, Structural)]
pub struct Config {
    pub computer_width: u32,
    pub computer_height: u32,
    pub pocket_width: u32,
    pub pocket_height: u32,
    pub space_limit: u64,
    pub border_width: u32,
    pub border_height: u32,
}

/// The options of a configuration, in the order in which they are read.
#[derive(Clone, Copy, Debug, PartialEq, Eq, Structural)]
pub enum ConfigField {
    ComputerWidth,
    ComputerHeight,
    PocketWidth,
    PocketHeight,
    SpaceLimit,
    BorderWidth,
    BorderHeight,
}

/// What was found under the name of an option.
#[derive(Clone, Copy, Debug, PartialEq, Eq, Structural)]
pub enum Lookup {
    /// Nothing goes by the name.
    Missing,
    /// Something that is no unsigned number.
    WrongType,
    /// An unsigned number.
    Number(u64),
}

/// What was found under the name of each option.
#[derive(Clone, Copy, Debug, PartialEq, Eq, Structural)]
pub struct Lookups {
    pub computer_width: Lookup,
    pub computer_height: Lookup,
    pub pocket_width: Lookup,
    pub pocket_height: Lookup,
    pub space_limit: Lookup,
    pub border_width: Lookup,
    pub border_height: Lookup,
}

/// Why a configuration could not be loaded.
#[derive(Clone, Debug, PartialEq, Eq)]
pub enum ConfigError {
    /// The file's bytes are no UTF-8.
    NotUtf8,
    /// The text is beyond what is handed to the parser: it is too long or
    /// nested too deeply, or holds an exponent of more than nine digits or
    /// a comma before a closing brace.
    Unsupported,
    /// The text is no JSON; `detail` is the parser's account of why.
    Decode { detail: String },
    /// The JSON value is no object.
    NotDictionary,
    /// The object lacks an option.
    Missing { field: ConfigField },
    /// An option is no unsigned number.
    WrongType { field: ConfigField },
}

/// A `u64` cut down to its lower 32 bits.
pub open spec fn low_bits(number: u64) -> u32 {
    (number % 0x1_0000_0000) as u32
}

impl ConfigField {
    /// The name that the option goes by in the configuration file.
    pub open spec fn name_text(self) -> Seq<char> {
        match self {
            ConfigField::ComputerWidth => "computer width"@,
            ConfigField::ComputerHeight => "computer height"@,
            ConfigField::PocketWidth => "pocket width"@,
            ConfigField::PocketHeight => "pocket height"@,
            ConfigField::SpaceLimit => "space limit"@,
            ConfigField::BorderWidth => "border width"@,
            ConfigField::BorderHeight => "border height"@,
        }
    }

    /// The name that the option goes by in the configuration file.
    pub fn name(self) -> (name: &'static str)
        ensures
            name@ == self.name_text(),
    {
        match self {
            ConfigField::ComputerWidth => "computer width",
            ConfigField::ComputerHeight => "computer height",
            ConfigField::PocketWidth => "pocket width",
            ConfigField::PocketHeight => "pocket height",
            ConfigField::SpaceLimit => "space limit",
            ConfigField::BorderWidth => "border width",
            ConfigField::BorderHeight => "border height",
        }
    }
}

impl ConfigError {
    /// The error in words.
    pub open spec fn message_text(self) -> Seq<char> {
        match self {
            ConfigError::NotUtf8 => "Configuration file not valid UTF-8."@,
            ConfigError::Unsupported =>
                "Configuration file is beyond the limits of the parser."@,
            ConfigError::Decode { detail } => "Failed to decode JSON file: "@ + detail@,
            ConfigError::NotDictionary => "Root JSON object is not a dictionary."@,
            ConfigError::Missing { field } => "Configuration option `"@ + field.name_text()
                + "` doesn't exist."@,
            ConfigError::WrongType { field } => "Option `"@ + field.name_text()
                + "` is of an incorrect type."@,
        }
    }

    /// The error in words.
    pub fn message(&self) -> (message: String)
        ensures
            message@ == self.message_text(),
    {
        match self {
            ConfigError::NotUtf8 => String::from_str("Configuration file not valid UTF-8."),
            ConfigError::Unsupported => String::from_str(
                "Configuration file is beyond the limits of the parser.",
            ),
            ConfigError::Decode { detail } => String::from_str(
                "Failed to decode JSON file: ",
            ).concat(detail.as_str()),
            ConfigError::NotDictionary => String::from_str(
                "Root JSON object is not a dictionary.",
            ),
            ConfigError::Missing { field } => String::from_str("Configuration option `").concat(
                field.name(),
            ).concat("` doesn't exist."),
            ConfigError::WrongType { field } => String::from_str("Option `").concat(
                field.name(),
            ).concat("` is of an incorrect type."),
        }
    }
}

impl Lookup {
    /// What is found under `key` in `value`.
    pub open spec fn of(value: JsonValue, key: Seq<char>) -> Lookup {
        match member(value, key) {
            None => Lookup::Missing,
            Some(found) => match unsigned(found) {
                None => Lookup::WrongType,
                Some(number) => Lookup::Number(number),
            },
        }
    }

    /// What is wrong with what was found for `field`, if anything.
    pub open spec fn fault(self, field: ConfigField) -> Option<ConfigError> {
        match self {
            Lookup::Missing => Some(ConfigError::Missing { field }),
            Lookup::WrongType => Some(ConfigError::WrongType { field }),
            Lookup::Number(_) => None,
        }
    }

    /// The number that was found; zero if none was.
    pub open spec fn number(self) -> u64 {
        match self {
            Lookup::Number(number) => number,
            _ => 0,
        }
    }
}

impl Lookups {
    /// What is found in `value` under the name of each option.
    pub open spec fn of(value: JsonValue) -> Lookups {
        Lookups {
            computer_width: Lookup::of(value, ConfigField::ComputerWidth.name_text()),
            computer_height: Lookup::of(value, ConfigField::ComputerHeight.name_text()),
            pocket_width: Lookup::of(value, ConfigField::PocketWidth.name_text()),
            pocket_height: Lookup::of(value, ConfigField::PocketHeight.name_text()),
            space_limit: Lookup::of(value, ConfigField::SpaceLimit.name_text()),
            border_width: Lookup::of(value, ConfigField::BorderWidth.name_text()),
            border_height: Lookup::of(value, ConfigField::BorderHeight.name_text()),
        }
    }

    /// What was found for `field`.
    pub open spec fn get(self, field: ConfigField) -> Lookup {
        match field {
            ConfigField::ComputerWidth => self.computer_width,
            ConfigField::ComputerHeight => self.computer_height,
            ConfigField::PocketWidth => self.pocket_width,
            ConfigField::PocketHeight => self.pocket_height,
            ConfigField::SpaceLimit => self.space_limit,
            ConfigField::BorderWidth => self.border_width,
            ConfigField::BorderHeight => self.border_height,
        }
    }

    /// The fault of the first option, in the order in which they are read,
    /// that has one.
    pub open spec fn first_fault(self) -> Option<ConfigError> {
        if self.computer_width.fault(ConfigField::ComputerWidth) is Some {
            self.computer_width.fault(ConfigField::ComputerWidth)
        } else if self.computer_height.fault(ConfigField::ComputerHeight) is Some {
            self.computer_height.fault(ConfigField::ComputerHeight)
        } else if self.pocket_width.fault(ConfigField::PocketWidth) is Some {
            self.pocket_width.fault(ConfigField::PocketWidth)
        } else if self.pocket_height.fault(ConfigField::PocketHeight) is Some {
            self.pocket_height.fault(ConfigField::PocketHeight)
        } else if self.space_limit.fault(ConfigField::SpaceLimit) is Some {
            self.space_limit.fault(ConfigField::SpaceLimit)
        } else if self.border_width.fault(ConfigField::BorderWidth) is Some {
            self.border_width.fault(ConfigField::BorderWidth)
        } else {
            self.border_height.fault(ConfigField::BorderHeight)
        }
    }

    /// The configuration that the numbers found make up.  The space limit is
    /// taken whole, the others cut down to 32 bits.
    pub open spec fn config(self) -> Config {
        Config {
            computer_width: low_bits(self.computer_width.number()),
            computer_height: low_bits(self.computer_height.number()),
            pocket_width: low_bits(self.pocket_width.number()),
            pocket_height: low_bits(self.pocket_height.number()),
            space_limit: self.space_limit.number(),
            border_width: low_bits(self.border_width.number()),
            border_height: low_bits(self.border_height.number()),
        }
    }
}

/// Reads one option: a number if there is one, the fault if not.
fn read(lookup: Lookup, field: ConfigField) -> (result: Result<u64, ConfigError>)
    ensures
        match result {
            Ok(number) => lookup == Lookup::Number(number),
            Err(error) => lookup.fault(field) == Some(error),
        },
{
    match lookup {
        Lookup::Missing => Err(ConfigError::Missing { field }),
        Lookup::WrongType => Err(ConfigError::WrongType { field }),
        Lookup::Number(number) => Ok(number),
    }
}

/// Cuts a `u64` down to its lower 32 bits.
fn to_low_bits(number: u64) -> (low: u32)
    ensures
        low == low_bits(number),
{
    (number % 0x1_0000_0000) as u32
}

/// Looks an option up in a JSON value.
fn look_up(json: &Json, field: ConfigField) -> (lookup: Lookup)
    ensures
        lookup == Lookup::of(json_value(*json), field.name_text()),
{
    match find(json, field.name()) {
        None => Lookup::Missing,
        Some(found) => match as_u64(found) {
            None => Lookup::WrongType,
            Some(number) => Lookup::Number(number),
        },
    }
}

impl Config {
    /// What a dictionary, or something else, with these findings gives: a
    /// configuration if it is a dictionary and every option is an unsigned
    /// number; if not, the first thing that is wrong.
    pub open spec fn of_lookups(is_dictionary: bool, lookups: Lookups) -> Result<
        Config,
        ConfigError,
    > {
        if !is_dictionary {
            Err(ConfigError::NotDictionary)
        } else {
            match lookups.first_fault() {
                Some(error) => Err(error),
                None => Ok(lookups.config()),
            }
        }
    }

    /// What a JSON value gives.
    pub open spec fn of_value(value: JsonValue) -> Result<Config, ConfigError> {
        Config::of_lookups(value is Object, Lookups::of(value))
    }

    /// Whether loading a text may end in `result`.  A text beyond the
    /// parser's limits is refused.  One that is no JSON is refused with the
    /// parser's account, of which nothing is said.  Any other gives what
    /// its value gives.
    pub open spec fn loads_text(text: Seq<char>, result: Result<Config, ConfigError>) -> bool {
        if !within_limits(text) {
            result == Err::<Config, ConfigError>(ConfigError::Unsupported)
        } else {
            match parsed(text) {
                None => result matches Err(ConfigError::Decode { .. }),
                Some(value) => result == Config::of_value(value),
            }
        }
    }

    /// Load the configuration from what was found under each option's
    /// name, and whether it was found in a dictionary at all.
    pub fn from_lookups(is_dictionary: bool, lookups: &Lookups) -> (result: Result<
        Config,
        ConfigError,
    >)
        ensures
            result == Config::of_lookups(is_dictionary, *lookups),
    {
        if !is_dictionary {
            return Err(ConfigError::NotDictionary);
        }
        let computer_width = match read(lookups.computer_width, ConfigField::ComputerWidth) {
            Ok(number) => to_low_bits(number),
            Err(error) => {
                return Err(error);
            },
        };
        let computer_height = match read(lookups.computer_height, ConfigField::ComputerHeight) {
            Ok(number) => to_low_bits(number),
            Err(error) => {
                return Err(error);
            },
        };
        let pocket_width = match read(lookups.pocket_width, ConfigField::PocketWidth) {
            Ok(number) => to_low_bits(number),
            Err(error) => {
                return Err(error);
            },
        };
        let pocket_height = match read(lookups.pocket_height, ConfigField::PocketHeight) {
            Ok(number) => to_low_bits(number),
            Err(error) => {
                return Err(error);
            },
        };
        let space_limit = match read(lookups.space_limit, ConfigField::SpaceLimit) {
            Ok(number) => number,
            Err(error) => {
                return Err(error);
            },
        };
        let border_width = match read(lookups.border_width, ConfigField::BorderWidth) {
            Ok(number) => to_low_bits(number),
            Err(error) => {
                return Err(error);
            },
        };
        let border_height = match read(lookups.border_height, ConfigField::BorderHeight) {
            Ok(number) => to_low_bits(number),
            Err(error) => {
                return Err(error);
            },
        };
        Ok(
            Config {
                computer_width,
                computer_height,
                pocket_width,
                pocket_height,
                space_limit,
                border_width,
                border_height,
            },
        )
    }

    /// Load the configuration from a JSON object.
    pub fn from_json(json: &Json) -> (result: Result<Config, ConfigError>)
        ensures
            result == Config::of_value(json_value(*json)),
    {
        let lookups = Lookups {
            computer_width: look_up(json, ConfigField::ComputerWidth),
            computer_height: look_up(json, ConfigField::ComputerHeight),
            pocket_width: look_up(json, ConfigField::PocketWidth),
            pocket_height: look_up(json, ConfigField::PocketHeight),
            space_limit: look_up(json, ConfigField::SpaceLimit),
            border_width: look_up(json, ConfigField::BorderWidth),
            border_height: look_up(json, ConfigField::BorderHeight),
        };
        Config::from_lookups(is_object(json), &lookups)
    }

    /// Whether loading a file's bytes may end in `result`: bytes that are
    /// no UTF-8 are refused, and any others give what their text gives.
    pub open spec fn loads_bytes(bytes: Seq<u8>, result: Result<Config, ConfigError>) -> bool {
        if valid_utf8(bytes) {
            Config::loads_text(decode_utf8(bytes), result)
        } else {
            result == Err::<Config, ConfigError>(ConfigError::NotUtf8)
        }
    }

    /// Load the configuration from the bytes of a file.
    pub fn from_bytes(bytes: &[u8]) -> (result: Result<Config, ConfigError>)
        ensures
            Config::loads_bytes(bytes@, result),
    {
        match text_of(bytes) {
            Some(text) => Config::from_text(text),
            None => Err(ConfigError::NotUtf8),
        }
    }

    /// Load the configuration from the text of a file.
    pub fn from_text(text: &str) -> (result: Result<Config, ConfigError>)
        ensures
            Config::loads_text(text@, result),
    {
        if !check_limits(text) {
            return Err(ConfigError::Unsupported);
        }
        match parse(text) {
            Ok(json) => Config::from_json(&json),
            Err(error) => Err(ConfigError::Decode { detail: describe(&error) }),
        }
    }
}

} // verus!
