use std::collections::BTreeMap;

use mimic::config::{Config, ConfigError, ConfigField, Lookup, Lookups, DEFAULT};
use mimic::json::{check_limits, MAX_NESTING, MAX_TEXT_LENGTH};
use rustc_serialize::json::Json;

fn default_config() -> Config {
    Config {
        computer_width: 51,
        computer_height: 19,
        pocket_width: 26,
        pocket_height: 20,
        space_limit: 2097152,
        border_width: 2,
        border_height: 2,
    }
}

const FIELDS: [(ConfigField, &str); 7] = [
    (ConfigField::ComputerWidth, "computer width"),
    (ConfigField::ComputerHeight, "computer height"),
    (ConfigField::PocketWidth, "pocket width"),
    (ConfigField::PocketHeight, "pocket height"),
    (ConfigField::SpaceLimit, "space limit"),
    (ConfigField::BorderWidth, "border width"),
    (ConfigField::BorderHeight, "border height"),
];

fn object_without(missing: &str) -> String {
    let members: Vec<String> = FIELDS
        .iter()
        .filter(|(_, name)| *name != missing)
        .enumerate()
        .map(|(i, (_, name))| format!("\"{}\": {}", name, i + 1))
        .collect();
    format!("{{{}}}", members.join(", "))
}

fn object_with(changed: &str, value: &str) -> String {
    let members: Vec<String> = FIELDS
        .iter()
        .enumerate()
        .map(|(i, (_, name))| {
            if *name == changed {
                format!("\"{}\": {}", name, value)
            } else {
                format!("\"{}\": {}", name, i + 1)
            }
        })
        .collect();
    format!("{{{}}}", members.join(", "))
}

#[test]
fn default_text_loads() {
    assert_eq!(Config::from_text(DEFAULT), Ok(default_config()));
    assert_eq!(Config::from_bytes(DEFAULT.as_bytes()), Ok(default_config()));
}

#[test]
fn options_are_read_by_name() {
    let text = object_without("");
    assert_eq!(
        Config::from_text(&text),
        Ok(Config {
            computer_width: 1,
            computer_height: 2,
            pocket_width: 3,
            pocket_height: 4,
            space_limit: 5,
            border_width: 6,
            border_height: 7,
        })
    );
}

#[test]
fn other_members_are_ignored() {
    let text = object_with("border height", "7, \"extra\": [1, {\"a\": null}], \"more\": \"text\"");
    assert_eq!(Config::from_text(&text).unwrap().border_height, 7);
}

#[test]
fn each_missing_option_is_named() {
    for (field, name) in FIELDS {
        assert_eq!(
            Config::from_text(&object_without(name)),
            Err(ConfigError::Missing { field }),
            "{}",
            name
        );
    }
}

#[test]
fn each_option_of_wrong_type_is_named() {
    for value in ["\"51\"", "-1", "1.5", "true", "null", "[1]", "{}"] {
        for (field, name) in FIELDS {
            assert_eq!(
                Config::from_text(&object_with(name, value)),
                Err(ConfigError::WrongType { field }),
                "{} {}",
                name,
                value
            );
        }
    }
}

#[test]
fn the_first_fault_is_reported() {
    let text = "{\"computer width\": 1, \"pocket width\": \"3\", \"pocket height\": 4}";
    assert_eq!(
        Config::from_text(text),
        Err(ConfigError::Missing { field: ConfigField::ComputerHeight })
    );
    let text = "{\"computer width\": 1, \"computer height\": null}";
    assert_eq!(
        Config::from_text(text),
        Err(ConfigError::WrongType { field: ConfigField::ComputerHeight })
    );
}

#[test]
fn a_root_that_is_no_object_is_refused() {
    for text in ["[]", "1", "\"text\"", "null", "true", "[{\"computer width\": 1}]"] {
        assert_eq!(Config::from_text(text), Err(ConfigError::NotDictionary), "{}", text);
    }
}

#[test]
fn text_that_is_no_json_is_refused() {
    for text in ["", "{", "{\"computer width\": }", "{} x", "{'a': 1}", "{\"a\": 01}"] {
        match Config::from_text(text) {
            Err(ConfigError::Decode { detail }) => assert!(!detail.is_empty(), "{}", text),
            other => panic!("{:?} for {:?}", other, text),
        }
    }
}

#[test]
fn decode_detail_is_the_parsers_account() {
    let expected = format!("{:?}", Json::from_str("{").unwrap_err());
    assert_eq!(Config::from_text("{"), Err(ConfigError::Decode { detail: expected }));
}

#[test]
fn numbers_are_cut_down_to_32_bits() {
    let text = object_with("computer width", "4294967347");
    assert_eq!(Config::from_text(&text).unwrap().computer_width, 51);
    let text = object_with("border height", "18446744073709551615");
    assert_eq!(Config::from_text(&text).unwrap().border_height, u32::MAX);
    let text = object_with("pocket width", "4294967296");
    assert_eq!(Config::from_text(&text).unwrap().pocket_width, 0);
}

#[test]
fn space_limit_is_taken_whole() {
    let text = object_with("space limit", "18446744073709551615");
    assert_eq!(Config::from_text(&text).unwrap().space_limit, u64::MAX);
    let text = object_with("space limit", "0");
    assert_eq!(Config::from_text(&text).unwrap().space_limit, 0);
}

#[test]
fn text_beyond_the_limits_is_refused() {
    let mut long = object_without("");
    while long.chars().count() <= MAX_TEXT_LENGTH {
        long.push(' ');
    }
    assert_eq!(Config::from_text(&long), Err(ConfigError::Unsupported));
    long.pop();
    assert_eq!(long.chars().count(), MAX_TEXT_LENGTH);
    assert!(Config::from_text(&long).is_ok());

    assert_eq!(Config::from_text("1e99999999999999999999999999"), Err(ConfigError::Unsupported));
}

#[test]
fn an_exponent_of_up_to_nine_digits_is_parsed() {
    for value in ["1e3", "1.5E3", "0e0", "2E+5", "7e-999999999", "1.25e+000000001"] {
        let text = object_with("space limit", value);
        assert_eq!(
            Config::from_text(&text),
            Err(ConfigError::WrongType { field: ConfigField::SpaceLimit }),
            "{}",
            value
        );
        let text = object_with("border height", &format!("7, \"more\": {}", value));
        assert_eq!(Config::from_text(&text).unwrap().border_height, 7, "{}", value);
    }
    assert!(check_limits("1e999999999"));
    assert!(check_limits("[1e123456789, 2E-123456789, 3.0e+123456789]"));
}

#[test]
fn an_exponent_of_ten_digits_is_refused() {
    for value in ["1e1000000000", "1.5E0000000000", "2e+1234567890", "2e-1234567890", "0e+-+1234567890"] {
        let text = object_with("border height", &format!("7, \"more\": {}", value));
        assert_eq!(Config::from_text(&text), Err(ConfigError::Unsupported), "{}", value);
    }
    assert!(check_limits("1e12345e67890"));
    assert!(!check_limits("1e12345-67890"));
    assert!(check_limits("1e12345 67890"));
    assert!(check_limits("e1234567890"));
    assert!(check_limits("1 e1234567890"));
    assert!(check_limits("12345678901234567890"));
}

#[test]
fn a_comma_before_a_closing_brace_is_refused() {
    for text in [
        "[{\"a\":{\"b\":1,},\"c\":2}]",
        "{\"a\":{\"b\":1,},\"c\":2}",
        "{\"a\":1,}",
        "{\"a\":1, \t\r\n}",
        "[{\"a\":[1],}]",
        "{\"a\":\"x\",}",
    ] {
        assert_eq!(Config::from_text(text), Err(ConfigError::Unsupported), "{}", text);
        assert!(!check_limits(text));
    }
    let text = object_with("border height", "7,");
    assert_eq!(Config::from_text(&text), Err(ConfigError::Unsupported));
}

#[test]
fn strings_are_not_looked_into() {
    let text =
        object_with("border height", "7, \"note\": \"3e1234567890, ,} [[{{ \\\" 2E+1234567890 ,}\"");
    assert_eq!(Config::from_text(&text).unwrap().border_height, 7);
    let text = object_with("border height", "7, \"3e\\\\\": \",}\"");
    assert_eq!(Config::from_text(&text).unwrap().border_height, 7);
    assert!(check_limits("\"1e1234567890\""));
    assert!(check_limits("\"\\\"1e1234567890\""));
    assert!(!check_limits("\"\\\\\"1e1234567890"));
    assert!(!check_limits("\"a\" 1e1234567890"));
    assert!(check_limits(&"\"[\"".repeat(MAX_NESTING + 1)));
}

#[test]
fn limits_are_counted_in_characters() {
    assert!(check_limits(""));
    assert!(check_limits("computer height"));
    assert!(check_limits("e1 E1 1 e"));
    assert!(check_limits(&"é".repeat(MAX_TEXT_LENGTH)));
    assert!(!check_limits(&"é".repeat(MAX_TEXT_LENGTH + 1)));
}

#[test]
fn deep_nesting_within_the_limits_is_parsed() {
    let open = "[".repeat(MAX_NESTING);
    assert!(matches!(Config::from_text(&open), Err(ConfigError::Decode { .. })));
    let nested = format!("{}{}", "[".repeat(MAX_NESTING), "]".repeat(MAX_NESTING));
    assert_eq!(Config::from_text(&nested), Err(ConfigError::NotDictionary));
    let objects = format!("{}1{}", "{\"k\":".repeat(MAX_NESTING), "}".repeat(MAX_NESTING));
    assert_eq!(
        Config::from_text(&objects),
        Err(ConfigError::Missing { field: ConfigField::ComputerWidth })
    );
}

#[test]
fn deeper_nesting_is_refused() {
    let nested = format!("{}{}", "[".repeat(MAX_NESTING + 1), "]".repeat(MAX_NESTING + 1));
    assert_eq!(Config::from_text(&nested), Err(ConfigError::Unsupported));
    let mixed = format!("{}{}", "[".repeat(MAX_NESTING), "{");
    assert!(!check_limits(&mixed));
    assert!(check_limits(&"]}".repeat(MAX_NESTING + 1)));
}

#[test]
fn many_arrays_side_by_side_are_parsed() {
    let wide = format!("[{}[]]", "[],".repeat(4 * MAX_NESTING));
    assert_eq!(Config::from_text(&wide), Err(ConfigError::NotDictionary));
    let text = object_with("border height", &format!("7, \"more\": {}", wide));
    assert_eq!(Config::from_text(&text).unwrap().border_height, 7);
}

#[test]
fn bytes_that_are_no_utf8_are_refused() {
    assert_eq!(Config::from_bytes(&[0xff, 0xfe]), Err(ConfigError::NotUtf8));
    assert_eq!(Config::from_bytes(&[b'{', 0xc3]), Err(ConfigError::NotUtf8));
    assert_eq!(Config::from_bytes(&[0xed, 0xa0, 0x80]), Err(ConfigError::NotUtf8));
    assert_eq!(Config::from_bytes(b"[]"), Err(ConfigError::NotDictionary));
    let text = object_with("border height", "7, \"é\": \"√\"");
    assert_eq!(Config::from_bytes(text.as_bytes()).unwrap().border_height, 7);
}

#[test]
fn json_value_loads() {
    let mut members = BTreeMap::new();
    for (i, (_, name)) in FIELDS.iter().enumerate() {
        members.insert(name.to_string(), Json::U64(i as u64 + 10));
    }
    members.insert("computer height".to_string(), Json::I64(19));
    let config = Config::from_json(&Json::Object(members.clone())).unwrap();
    assert_eq!(config.computer_width, 10);
    assert_eq!(config.computer_height, 19);
    assert_eq!(config.border_height, 16);

    members.insert("space limit".to_string(), Json::I64(-1));
    assert_eq!(
        Config::from_json(&Json::Object(members.clone())),
        Err(ConfigError::WrongType { field: ConfigField::SpaceLimit })
    );
    members.insert("space limit".to_string(), Json::F64(1.0));
    assert_eq!(
        Config::from_json(&Json::Object(members.clone())),
        Err(ConfigError::WrongType { field: ConfigField::SpaceLimit })
    );
    members.remove("space limit");
    assert_eq!(
        Config::from_json(&Json::Object(members)),
        Err(ConfigError::Missing { field: ConfigField::SpaceLimit })
    );
    assert_eq!(Config::from_json(&Json::Array(vec![])), Err(ConfigError::NotDictionary));
    assert_eq!(Config::from_json(&Json::Null), Err(ConfigError::NotDictionary));
}

fn all(lookup: Lookup) -> Lookups {
    Lookups {
        computer_width: lookup,
        computer_height: lookup,
        pocket_width: lookup,
        pocket_height: lookup,
        space_limit: lookup,
        border_width: lookup,
        border_height: lookup,
    }
}

#[test]
fn lookups_make_a_configuration() {
    let lookups = Lookups {
        computer_width: Lookup::Number(51),
        computer_height: Lookup::Number(19),
        pocket_width: Lookup::Number(26),
        pocket_height: Lookup::Number(20),
        space_limit: Lookup::Number(2097152),
        border_width: Lookup::Number(2),
        border_height: Lookup::Number(2),
    };
    assert_eq!(Config::from_lookups(true, &lookups), Ok(default_config()));
    assert_eq!(Config::from_lookups(false, &lookups), Err(ConfigError::NotDictionary));
}

#[test]
fn lookups_report_the_first_fault() {
    assert_eq!(
        Config::from_lookups(true, &all(Lookup::Missing)),
        Err(ConfigError::Missing { field: ConfigField::ComputerWidth })
    );
    assert_eq!(
        Config::from_lookups(true, &all(Lookup::WrongType)),
        Err(ConfigError::WrongType { field: ConfigField::ComputerWidth })
    );
    assert_eq!(
        Config::from_lookups(false, &all(Lookup::Missing)),
        Err(ConfigError::NotDictionary)
    );
    let lookups = Lookups {
        border_width: Lookup::WrongType,
        border_height: Lookup::Missing,
        ..all(Lookup::Number(1))
    };
    assert_eq!(
        Config::from_lookups(true, &lookups),
        Err(ConfigError::WrongType { field: ConfigField::BorderWidth })
    );
    let lookups = Lookups { border_height: Lookup::Missing, ..all(Lookup::Number(1)) };
    assert_eq!(
        Config::from_lookups(true, &lookups),
        Err(ConfigError::Missing { field: ConfigField::BorderHeight })
    );
}

#[test]
fn field_names() {
    for (field, name) in FIELDS {
        assert_eq!(field.name(), name);
    }
}

#[test]
fn errors_in_words() {
    assert_eq!(ConfigError::NotUtf8.message(), "Configuration file not valid UTF-8.");
    assert_eq!(
        ConfigError::Unsupported.message(),
        "Configuration file is beyond the limits of the parser."
    );
    assert_eq!(
        ConfigError::Decode { detail: "SyntaxError(x, 1, 2)".to_string() }.message(),
        "Failed to decode JSON file: SyntaxError(x, 1, 2)"
    );
    assert_eq!(ConfigError::NotDictionary.message(), "Root JSON object is not a dictionary.");
    assert_eq!(
        ConfigError::Missing { field: ConfigField::SpaceLimit }.message(),
        "Configuration option `space limit` doesn't exist."
    );
    assert_eq!(
        ConfigError::WrongType { field: ConfigField::PocketHeight }.message(),
        "Option `pocket height` is of an incorrect type."
    );
}

struct Random(u64);

impl Random {
    fn next(&mut self, bound: u64) -> u64 {
        self.0 ^= self.0 << 13;
        self.0 ^= self.0 >> 7;
        self.0 ^= self.0 << 17;
        self.0 % bound
    }
}

const EXTRA: [&str; 22] = [
    "{", "}", "[", "]", ",", ":", "\"a\"", "1", "true", " ", "\n", "\"b,}\"", "-2.5", "null",
    "e", "E", "+", "-", "1234567890", "12345", "\"", "\\",
];

fn random_value(random: &mut Random, depth: u64, tokens: &mut Vec<&'static str>) {
    match random.next(if depth == 0 { 4 } else { 12 }) {
        0 => tokens.push("1"),
        1 => tokens.push("\"a\""),
        2 => tokens.push("null"),
        3 => tokens.push("-2.5"),
        4..=7 => {
            tokens.push("[");
            for i in 0..random.next(4) {
                if i > 0 {
                    tokens.push(",");
                }
                random_value(random, depth - 1, tokens);
            }
            tokens.push("]");
        }
        _ => {
            tokens.push("{");
            for i in 0..random.next(4) {
                if i > 0 {
                    tokens.push(",");
                }
                tokens.push("\"k\"");
                tokens.push(":");
                random_value(random, depth - 1, tokens);
            }
            tokens.push("}");
        }
    }
}

fn random_text(random: &mut Random) -> String {
    let mut tokens = Vec::new();
    random_value(random, 4, &mut tokens);
    for _ in 0..random.next(3) {
        let at = random.next(tokens.len() as u64 + 1) as usize;
        match random.next(3) {
            0 if at < tokens.len() => {
                tokens.remove(at);
            }
            1 if at < tokens.len() && (tokens[at] == "}" || tokens[at] == "]") => {
                tokens.insert(at, ",");
            }
            _ => tokens.insert(at, EXTRA[random.next(EXTRA.len() as u64) as usize]),
        }
    }
    tokens.concat()
}

#[test]
fn texts_within_the_limits_do_not_stop_the_parser() {
    let mut random = Random(0x2545f4914f6cdd1d);
    let mut loaded = 0;
    let mut refused = 0;
    for _ in 0..200_000 {
        let text = random_text(&mut random);
        match Config::from_text(&text) {
            Err(ConfigError::Unsupported) => {
                assert!(!check_limits(&text));
                refused += 1;
            }
            _ => {
                assert!(check_limits(&text));
                loaded += 1;
            }
        }
    }
    assert!(loaded > 100_000);
    assert!(refused > 1_000);
}
