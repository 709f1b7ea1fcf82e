use mimic::text::{append_decimal, characters};

fn decimal(number: u32) -> String {
    let mut text = String::new();
    append_decimal(&mut text, number);
    text
}

#[test]
fn decimal_of_numbers() {
    assert_eq!(decimal(0), "0");
    assert_eq!(decimal(7), "7");
    assert_eq!(decimal(10), "10");
    assert_eq!(decimal(109), "109");
    assert_eq!(decimal(4294967295), "4294967295");
}

#[test]
fn decimal_is_appended() {
    let mut text = String::from("Computer ");
    append_decimal(&mut text, 42);
    assert_eq!(text, "Computer 42");
}

#[test]
fn characters_of_text() {
    assert_eq!(characters(""), Vec::<char>::new());
    assert_eq!(characters("aé√"), vec!['a', 'é', '√']);
}
