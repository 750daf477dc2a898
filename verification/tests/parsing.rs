use mdt8::command::Command;
use mdt8::parse::{parse_command, parse_minutes, same_text};

fn std_says(text: &str) -> Option<i32> {
    i32::from_str_radix(text, 10).ok()
}

#[test]
fn plain_numbers() {
    assert_eq!(parse_minutes("5"), Some(5));
    assert_eq!(parse_minutes("0"), Some(0));
    assert_eq!(parse_minutes("007"), Some(7));
    assert_eq!(parse_minutes("1000000"), Some(1_000_000));
}

#[test]
fn signed_numbers() {
    assert_eq!(parse_minutes("-5"), Some(-5));
    assert_eq!(parse_minutes("+5"), Some(5));
    assert_eq!(parse_minutes("-0"), Some(0));
    assert_eq!(parse_minutes("-1000000"), Some(-1_000_000));
}

#[test]
fn limits_of_the_number() {
    assert_eq!(parse_minutes("2147483647"), Some(i32::MAX));
    assert_eq!(parse_minutes("+2147483647"), Some(i32::MAX));
    assert_eq!(parse_minutes("2147483648"), None);
    assert_eq!(parse_minutes("-2147483648"), Some(i32::MIN));
    assert_eq!(parse_minutes("-2147483649"), None);
    assert_eq!(parse_minutes("99999999999999999999999999"), None);
    assert_eq!(parse_minutes("-99999999999999999999999999"), None);
    assert_eq!(parse_minutes("00000000000000000000000012"), Some(12));
}

#[test]
fn what_is_no_number() {
    assert_eq!(parse_minutes(""), None);
    assert_eq!(parse_minutes("-"), None);
    assert_eq!(parse_minutes("+"), None);
    assert_eq!(parse_minutes("--5"), None);
    assert_eq!(parse_minutes("+-5"), None);
    assert_eq!(parse_minutes(" 5"), None);
    assert_eq!(parse_minutes("5 "), None);
    assert_eq!(parse_minutes("5-"), None);
    assert_eq!(parse_minutes("1_0"), None);
    assert_eq!(parse_minutes("1.5"), None);
    assert_eq!(parse_minutes("ten"), None);
    assert_eq!(parse_minutes("\u{0663}"), None);
}

#[test]
fn numbers_read_as_the_standard_library_reads_them() {
    let texts = [
        "", "-", "+", "0", "-0", "+0", "5", "-5", "+5", "007", "2147483647", "2147483648",
        "-2147483648", "-2147483649", "12a", "a12", " 1", "1 ", "--1", "\u{0663}", "4294967296",
        "99999999999999999999",
    ];
    for text in texts {
        assert_eq!(parse_minutes(text), std_says(text), "{:?}", text);
    }
}

#[test]
fn texts_are_compared_by_character() {
    assert!(same_text("", ""));
    assert!(same_text("stop", "stop"));
    assert!(!same_text("stop", "stoq"));
    assert!(!same_text("stop", "sto"));
    assert!(!same_text("sto", "stop"));
    assert!(same_text("caf\u{e9}", "caf\u{e9}"));
    assert!(!same_text("caf\u{e9}", "cafe"));
}

#[test]
fn words_name_commands() {
    assert_eq!(parse_command("status", None), Some(Command::Status));
    assert_eq!(parse_command("start", None), Some(Command::Start));
    assert_eq!(parse_command("stop", None), Some(Command::Stop));
    assert_eq!(parse_command("cancel", None), Some(Command::Cancel));
    assert_eq!(parse_command("start", Some("12")), Some(Command::Start));
    assert_eq!(parse_command("mod", Some("12")), Some(Command::Mod(12)));
    assert_eq!(parse_command("mod", Some("-12")), Some(Command::Mod(-12)));
}

#[test]
fn words_that_name_no_command() {
    assert_eq!(parse_command("", None), None);
    assert_eq!(parse_command("Status", None), None);
    assert_eq!(parse_command("pause", None), None);
    assert_eq!(parse_command("mod", None), None);
    assert_eq!(parse_command("mod", Some("")), None);
    assert_eq!(parse_command("mod", Some("many")), None);
    assert_eq!(parse_command("mod", Some("2147483648")), None);
}
