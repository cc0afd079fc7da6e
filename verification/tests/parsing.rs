use key_binder::params::is_integer;
use key_binder::params::is_string;
use key_binder::parse::parse_u32;
use key_binder::parse::tokenize;

#[test]
fn tokenizes_command_into_argv() {
    assert_eq!(tokenize("sleep 5"), vec!["sleep", "5"]);
    assert_eq!(tokenize("  xdotool  key \t F3 \n"), vec!["xdotool", "key", "F3"]);
    assert_eq!(tokenize("sleep"), vec!["sleep"]);
}

#[test]
fn tokenize_of_blank_input_is_empty() {
    assert_eq!(tokenize(""), Vec::<String>::new());
    assert_eq!(tokenize(" \t\n"), Vec::<String>::new());
}

#[test]
fn parses_plain_decimal() {
    assert_eq!(parse_u32("61"), Some(61));
    assert_eq!(parse_u32("0"), Some(0));
}

#[test]
fn parses_leading_plus() {
    assert_eq!(parse_u32("+61"), Some(61));
}

#[test]
fn parses_leading_zeros() {
    assert_eq!(parse_u32("0061"), Some(61));
}

#[test]
fn parses_u32_max() {
    assert_eq!(parse_u32("4294967295"), Some(u32::MAX));
}

#[test]
fn rejects_overflow() {
    assert_eq!(parse_u32("4294967296"), None);
    assert_eq!(parse_u32("99999999999999999999"), None);
}

#[test]
fn rejects_empty_and_sign_only() {
    assert_eq!(parse_u32(""), None);
    assert_eq!(parse_u32("+"), None);
}

#[test]
fn rejects_non_digits() {
    assert_eq!(parse_u32("12a"), None);
    assert_eq!(parse_u32("-1"), None);
    assert_eq!(parse_u32(" 61"), None);
    assert_eq!(parse_u32("6 1"), None);
}

#[test]
fn validator_accepts_integer() {
    assert!(is_integer("61").is_ok());
}

#[test]
fn validator_rejects_non_integer() {
    assert_eq!(
        is_integer("abc"),
        Err(String::from("An unsigned integer is required."))
    );
}

#[test]
fn validator_accepts_command() {
    assert!(is_string("sleep 5").is_ok());
}

#[test]
fn validator_rejects_empty_command() {
    assert_eq!(is_string(""), Err(String::from("A command is required.")));
}
