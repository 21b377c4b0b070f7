use steam_lookup::format::{decimal, parse_unsigned, unsigned_decimal};
use steam_lookup::text::{contains_infix, name_matches};

#[test]
fn infix_search() {
    assert!(contains_infix("half-life 2", "life"));
    assert!(contains_infix("abc", ""));
    assert!(contains_infix("abc", "abc"));
    assert!(!contains_infix("abc", "abcd"));
    assert!(!contains_infix("Half-Life", "half"));
    assert!(!contains_infix("", "a"));
}

#[test]
fn name_match_ignores_case() {
    assert!(name_matches("Half-Life", "HALF"));
    assert!(name_matches("PORTAL 2", "portal"));
    assert!(!name_matches("Portal", "life"));
}

#[test]
fn decimal_text() {
    assert_eq!(decimal(0), "0");
    assert_eq!(decimal(70), "70");
    assert_eq!(decimal(-5), "-5");
    assert_eq!(decimal(i64::MIN), "-9223372036854775808");
    assert_eq!(decimal(i64::MAX), "9223372036854775807");
    assert_eq!(unsigned_decimal(u64::MAX), "18446744073709551615");
}

#[test]
fn parse_unsigned_numbers() {
    assert_eq!(parse_unsigned("42"), Some(42));
    assert_eq!(parse_unsigned("+7"), Some(7));
    assert_eq!(parse_unsigned("007"), Some(7));
    assert_eq!(parse_unsigned(""), None);
    assert_eq!(parse_unsigned("+"), None);
    assert_eq!(parse_unsigned("-1"), None);
    assert_eq!(parse_unsigned("1a"), None);
    assert_eq!(parse_unsigned(&usize::MAX.to_string()), Some(usize::MAX));
    assert_eq!(parse_unsigned("99999999999999999999999"), None);
}
