use toast_form::text::{parse_decimal_u32, same_text};

#[test]
fn parses_plain_numerals() {
    assert_eq!(parse_decimal_u32("2500"), Some(2500));
    assert_eq!(parse_decimal_u32("0"), Some(0));
    assert_eq!(parse_decimal_u32("007"), Some(7));
    assert_eq!(parse_decimal_u32("+15"), Some(15));
}

#[test]
fn parses_largest_u32() {
    assert_eq!(parse_decimal_u32("4294967295"), Some(u32::MAX));
}

#[test]
fn rejects_overflow() {
    assert_eq!(parse_decimal_u32("4294967296"), None);
    assert_eq!(parse_decimal_u32("99999999999999999999"), None);
}

#[test]
fn rejects_non_numerals() {
    assert_eq!(parse_decimal_u32(""), None);
    assert_eq!(parse_decimal_u32("+"), None);
    assert_eq!(parse_decimal_u32("-1"), None);
    assert_eq!(parse_decimal_u32("abc"), None);
    assert_eq!(parse_decimal_u32("12a"), None);
    assert_eq!(parse_decimal_u32(" 5"), None);
    assert_eq!(parse_decimal_u32("1.5"), None);
    assert_eq!(parse_decimal_u32("++1"), None);
}

#[test]
fn agrees_with_std_parse() {
    for s in ["1", "+1", "-0", "", "x", "4294967295", "4294967296", "0001", "1_000", "٣"] {
        assert_eq!(parse_decimal_u32(s), s.parse::<u32>().ok(), "{s}");
    }
}

#[test]
fn same_text_compares_characters() {
    assert!(same_text("info", "info"));
    assert!(same_text("", ""));
    assert!(!same_text("info", "inf"));
    assert!(!same_text("info", "Info"));
    assert!(same_text("héllo", "héllo"));
}
