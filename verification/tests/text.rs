use rmup::text::{char_is_whitespace, decimal, find_char, parse_number, starts_with};

#[test]
fn numbers_are_written_in_decimal() {
    assert_eq!(decimal(0), "0");
    assert_eq!(decimal(7), "7");
    assert_eq!(decimal(10), "10");
    assert_eq!(decimal(1234567890), "1234567890");
    assert_eq!(decimal(u64::MAX), "18446744073709551615");
}

#[test]
fn numbers_are_read_from_decimal() {
    assert_eq!(parse_number("0", u64::MAX), Some(0));
    assert_eq!(parse_number("007", u64::MAX), Some(7));
    assert_eq!(parse_number("+42", u64::MAX), Some(42));
    assert_eq!(parse_number("18446744073709551615", u64::MAX), Some(u64::MAX));
    assert_eq!(parse_number("18446744073709551616", u64::MAX), None);
    assert_eq!(parse_number("4294967295", 4294967295), Some(4294967295));
    assert_eq!(parse_number("4294967296", 4294967295), None);
    assert_eq!(parse_number("99999999999999999999999", u64::MAX), None);
    assert_eq!(parse_number("", u64::MAX), None);
    assert_eq!(parse_number("+", u64::MAX), None);
    assert_eq!(parse_number("-1", u64::MAX), None);
    assert_eq!(parse_number("++1", u64::MAX), None);
    assert_eq!(parse_number("1 ", u64::MAX), None);
    assert_eq!(parse_number("12a", u64::MAX), None);
    assert_eq!(parse_number("\u{663}", u64::MAX), None);
    assert_eq!(parse_number("5", 4), None);
    assert_eq!(parse_number("0", 0), Some(0));
}

#[test]
fn reading_agrees_with_std() {
    for text in ["0", "+0", "00", "1", "+", "", "-0", "18446744073709551615", "18446744073709551616", "1_0", " 1"] {
        assert_eq!(parse_number(text, u64::MAX), text.parse::<u64>().ok());
        assert_eq!(parse_number(text, u32::MAX as u64), text.parse::<u32>().ok().map(u64::from));
    }
}

#[test]
fn white_space_is_unicode_white_space() {
    for code in 0..=0x3100u32 {
        if let Some(c) = char::from_u32(code) {
            assert_eq!(char_is_whitespace(c), c.is_whitespace());
        }
    }
}

#[test]
fn characters_are_found() {
    assert_eq!(find_char("a=b=c", '=', 0), 1);
    assert_eq!(find_char("a=b=c", '=', 2), 3);
    assert_eq!(find_char("a=b=c", '=', 4), 5);
    assert_eq!(find_char("", '=', 0), 0);
    assert_eq!(find_char("\u{e9}t\u{e9}=1", '=', 0), 3);
    assert_eq!(find_char("abc", 'a', 7), 7);
}

#[test]
fn prefixes_are_recognised() {
    assert!(starts_with("#EXTM3U", "#"));
    assert!(starts_with("#EXTM3U", "#EXTM3U"));
    assert!(starts_with("abc", ""));
    assert!(!starts_with("#EXT", "#EXTM3U"));
    assert!(!starts_with("abc", "abd"));
    assert!(!starts_with("", "a"));
}
