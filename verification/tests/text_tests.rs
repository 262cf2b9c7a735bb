use trae_manager::numbers::{hex_lower, parse_i64, u64_decimal, uuid_simple};
use trae_manager::text::{
    first_word_of, split_on, str_contains, strip_prefix, trim, trim_end_matches_char, trim_matches_char,
    utf8_prefix,
};

#[test]
fn split_matches_std() {
    for (s, c) in [("a.b.c", '.'), ("", '.'), (".", '.'), ("abc", ','), ("a,,b,", ',')] {
        let expected: Vec<String> = s.split(c).map(|x| x.to_string()).collect();
        assert_eq!(split_on(s, c), expected);
    }
}

#[test]
fn trim_matches_std() {
    for s in ["  x  ", "\t\n", "", "a b", "\u{3000}中\u{a0}"] {
        assert_eq!(trim(s), s.trim());
    }
}

#[test]
fn contains_matches_std() {
    assert!(str_contains("hello", "ell"));
    assert!(str_contains("hello", ""));
    assert!(!str_contains("hello", "xyz"));
    assert!(!str_contains("he", "hello"));
    assert!(str_contains("账号已存在", "已存在"));
}

#[test]
fn char_trims() {
    assert_eq!(trim_end_matches_char("C:\\dir\\\\", '\\'), "C:\\dir");
    assert_eq!(trim_matches_char("\"quoted\"", '"'), "quoted");
    assert_eq!(trim_matches_char("\"\"", '"'), "");
}

#[test]
fn first_word_matches_std() {
    for s in ["  one two", "", "   ", "x", "a\tb"] {
        assert_eq!(first_word_of(s), s.split_whitespace().next().unwrap_or(""));
    }
}

#[test]
fn prefix_helpers() {
    assert_eq!(strip_prefix("TRAE SOLO CN_2", "TRAE SOLO CN_"), Some("2".to_string()));
    assert_eq!(strip_prefix("x", "TRAE"), None);
    assert_eq!(utf8_prefix("abcdefghij", 8), "abcdefgh");
    assert_eq!(utf8_prefix("abc", 8), "abc");
    assert_eq!(trae_manager::text::concat("a", "b"), "ab");
}

#[test]
fn numbers_render() {
    assert_eq!(u64_decimal(0), "0");
    assert_eq!(u64_decimal(18446744073709551615), "18446744073709551615");
    assert_eq!(hex_lower(0), "0");
    assert_eq!(hex_lower(255), "ff");
    assert_eq!(hex_lower(u128::MAX), format!("{:x}", u128::MAX));
    assert_eq!(uuid_simple(1700000000, 15), format!("{:x}{:x}", 1700000000u64, 15u32));
}

#[test]
fn parse_i64_cases() {
    assert_eq!(parse_i64("123"), Some(123));
    assert_eq!(parse_i64("-42"), Some(-42));
    assert_eq!(parse_i64("+7"), "+7".parse::<i64>().ok());
    assert_eq!(parse_i64(""), None);
    assert_eq!(parse_i64("12a"), None);
    assert_eq!(parse_i64("9223372036854775807"), Some(i64::MAX));
    assert_eq!(parse_i64("9223372036854775808"), None);
    assert_eq!(parse_i64("-9223372036854775808"), Some(i64::MIN));
}
