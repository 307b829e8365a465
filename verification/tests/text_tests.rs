//! Tests for the text utilities: tokenizing, case folding, search, decimal
//! rendering and parsing, and trimming.

use omenix::text::{
    celsius_to_string, char_to_lower, parse_i32, split_tokens, str_contains, str_eq,
    str_eq_lower, str_starts_with, trim_spaces, u64_to_string,
};

#[test]
fn tokenizer_splits_on_ascii_whitespace() {
    assert_eq!(split_tokens("set max"), vec!["set", "max"]);
    assert_eq!(split_tokens("  set \t max \r\n"), vec!["set", "max"]);
    assert_eq!(split_tokens("one"), vec!["one"]);
    assert_eq!(split_tokens(""), Vec::<String>::new());
    assert_eq!(split_tokens(" \t\n "), Vec::<String>::new());
    assert_eq!(split_tokens("a b c"), vec!["a", "b", "c"]);
}

#[test]
fn case_folding_is_ascii_only() {
    assert_eq!(char_to_lower('A'), 'a');
    assert_eq!(char_to_lower('Z'), 'z');
    assert_eq!(char_to_lower('m'), 'm');
    assert_eq!(char_to_lower('0'), '0');
    assert_eq!(char_to_lower('\u{c9}'), '\u{c9}');
    assert!(str_eq_lower("MaX", "max"));
    assert!(str_eq_lower("max", "max"));
    assert!(!str_eq_lower("maxx", "max"));
    assert!(!str_eq_lower("mbx", "max"));
}

#[test]
fn string_comparison_and_search() {
    assert!(str_eq("abc", "abc"));
    assert!(!str_eq("abc", "abd"));
    assert!(!str_eq("abc", "ab"));
    assert!(str_starts_with("OK: fine", "OK:"));
    assert!(!str_starts_with("OK", "OK:"));
    assert!(str_contains("Mode: Max, Temp: 45", "Mode: Max"));
    assert!(str_contains("abc", ""));
    assert!(!str_contains("Mode: Auto", "Mode: Max"));
    assert!(str_contains("aaab", "aab"));
}

#[test]
fn decimal_rendering() {
    assert_eq!(u64_to_string(0), "0");
    assert_eq!(u64_to_string(9), "9");
    assert_eq!(u64_to_string(10), "10");
    assert_eq!(u64_to_string(45_678), "45678");
    assert_eq!(u64_to_string(u64::MAX), "18446744073709551615");
}

#[test]
fn celsius_rendering_truncates_toward_zero() {
    assert_eq!(celsius_to_string(45_000), "45");
    assert_eq!(celsius_to_string(45_999), "45");
    assert_eq!(celsius_to_string(0), "0");
    assert_eq!(celsius_to_string(-500), "0");
    assert_eq!(celsius_to_string(-1_500), "-1");
    assert_eq!(celsius_to_string(i32::MIN), "-2147483");
    assert_eq!(celsius_to_string(i32::MAX), "2147483");
}

#[test]
fn parse_accepts_plain_integers() {
    assert_eq!(parse_i32("45000"), Some(45_000));
    assert_eq!(parse_i32("-5000"), Some(-5_000));
    assert_eq!(parse_i32("+12"), Some(12));
    assert_eq!(parse_i32("0"), Some(0));
    assert_eq!(parse_i32("2147483647"), Some(i32::MAX));
    assert_eq!(parse_i32("-2147483648"), Some(i32::MIN));
    assert_eq!(parse_i32("007"), Some(7));
}

#[test]
fn parse_rejects_out_of_range_and_garbage() {
    assert_eq!(parse_i32("2147483648"), None);
    assert_eq!(parse_i32("-2147483649"), None);
    assert_eq!(parse_i32("99999999999999999999"), None);
    assert_eq!(parse_i32(""), None);
    assert_eq!(parse_i32("+"), None);
    assert_eq!(parse_i32("-"), None);
    assert_eq!(parse_i32("12a"), None);
    assert_eq!(parse_i32("a12"), None);
    assert_eq!(parse_i32("1 2"), None);
    assert_eq!(parse_i32(" 12"), None);
    assert_eq!(parse_i32("--5"), None);
}

#[test]
fn trimming_removes_ascii_whitespace() {
    assert_eq!(trim_spaces(" 45000\n"), "45000");
    assert_eq!(trim_spaces("\t\r ok \n"), "ok");
    assert_eq!(trim_spaces("plain"), "plain");
    assert_eq!(trim_spaces("   "), "");
    assert_eq!(trim_spaces(""), "");
    assert_eq!(trim_spaces("a b"), "a b");
}
