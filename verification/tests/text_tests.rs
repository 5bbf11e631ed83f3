use tako_desktop::text::{
    decimal, join, parse_i32, parse_u32, signed_decimal, split_char, split_once, starts_with, str_eq, trim,
};

#[test]
fn trim_removes_unicode_white_space_at_both_ends() {
    assert_eq!(trim("  12 \n"), "12");
    assert_eq!(trim("\u{3000}a b\u{a0}"), "a b");
    assert_eq!(trim(" \t\r\n "), "");
    assert_eq!(trim(""), "");
    assert_eq!(trim("x"), "x");
}

#[test]
fn split_keeps_empty_pieces() {
    assert_eq!(split_char("1.2.3", '.'), vec!["1", "2", "3"]);
    assert_eq!(split_char("", '.'), vec![""]);
    assert_eq!(split_char(".a.", '.'), vec!["", "a", ""]);
    assert_eq!(split_char("abc", '.'), vec!["abc"]);
    let s = "a\nb\n\nc";
    assert_eq!(split_char(s, '\n'), s.split('\n').collect::<Vec<_>>());
}

#[test]
fn parse_u32_agrees_with_std() {
    for s in ["0", "5", "+5", "007", "4294967295", "4294967296", "", "+", "-1", " 1", "1a", "99999999999999999999", "١"] {
        assert_eq!(parse_u32(s), s.parse::<u32>().ok(), "input {:?}", s);
    }
}

#[test]
fn parse_i32_agrees_with_std() {
    for s in ["0", "-0", "-5", "+5", "2147483647", "2147483648", "-2147483648", "-2147483649", "-", "+", "", "--1", "12 "] {
        assert_eq!(parse_i32(s), s.parse::<i32>().ok(), "input {:?}", s);
    }
}

#[test]
fn decimal_prints_like_display() {
    for n in [0u64, 7, 10, 19837, 4294967295, u64::MAX] {
        assert_eq!(decimal(n), n.to_string());
    }
    for n in [0i32, -1, 42, i32::MIN, i32::MAX] {
        assert_eq!(signed_decimal(n), n.to_string());
    }
}

#[test]
fn comparisons_and_joining() {
    assert!(str_eq("CN", "CN"));
    assert!(!str_eq("CN", "cn"));
    assert!(starts_with("bun-darwin", "bun-"));
    assert!(!starts_with("bun", "bun-"));
    assert_eq!(join(&["a", "", "bc"]), "abc");
}

#[test]
fn split_once_cuts_at_the_first_occurrence() {
    assert_eq!(split_once("1.2.3-beta-2", '-'), ("1.2.3", Some("beta-2")));
    assert_eq!(split_once("1.2.3", '-'), ("1.2.3", None));
    assert_eq!(split_once("-x", '-'), ("", Some("x")));
    assert_eq!(split_once("x-", '-'), ("x", Some("")));
}
