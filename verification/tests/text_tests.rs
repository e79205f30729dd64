use typepaste::text::{
    chars_of, contains_chars, decimal_string, lines_of, lowercase_chars, parse_u64, parse_unsigned_chars,
    split_chars, string_of, trim,
};

fn chars(s: &str) -> Vec<char> {
    s.chars().collect()
}

fn strings(v: Vec<Vec<char>>) -> Vec<String> {
    v.into_iter().map(|p| p.into_iter().collect()).collect()
}

#[test]
fn trim_removes_unicode_white_space_at_both_ends() {
    assert_eq!(trim("  a b \t\n"), "a b");
    assert_eq!(trim("\u{3000}x\u{a0}"), "x");
    assert_eq!(trim(" \r\n "), "");
    assert_eq!(trim("no-space"), "no-space");
}

#[test]
fn parse_u64_follows_str_parse() {
    assert_eq!(parse_u64("42"), Some(42));
    assert_eq!(parse_u64("+7"), Some(7));
    assert_eq!(parse_u64("0"), Some(0));
    assert_eq!(parse_u64("18446744073709551615"), Some(u64::MAX));
    assert_eq!(parse_u64("18446744073709551616"), None);
    assert_eq!(parse_u64(""), None);
    assert_eq!(parse_u64("+"), None);
    assert_eq!(parse_u64("-1"), None);
    assert_eq!(parse_u64(" 5"), None);
    assert_eq!(parse_u64("5x"), None);
    for s in ["42", "+7", "", "+", "-1", "007", "99999999999999999999"] {
        assert_eq!(parse_u64(s), s.parse::<u64>().ok(), "input {s:?}");
    }
}

#[test]
fn parse_with_small_limit() {
    assert_eq!(parse_unsigned_chars(&chars("4294967295"), 0xFFFF_FFFF), Some(4294967295));
    assert_eq!(parse_unsigned_chars(&chars("4294967296"), 0xFFFF_FFFF), None);
}

#[test]
fn decimal_string_matches_to_string() {
    for n in [0u64, 7, 10, 99, 100, 12345, u64::MAX] {
        assert_eq!(decimal_string(n), n.to_string());
        assert_eq!(parse_u64(&decimal_string(n)), Some(n));
    }
}

#[test]
fn split_and_splitn() {
    assert_eq!(strings(split_chars(&chars("Cmd+Shift+V"), '+', 0)), vec!["Cmd", "Shift", "V"]);
    assert_eq!(strings(split_chars(&chars(""), '+', 0)), vec![""]);
    assert_eq!(strings(split_chars(&chars("a++"), '+', 0)), vec!["a", "", ""]);
    assert_eq!(strings(split_chars(&chars("1|a|b"), '|', 2)), vec!["1", "a|b"]);
    assert_eq!(strings(split_chars(&chars("a\tb\tc\td"), '\t', 3)), vec!["a", "b", "c\td"]);
}

#[test]
fn lines_follow_str_lines() {
    for s in ["", "a", "a\n", "a\r\nb", "a\n\nb\n", "x\r", "\n"] {
        let expected: Vec<String> = s.lines().map(|l| l.to_string()).collect();
        assert_eq!(strings(lines_of(&chars(s))), expected, "input {s:?}");
    }
}

#[test]
fn substring_search() {
    assert!(contains_chars(&chars("remote desktop"), &chars("desk")));
    assert!(contains_chars(&chars("abc"), &chars("")));
    assert!(!contains_chars(&chars("abc"), &chars("abcd")));
    assert!(!contains_chars(&chars("terminal"), &chars("Term")));
}

#[test]
fn lowercase_uses_unicode_mapping() {
    assert_eq!(string_of(&lowercase_chars(&chars("ShIfT"))), "shift");
    assert_eq!(string_of(&lowercase_chars(&chars("ПРИВЕТ"))), "привет");
    assert_eq!(string_of(&chars_of("héllo")), "héllo");
}
