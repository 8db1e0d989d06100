use stammdaten::text::{char_is_digit, parse_number, push_padded_decimal, strip_white_space};

#[test]
fn strip_white_space_removes_unicode_white_space() {
    let stripped: String = strip_white_space("1\u{3000}2\u{a0}3\t4\n5 6\u{2028}").into_iter().collect();
    assert_eq!(stripped, "123456");
    assert!(strip_white_space(" \u{85}\u{205f} ").is_empty());
    let kept: String = strip_white_space("a\u{200b}b").into_iter().collect();
    assert_eq!(kept, "a\u{200b}b");
}

#[test]
fn parse_number_caps_large_values() {
    let digits = |s: &str| s.chars().collect::<Vec<char>>();
    assert_eq!(parse_number(&digits("0042"), 100), Some(42));
    assert_eq!(parse_number(&digits("100"), 100), Some(100));
    assert_eq!(parse_number(&digits("101"), 100), Some(101));
    assert_eq!(parse_number(&digits("999999999999999999999"), 100), Some(101));
    assert_eq!(parse_number(&digits(""), 100), None);
    assert_eq!(parse_number(&digits("+1"), 100), Some(1));
    assert_eq!(parse_number(&digits("+"), 100), None);
    assert_eq!(parse_number(&digits("++1"), 100), None);
    assert_eq!(parse_number(&digits("-1"), 100), None);
    assert_eq!(parse_number(&digits("1+"), 100), None);
    assert!(char_is_digit('7'));
    assert!(!char_is_digit('a'));
}

#[test]
fn padded_decimal_keeps_leading_zeros() {
    let mut out = vec!['x'];
    push_padded_decimal(&mut out, 7, 3);
    assert_eq!(out, vec!['x', '0', '0', '7']);
    let mut out = Vec::new();
    push_padded_decimal(&mut out, 12345, 2);
    assert_eq!(out, vec!['4', '5']);
}
