use webhooks_receiver::slug::is_valid_slug;
use webhooks_receiver::text::{
    bytes_eq, chars_of, contains_byte, find_char, push_decimal, push_hex, push_int, push_pad3,
    push_prefix, str_eq, string_of, to_ascii_lowercase, trim_bounds,
};

#[test]
fn slug_accepts_letters_digits_hyphen_and_underscore() {
    assert!(is_valid_slug("abc"));
    assert!(is_valid_slug("A-b_9"));
    assert!(is_valid_slug("0"));
    assert!(is_valid_slug("demo_slug"));
}

#[test]
fn slug_rejects_empty_and_too_long() {
    assert!(!is_valid_slug(""));
    let fifty = "a".repeat(50);
    let fifty_one = "a".repeat(51);
    assert!(is_valid_slug(&fifty));
    assert!(!is_valid_slug(&fifty_one));
}

#[test]
fn slug_rejects_any_other_byte() {
    assert!(!is_valid_slug("../bad"));
    assert!(!is_valid_slug("a b"));
    assert!(!is_valid_slug("a.b"));
    assert!(!is_valid_slug("a/b"));
    assert!(!is_valid_slug("caf\u{e9}"));
    assert!(!is_valid_slug("a\n"));
    assert!(!is_valid_slug("a@"));
    assert!(!is_valid_slug("[a]"));
    assert!(!is_valid_slug("a`"));
    assert!(!is_valid_slug("a{"));
}

#[test]
fn slug_check_agrees_with_its_definition_on_every_single_byte() {
    for b in 0u8..=127 {
        let s = String::from_utf8(vec![b]).unwrap();
        let expected = b.is_ascii_alphanumeric() || b == b'-' || b == b'_';
        assert_eq!(is_valid_slug(&s), expected);
    }
}

#[test]
fn strings_and_bytes_compare_by_content() {
    assert!(str_eq("abc", "abc"));
    assert!(!str_eq("abc", "abd"));
    assert!(!str_eq("abc", "ab"));
    assert!(str_eq("", ""));
    assert!(bytes_eq(&[1, 2, 3], &[1, 2, 3]));
    assert!(!bytes_eq(&[1, 2, 3], &[1, 2]));
    assert!(contains_byte("a\rb", 13));
    assert!(!contains_byte("ab", 13));
}

#[test]
fn lower_case_changes_ascii_letters_only() {
    assert_eq!(to_ascii_lowercase("Content-Type"), "content-type");
    assert_eq!(to_ascii_lowercase("AbC-\u{c9}9"), "abc-\u{c9}9");
    assert_eq!(to_ascii_lowercase("\u{212a}"), "\u{212a}");
    assert_eq!(to_ascii_lowercase("@[`{"), "@[`{");
}

#[test]
fn integers_are_spelled_in_decimal() {
    let mut s = String::from("n=");
    push_decimal(&mut s, 0);
    s.push(',');
    push_decimal(&mut s, 18446744073709551615);
    s.push(',');
    push_int(&mut s, -9223372036854775808);
    s.push(',');
    push_int(&mut s, 42);
    s.push(',');
    push_pad3(&mut s, 7);
    s.push(',');
    push_pad3(&mut s, 999);
    assert_eq!(s, "n=0,18446744073709551615,-9223372036854775808,42,007,999");
}

#[test]
fn bytes_are_spelled_in_lower_case_hexadecimal() {
    let mut s = String::new();
    push_hex(&mut s, &[0x00, 0x0f, 0xa0, 0xff]);
    assert_eq!(s, "000fa0ff");
}

#[test]
fn prefix_counts_characters_not_bytes() {
    let mut s = String::new();
    push_prefix(&mut s, "\u{e9}\u{e9}\u{e9}", 2);
    assert_eq!(s, "\u{e9}\u{e9}");
    let mut t = String::new();
    push_prefix(&mut t, "ab", 5);
    assert_eq!(t, "ab");
}

#[test]
fn characters_are_found_and_white_space_is_trimmed() {
    let v = chars_of(" 1.2.3.4 , 5.6.7.8");
    let comma = find_char(&v, ',');
    assert_eq!(comma, 9);
    let (start, end) = trim_bounds(&v, 0, comma);
    assert_eq!(string_of(&v, start, end), "1.2.3.4");
    assert_eq!(find_char(&v, '#'), v.len());
    let blank = chars_of(" \t ");
    let (a, b) = trim_bounds(&blank, 0, blank.len());
    assert_eq!(a, b);
}
