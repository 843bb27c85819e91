use pastebin::text::{
    chars_of, contains_chars, decimal_i32, has_prefix, header_chars, parse_i32,
    strip_leading_copies, string_from_chars,
};

fn chars(s: &str) -> Vec<char> {
    s.chars().collect()
}

#[test]
fn decimal_of_small_and_signed_numbers() {
    assert_eq!(decimal_i32(0), "0");
    assert_eq!(decimal_i32(7), "7");
    assert_eq!(decimal_i32(10), "10");
    assert_eq!(decimal_i32(-42), "-42");
    assert_eq!(decimal_i32(1234567), "1234567");
}

#[test]
fn decimal_of_extremes() {
    assert_eq!(decimal_i32(i32::MAX), "2147483647");
    assert_eq!(decimal_i32(i32::MIN), "-2147483648");
}

#[test]
fn decimal_matches_display() {
    for n in [-1000, -1, 0, 1, 9, 99, 100, 65535, 2000000000] {
        assert_eq!(decimal_i32(n), n.to_string());
        assert_eq!(decimal_i32(n), format!("{:?}", n));
    }
}

#[test]
fn parse_accepts_signed_decimals() {
    assert_eq!(parse_i32("0"), Some(0));
    assert_eq!(parse_i32("+5"), Some(5));
    assert_eq!(parse_i32("-0"), Some(0));
    assert_eq!(parse_i32("007"), Some(7));
    assert_eq!(parse_i32("-123"), Some(-123));
    assert_eq!(parse_i32("2147483647"), Some(i32::MAX));
    assert_eq!(parse_i32("-2147483648"), Some(i32::MIN));
}

#[test]
fn parse_refuses_what_std_refuses() {
    for s in ["", "-", "+", "12a", " 1", "1 ", "--1", "+-1", "2147483648", "-2147483649", "99999999999", "١"] {
        assert_eq!(parse_i32(s), None, "{:?}", s);
        assert!(s.parse::<i32>().is_err());
    }
}

#[test]
fn parse_agrees_with_std() {
    for s in ["42", "-7", "+0", "0000", "2147483647", "-2147483648", "x", "", "+"] {
        assert_eq!(parse_i32(s), s.parse::<i32>().ok(), "{:?}", s);
    }
}

#[test]
fn parse_reads_back_decimal() {
    for n in [i32::MIN, -99, -1, 0, 1, 42, i32::MAX] {
        assert_eq!(parse_i32(&decimal_i32(n)), Some(n));
    }
}

#[test]
fn chars_and_strings_round_trip() {
    let cs = chars_of("héllo");
    assert_eq!(cs, vec!['h', 'é', 'l', 'l', 'o']);
    assert_eq!(string_from_chars(&cs), "héllo");
    assert_eq!(string_from_chars(&[]), "");
}

#[test]
fn prefixes_and_substrings() {
    assert!(has_prefix(&chars("Bearer x"), &chars("Bearer")));
    assert!(!has_prefix(&chars("Bear"), &chars("Bearer")));
    assert!(has_prefix(&chars("abc"), &chars("")));
    assert!(contains_chars(&chars("query GetTitleData {}"), &chars("GetTitleData")));
    assert!(!contains_chars(&chars("query GetTitle"), &chars("GetTitleData")));
    assert!(contains_chars(&chars("abc"), &chars("")));
    assert!(contains_chars(&chars("abc"), &chars("abc")));
    assert!(!contains_chars(&chars(""), &chars("a")));
}

#[test]
fn stripping_removes_every_leading_copy() {
    let p = chars("ab");
    assert_eq!(strip_leading_copies(&chars("ababx"), &p), chars("x"));
    assert_eq!(strip_leading_copies(&chars("abab"), &p), chars(""));
    assert_eq!(strip_leading_copies(&chars("xab"), &p), chars("xab"));
    assert_eq!(strip_leading_copies(&chars("aab"), &p), chars("aab"));
    assert_eq!(strip_leading_copies(&chars("abc"), &chars("")), chars("abc"));
    assert_eq!(
        strip_leading_copies(&chars("ababx"), &p).iter().collect::<String>(),
        "ababx".trim_start_matches("ab")
    );
}

#[test]
fn header_bytes_read_as_text_only_when_visible() {
    assert_eq!(header_chars(b"Bearer a.b"), Some(chars("Bearer a.b")));
    assert_eq!(header_chars(b"a\tb"), Some(chars("a\tb")));
    assert_eq!(header_chars(b""), Some(vec![]));
    assert_eq!(header_chars(b"a\x01b"), None);
    assert_eq!(header_chars(b"a\x7fb"), None);
    assert_eq!(header_chars(&[0xc3, 0xa9]), None);
}
