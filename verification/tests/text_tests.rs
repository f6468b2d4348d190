use vipperfox::text::{blank, chars_of, format_u64, parse_u64, same_text, text_le_chars, trim_range, trimmed_eq_ignore_ascii_case};

#[test]
fn parses_unsigned_decimal_like_std() {
    assert_eq!(parse_u64("150"), Some(150));
    assert_eq!(parse_u64("+7"), Some(7));
    assert_eq!(parse_u64("007"), Some(7));
    assert_eq!(parse_u64(""), None);
    assert_eq!(parse_u64("+"), None);
    assert_eq!(parse_u64("-1"), None);
    assert_eq!(parse_u64(" 1"), None);
    assert_eq!(parse_u64("1a"), None);
    assert_eq!(parse_u64("18446744073709551615"), Some(u64::MAX));
    assert_eq!(parse_u64("18446744073709551616"), None);
    for text in ["0", "12", "+99", "x", "", "99999999999999999999"] {
        assert_eq!(parse_u64(text), text.parse::<u64>().ok());
    }
}

#[test]
fn formats_like_to_string_and_reads_back() {
    for value in [0u64, 1, 9, 10, 150, 1234, u64::MAX] {
        let text = format_u64(value);
        assert_eq!(text, value.to_string());
        assert_eq!(parse_u64(&text), Some(value));
    }
}

#[test]
fn trims_unicode_whitespace() {
    let v = chars_of("\t  ab c \u{2003}");
    assert_eq!(trim_range(&v), (3, 7));
    let v = chars_of("   ");
    let (a, b) = trim_range(&v);
    assert_eq!(a, b);
    assert!(blank(" \n\u{00A0}"));
    assert!(blank(""));
    assert!(!blank(" x "));
}

#[test]
fn compares_ignoring_ascii_case_after_trim() {
    assert!(trimmed_eq_ignore_ascii_case("  Fox_Channel ", "fox_channel"));
    assert!(!trimmed_eq_ignore_ascii_case("Fox", "fox_channel"));
    assert!(!trimmed_eq_ignore_ascii_case("ÄBC", "äbc"));
    assert!(trimmed_eq_ignore_ascii_case("äBC", "äbc"));
}

#[test]
fn text_equality_and_order() {
    assert!(same_text("abc", "abc"));
    assert!(!same_text("abc", "abd"));
    assert!(!same_text("abc", "ab"));
    let a = chars_of("abc");
    let b = chars_of("abd");
    let p = chars_of("ab");
    assert!(text_le_chars(&a, &b));
    assert!(!text_le_chars(&b, &a));
    assert!(text_le_chars(&p, &a));
    assert!(!text_le_chars(&a, &p));
    assert!(text_le_chars(&a, &a));
    let upper = chars_of("Zed");
    let lower = chars_of("alice");
    assert!(text_le_chars(&upper, &lower));
}
