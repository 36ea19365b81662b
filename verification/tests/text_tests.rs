use brioschenbot::text::{
    contains_str, i64_to_decimal, parse_u16, parse_u32, same_text, to_lowercase, u32_to_decimal,
    u64_to_decimal,
};

#[test]
fn formats_zero_and_extremes() {
    assert_eq!(u32_to_decimal(0), "0");
    assert_eq!(u32_to_decimal(7), "7");
    assert_eq!(u32_to_decimal(4294967295), "4294967295");
    assert_eq!(u64_to_decimal(18446744073709551615), "18446744073709551615");
}

#[test]
fn formats_signed_ids_like_to_string() {
    assert_eq!(i64_to_decimal(0), "0");
    assert_eq!(i64_to_decimal(-1001234567890), "-1001234567890");
    assert_eq!(i64_to_decimal(i64::MIN), i64::MIN.to_string());
    assert_eq!(i64_to_decimal(i64::MAX), i64::MAX.to_string());
}

#[test]
fn parses_like_std() {
    for s in ["0", "42", "+42", "", "+", "-1", "-0", " 1", "1 ", "4294967295", "4294967296", "007", "1a", "\u{663}"] {
        assert_eq!(parse_u32(s), s.parse::<u32>().ok(), "input {:?}", s);
    }
    for s in ["65535", "65536", "9987", "+10011", "port"] {
        assert_eq!(parse_u16(s), s.parse::<u16>().ok(), "input {:?}", s);
    }
}

#[test]
fn parse_of_format_gives_the_number_back() {
    for n in [0u32, 1, 9, 10, 999, 1000, 65535, 4294967295] {
        assert_eq!(parse_u32(&u32_to_decimal(n)), Some(n));
    }
}

#[test]
fn substring_search() {
    assert!(contains_str("hallo welt", "lo w"));
    assert!(contains_str("abc", ""));
    assert!(contains_str("", ""));
    assert!(!contains_str("", "a"));
    assert!(!contains_str("ab", "abc"));
    assert!(contains_str("xxabc", "abc"));
    assert!(!contains_str("abxc", "abc"));
    assert!(contains_str("größer", "öß"));
}

#[test]
fn equality_and_lowercase() {
    assert!(same_text("Brio", "Brio"));
    assert!(!same_text("Brio", "brio"));
    assert_eq!(to_lowercase("HaLLo ÄÖ"), "hallo äö");
}
