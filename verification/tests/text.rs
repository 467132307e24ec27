use trading_system::text::{
    begins_with, contains_text, i32_to_decimal, parse_list, parse_unsigned, same_text, split_commas, text_after,
    u64_to_decimal, utf8_len_capped,
};

#[test]
fn decimal_text() {
    assert_eq!(u64_to_decimal(0), "0");
    assert_eq!(u64_to_decimal(18_446_744_073_709_551_615), "18446744073709551615");
    assert_eq!(i32_to_decimal(-2147483648), "-2147483648");
    assert_eq!(i32_to_decimal(351), "351");
}

#[test]
fn unsigned_parsing_matches_std() {
    for s in ["0", "+7", "007", "", "+", "12a", "-1", "65535", "65536", " 5"] {
        assert_eq!(parse_unsigned(s, u16::MAX as u64), s.parse::<u16>().ok().map(|v| v as u64), "{}", s);
    }
    assert_eq!(parse_unsigned("18446744073709551615", u64::MAX), Some(u64::MAX));
    assert_eq!(parse_unsigned("18446744073709551616", u64::MAX), None);
}

#[test]
fn lists_and_pieces() {
    assert_eq!(split_commas("a,,b"), vec!["a".to_string(), "".to_string(), "b".to_string()]);
    assert_eq!(parse_list(" x , ,y,"), vec!["x".to_string(), "y".to_string()]);
    assert!(parse_list("").is_empty());
}

#[test]
fn small_text_helpers() {
    assert!(same_text("abc", "abc"));
    assert!(!same_text("abc", "abd"));
    assert!(begins_with("USER_5", "USER_"));
    assert!(!begins_with("US", "USER_"));
    assert_eq!(text_after("USER_5", 5), "5");
    assert!(contains_text("xx UNIQUE constraint failed yy", "UNIQUE constraint failed"));
    assert!(!contains_text("UNIQUE", "UNIQUE constraint failed"));
    assert!(contains_text("abc", ""));
    assert_eq!(utf8_len_capped("aé€😀", 100), 1 + 2 + 3 + 4);
    assert_eq!(utf8_len_capped("abcdefghijkl", 10), 11);
}
