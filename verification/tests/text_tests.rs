use rusty_bot::text::{i64_to_decimal, pad_right, same_text, u64_to_decimal};

#[test]
fn decimal_of_zero_and_large_numbers() {
    assert_eq!(u64_to_decimal(0), "0");
    assert_eq!(u64_to_decimal(7), "7");
    assert_eq!(u64_to_decimal(1234567890), "1234567890");
    assert_eq!(u64_to_decimal(u64::MAX), u64::MAX.to_string());
    assert_eq!(u64_to_decimal(277023048394850304), "277023048394850304");
}

#[test]
fn decimal_of_signed_numbers() {
    assert_eq!(i64_to_decimal(0), "0");
    assert_eq!(i64_to_decimal(20), "20");
    assert_eq!(i64_to_decimal(-42), "-42");
    assert_eq!(i64_to_decimal(i64::MIN), i64::MIN.to_string());
    assert_eq!(i64_to_decimal(i64::MAX), i64::MAX.to_string());
}

#[test]
fn padding_like_format_width() {
    assert_eq!(pad_right("ab", 5), "ab   ");
    assert_eq!(pad_right("ab", 5), format!("{:<5}", "ab"));
    assert_eq!(pad_right("abcdef", 3), "abcdef");
    assert_eq!(pad_right("", 2), "  ");
    assert_eq!(pad_right("héllo", 7), format!("{:<7}", "héllo"));
    assert_eq!(pad_right("héllo", 7).chars().count(), 7);
}

#[test]
fn same_text_compares_characters() {
    assert!(same_text("last", "last"));
    assert!(!same_text("last", "first"));
    assert!(!same_text("last", "lasts"));
    assert!(!same_text("é", "e"));
    assert!(same_text("", ""));
}
