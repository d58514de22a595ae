use dorsal::text::{
    decimal_text, parse_column_number, parse_signed, parse_unsigned, same_text, signed_text,
};

#[test]
fn unsigned_reads_digits_only() {
    assert_eq!(parse_unsigned("0"), Some(0));
    assert_eq!(parse_unsigned("007"), Some(7));
    assert_eq!(parse_unsigned("1700000000000"), Some(1_700_000_000_000));
    assert_eq!(parse_unsigned(""), None);
    assert_eq!(parse_unsigned("+5"), None);
    assert_eq!(parse_unsigned("-5"), None);
    assert_eq!(parse_unsigned("12a"), None);
    assert_eq!(parse_unsigned(" 12"), None);
    assert_eq!(parse_unsigned("1.0"), None);
    assert_eq!(parse_unsigned("１２"), None);
}

#[test]
fn unsigned_stops_at_the_largest_u128() {
    assert_eq!(
        parse_unsigned("340282366920938463463374607431768211455"),
        Some(u128::MAX)
    );
    assert_eq!(parse_unsigned("340282366920938463463374607431768211456"), None);
    assert_eq!(
        parse_unsigned("0000340282366920938463463374607431768211455"),
        Some(u128::MAX)
    );
    assert_eq!(parse_unsigned("3402823669209384634633746074317682114550"), None);
}

#[test]
fn column_number_reads_like_the_standard_library() {
    for text in ["0", "42", "+42", "+", "-42", "", "++1", "4 2", "é", "+é1", "99999999999999999999999999999999999999999"] {
        assert_eq!(parse_column_number(text), text.parse::<u128>().ok(), "{text:?}");
    }
}

#[test]
fn signed_reads_the_whole_range_of_i32() {
    assert_eq!(parse_signed("0"), Some(0));
    assert_eq!(parse_signed("-0"), Some(0));
    assert_eq!(parse_signed("2147483647"), Some(i32::MAX));
    assert_eq!(parse_signed("2147483648"), None);
    assert_eq!(parse_signed("-2147483648"), Some(i32::MIN));
    assert_eq!(parse_signed("-2147483649"), None);
    assert_eq!(parse_signed("-"), None);
    assert_eq!(parse_signed("+1"), None);
    assert_eq!(parse_signed("1.5"), None);
    assert_eq!(parse_signed(""), None);
}

#[test]
fn decimal_text_writes_without_leading_zeros() {
    assert_eq!(decimal_text(0), "0");
    assert_eq!(decimal_text(9), "9");
    assert_eq!(decimal_text(10), "10");
    assert_eq!(decimal_text(1_700_000_000_123), "1700000000123");
    assert_eq!(decimal_text(u128::MAX), "340282366920938463463374607431768211455");
}

#[test]
fn decimal_text_reads_back() {
    for n in [0u128, 1, 9, 10, 99, 100, 12345678901234567890, u128::MAX] {
        assert_eq!(parse_unsigned(&decimal_text(n)), Some(n));
        assert_eq!(parse_column_number(&decimal_text(n)), Some(n));
    }
}

#[test]
fn signed_text_writes_the_sign() {
    assert_eq!(signed_text(0), "0");
    assert_eq!(signed_text(-1), "-1");
    assert_eq!(signed_text(i32::MAX), "2147483647");
    assert_eq!(signed_text(i32::MIN), "-2147483648");
    for n in [0, 1, -1, 17, -17, i32::MAX, i32::MIN] {
        assert_eq!(parse_signed(&signed_text(n)), Some(n));
    }
}

#[test]
fn same_text_compares_characters() {
    assert!(same_text("", ""));
    assert!(same_text("banned", "banned"));
    assert!(!same_text("banned", "Banned"));
    assert!(!same_text("banned", "banne"));
    assert!(!same_text("a", "b"));
    assert!(same_text("héllo ✓", "héllo ✓"));
    assert!(!same_text("héllo", "hello"));
}
