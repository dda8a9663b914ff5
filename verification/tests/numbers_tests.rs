use secret_music_bot::numbers::{i64_to_decimal, parse_i32, parse_i64, parse_u64, u64_to_decimal};

#[test]
fn parse_i32_accepts_signs_and_digits() {
    assert_eq!(parse_i32("42"), Some(42));
    assert_eq!(parse_i32("+7"), Some(7));
    assert_eq!(parse_i32("-0"), Some(0));
    assert_eq!(parse_i32("-15"), Some(-15));
    assert_eq!(parse_i32("007"), Some(7));
}

#[test]
fn parse_i32_rejects_what_str_parse_rejects() {
    assert_eq!(parse_i32(""), None);
    assert_eq!(parse_i32("-"), None);
    assert_eq!(parse_i32("+"), None);
    assert_eq!(parse_i32(" 1"), None);
    assert_eq!(parse_i32("1 "), None);
    assert_eq!(parse_i32("+-1"), None);
    assert_eq!(parse_i32("12a"), None);
    assert_eq!(parse_i32("\u{0661}"), None);
}

#[test]
fn parse_i32_range_limits() {
    assert_eq!(parse_i32("2147483647"), Some(i32::MAX));
    assert_eq!(parse_i32("-2147483648"), Some(i32::MIN));
    assert_eq!(parse_i32("2147483648"), None);
    assert_eq!(parse_i32("-2147483649"), None);
    assert_eq!(parse_i32("99999999999999999999999999"), None);
}

#[test]
fn parse_i64_range_limits() {
    assert_eq!(parse_i64("-1001234567890"), Some(-1001234567890));
    assert_eq!(parse_i64("9223372036854775807"), Some(i64::MAX));
    assert_eq!(parse_i64("-9223372036854775808"), Some(i64::MIN));
    assert_eq!(parse_i64("9223372036854775808"), None);
}

#[test]
fn parse_u64_has_no_minus() {
    assert_eq!(parse_u64("262"), Some(262));
    assert_eq!(parse_u64("+262"), Some(262));
    assert_eq!(parse_u64("-1"), None);
    assert_eq!(parse_u64("-0"), None);
    assert_eq!(parse_u64("18446744073709551615"), Some(u64::MAX));
    assert_eq!(parse_u64("18446744073709551616"), None);
}

#[test]
fn parsers_agree_with_std() {
    for text in ["0", "1", "-1", "+5", "", "-", "abc", "4294967296", "-9223372036854775809", "00", "+0"] {
        assert_eq!(parse_i32(text), text.parse::<i32>().ok(), "{text}");
        assert_eq!(parse_i64(text), text.parse::<i64>().ok(), "{text}");
        assert_eq!(parse_u64(text), text.parse::<u64>().ok(), "{text}");
    }
}

#[test]
fn decimal_rendering() {
    assert_eq!(u64_to_decimal(0), "0");
    assert_eq!(u64_to_decimal(1234567890), "1234567890");
    assert_eq!(u64_to_decimal(u64::MAX), "18446744073709551615");
    assert_eq!(i64_to_decimal(-100123), "-100123");
    assert_eq!(i64_to_decimal(i64::MIN), "-9223372036854775808");
}

#[test]
fn decimal_round_trips_through_the_parsers() {
    for n in [0u64, 9, 10, 262, 65535, u64::MAX] {
        assert_eq!(parse_u64(&u64_to_decimal(n)), Some(n));
    }
    for n in [0i64, -1, 42, -1001234567890, i64::MIN, i64::MAX] {
        assert_eq!(parse_i64(&i64_to_decimal(n)), Some(n));
    }
}
