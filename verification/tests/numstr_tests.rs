use upscaler::numstr::{parse_u64, u64_to_string};

#[test]
fn writes_decimal_digits() {
    assert_eq!(u64_to_string(0), "0");
    assert_eq!(u64_to_string(7), "7");
    assert_eq!(u64_to_string(30000), "30000");
    assert_eq!(u64_to_string(u64::MAX), "18446744073709551615");
}

#[test]
fn reads_decimal_digits() {
    assert_eq!(parse_u64("0"), Some(0));
    assert_eq!(parse_u64("1001"), Some(1001));
    assert_eq!(parse_u64("18446744073709551615"), Some(u64::MAX));
}

#[test]
fn rejects_non_digits_and_emptiness() {
    assert_eq!(parse_u64(""), None);
    assert_eq!(parse_u64("12a"), None);
    assert_eq!(parse_u64("-3"), None);
    assert_eq!(parse_u64(" 3"), None);
    assert_eq!(parse_u64("3.5"), None);
}

#[test]
fn rejects_values_past_the_limit() {
    assert_eq!(parse_u64("18446744073709551616"), None);
    assert_eq!(parse_u64("99999999999999999999999"), None);
}

#[test]
fn write_read_round_trip() {
    for n in [0u64, 1, 9, 10, 512, 123456789, u64::MAX] {
        assert_eq!(parse_u64(&u64_to_string(n)), Some(n));
    }
}
