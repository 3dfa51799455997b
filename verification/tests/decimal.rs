use link_yeeter::decimal::{i64_to_string, parse_i32, u64_to_string};

#[test]
fn renders_naturals() {
    assert_eq!(u64_to_string(0), "0");
    assert_eq!(u64_to_string(7), "7");
    assert_eq!(u64_to_string(10), "10");
    assert_eq!(u64_to_string(1234567890), "1234567890");
    assert_eq!(u64_to_string(u64::MAX), "18446744073709551615");
}

#[test]
fn renders_signed() {
    assert_eq!(i64_to_string(0), "0");
    assert_eq!(i64_to_string(-1), "-1");
    assert_eq!(i64_to_string(42), "42");
    assert_eq!(i64_to_string(i64::MIN), "-9223372036854775808");
}

#[test]
fn parses_plain_digits() {
    assert_eq!(parse_i32("0"), Some(0));
    assert_eq!(parse_i32("123"), Some(123));
    assert_eq!(parse_i32("00123"), Some(123));
    assert_eq!(parse_i32("5000000"), Some(5000000));
}

#[test]
fn parses_signs() {
    assert_eq!(parse_i32("+123"), Some(123));
    assert_eq!(parse_i32("-123"), Some(-123));
    assert_eq!(parse_i32("+"), None);
    assert_eq!(parse_i32("-"), None);
}

#[test]
fn rejects_bad_shapes() {
    assert_eq!(parse_i32(""), None);
    assert_eq!(parse_i32("abc"), None);
    assert_eq!(parse_i32("12a"), None);
    assert_eq!(parse_i32("1 2"), None);
    assert_eq!(parse_i32(" 12"), None);
    assert_eq!(parse_i32("1.2"), None);
}

#[test]
fn respects_the_range() {
    assert_eq!(parse_i32("2147483647"), Some(i32::MAX));
    assert_eq!(parse_i32("2147483648"), None);
    assert_eq!(parse_i32("-2147483648"), Some(i32::MIN));
    assert_eq!(parse_i32("-2147483649"), None);
    assert_eq!(parse_i32("999999999999999999999999999"), None);
}

#[test]
fn agrees_with_the_standard_parser() {
    for s in ["0", "-0", "+7", "2147483647", "-2147483648", "2147483648", "x", "", "007"] {
        assert_eq!(parse_i32(s), s.parse::<i32>().ok(), "input {s:?}");
    }
}
