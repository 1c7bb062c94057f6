use yagna_zksync::text::{decimal, parse_i32};

#[test]
fn decimal_writes_integers() {
    assert_eq!(decimal(0), "0");
    assert_eq!(decimal(7), "7");
    assert_eq!(decimal(1234567), "1234567");
    assert_eq!(decimal(-42), "-42");
    assert_eq!(decimal(i64::MAX), "9223372036854775807");
    assert_eq!(decimal(i64::MIN), "-9223372036854775808");
}

#[test]
fn parse_i32_reads_signed_decimals() {
    assert_eq!(parse_i32("32"), Some(32));
    assert_eq!(parse_i32("+7"), Some(7));
    assert_eq!(parse_i32("-15"), Some(-15));
    assert_eq!(parse_i32("007"), Some(7));
    assert_eq!(parse_i32("2147483647"), Some(i32::MAX));
    assert_eq!(parse_i32("-2147483648"), Some(i32::MIN));
}

#[test]
fn parse_i32_rejects_what_from_str_rejects() {
    for text in ["", "-", "+", "12a", " 1", "1 ", "2147483648", "-2147483649", "99999999999999999999", "--1"] {
        assert_eq!(parse_i32(text), None, "{:?}", text);
        assert!(text.parse::<i32>().is_err());
    }
}

#[test]
fn parse_i32_agrees_with_std_on_samples() {
    for text in ["0", "-0", "+0", "65535", "-1", "123456789", "2147483646"] {
        assert_eq!(parse_i32(text), text.parse::<i32>().ok(), "{:?}", text);
    }
}
