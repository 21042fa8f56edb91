use yaiss::decimal::{i64_to_decimal, join_decimals, parse_octet, parse_port, u64_to_decimal};

#[test]
fn renders_zero() {
    assert_eq!(u64_to_decimal(0), "0");
}

#[test]
fn renders_small_numbers() {
    assert_eq!(u64_to_decimal(7), "7");
    assert_eq!(u64_to_decimal(50), "50");
    assert_eq!(u64_to_decimal(3000), "3000");
}

#[test]
fn renders_large_numbers() {
    assert_eq!(u64_to_decimal(12345678901234567890), "12345678901234567890");
    assert_eq!(u64_to_decimal(u64::MAX), "18446744073709551615");
}

#[test]
fn renders_signed_numbers() {
    assert_eq!(i64_to_decimal(0), "0");
    assert_eq!(i64_to_decimal(42), "42");
    assert_eq!(i64_to_decimal(-1), "-1");
    assert_eq!(i64_to_decimal(-3000), "-3000");
    assert_eq!(i64_to_decimal(i64::MIN), "-9223372036854775808");
    assert_eq!(i64_to_decimal(i64::MAX), "9223372036854775807");
}

#[test]
fn joins_lists() {
    assert_eq!(join_decimals(&vec![]), "");
    assert_eq!(join_decimals(&vec![1]), "1");
    assert_eq!(join_decimals(&vec![1, 2, 3]), "1,2,3");
    assert_eq!(join_decimals(&vec![-5, 0, 7]), "-5,0,7");
}

#[test]
fn parses_ports() {
    assert_eq!(parse_port("0"), Some(0));
    assert_eq!(parse_port("3000"), Some(3000));
    assert_eq!(parse_port("65535"), Some(65535));
    assert_eq!(parse_port("000080"), Some(80));
    assert_eq!(parse_port("65536"), None);
    assert_eq!(parse_port(""), None);
    assert_eq!(parse_port("80a"), None);
    assert_eq!(parse_port("-1"), None);
    assert_eq!(parse_port("+80"), None);
}

#[test]
fn parses_octets() {
    assert_eq!(parse_octet("0"), Some(0));
    assert_eq!(parse_octet("255"), Some(255));
    assert_eq!(parse_octet("256"), None);
    assert_eq!(parse_octet("007"), Some(7));
    assert_eq!(parse_octet(""), None);
    assert_eq!(parse_octet("1.2"), None);
}
