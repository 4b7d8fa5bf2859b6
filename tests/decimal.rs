use discordavatarproxy::decimal::{decimal_string, parse_u16, parse_u64};

#[test]
fn parses_plain_ids() {
    assert_eq!(parse_u64("123"), Some(123));
    assert_eq!(parse_u64("0"), Some(0));
    assert_eq!(parse_u64("000123"), Some(123));
    assert_eq!(parse_u64("+42"), Some(42));
}

#[test]
fn parses_largest_id() {
    assert_eq!(parse_u64("18446744073709551615"), Some(u64::MAX));
    assert_eq!(parse_u64("18446744073709551616"), None);
    assert_eq!(parse_u64("99999999999999999999999"), None);
}

#[test]
fn rejects_non_numbers() {
    assert_eq!(parse_u64("notanumber"), None);
    assert_eq!(parse_u64(""), None);
    assert_eq!(parse_u64("+"), None);
    assert_eq!(parse_u64("-1"), None);
    assert_eq!(parse_u64("12a"), None);
    assert_eq!(parse_u64(" 12"), None);
    assert_eq!(parse_u64("١٢"), None);
}

#[test]
fn parses_discriminators() {
    assert_eq!(parse_u16("0007"), Some(7));
    assert_eq!(parse_u16("65535"), Some(65535));
    assert_eq!(parse_u16("65536"), None);
    assert_eq!(parse_u16("x"), None);
}

#[test]
fn prints_decimals() {
    assert_eq!(decimal_string(0), "0");
    assert_eq!(decimal_string(7), "7");
    assert_eq!(decimal_string(502), "502");
    assert_eq!(decimal_string(u64::MAX), "18446744073709551615");
}
