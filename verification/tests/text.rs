use slash::text::{parse_u64, to_dec_string};

#[test]
fn renders_decimal_exactly() {
    assert_eq!(to_dec_string(0), "0");
    assert_eq!(to_dec_string(7), "7");
    assert_eq!(to_dec_string(1420070400000), "1420070400000");
    assert_eq!(to_dec_string(u64::MAX), "18446744073709551615");
}

#[test]
fn parses_decimal_exactly() {
    assert_eq!(parse_u64("0"), Some(0));
    assert_eq!(parse_u64("007"), Some(7));
    assert_eq!(parse_u64("18446744073709551615"), Some(u64::MAX));
}

#[test]
fn rejects_non_numbers_and_overflow() {
    assert_eq!(parse_u64(""), None);
    assert_eq!(parse_u64("12 "), None);
    assert_eq!(parse_u64("-3"), None);
    assert_eq!(parse_u64("18446744073709551616"), None);
}

#[test]
fn printing_then_parsing_returns_the_number() {
    for n in [0u64, 1, 9, 10, 99, 12345678901234567, u64::MAX] {
        assert_eq!(parse_u64(&to_dec_string(n)), Some(n));
    }
}
