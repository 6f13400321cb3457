use nvtweak::parse::parse_offset;

#[test]
fn plain_and_signed_offsets_parse() {
    assert_eq!(parse_offset("50"), Some(50));
    assert_eq!(parse_offset("-100"), Some(-100));
    assert_eq!(parse_offset("+7"), Some(7));
    assert_eq!(parse_offset("0"), Some(0));
    assert_eq!(parse_offset("-0"), Some(0));
    assert_eq!(parse_offset("007"), Some(7));
    assert_eq!(parse_offset("-00000000000000000000123"), Some(-123));
}

#[test]
fn offsets_at_the_i32_bounds() {
    assert_eq!(parse_offset("2147483647"), Some(i32::MAX));
    assert_eq!(parse_offset("2147483648"), None);
    assert_eq!(parse_offset("-2147483648"), Some(i32::MIN));
    assert_eq!(parse_offset("-2147483649"), None);
    assert_eq!(parse_offset("99999999999999999999999999"), None);
    assert_eq!(parse_offset("-99999999999999999999999999"), None);
}

#[test]
fn malformed_offsets_are_rejected() {
    assert_eq!(parse_offset(""), None);
    assert_eq!(parse_offset("-"), None);
    assert_eq!(parse_offset("+"), None);
    assert_eq!(parse_offset("abc"), None);
    assert_eq!(parse_offset("1.5"), None);
    assert_eq!(parse_offset(" 5"), None);
    assert_eq!(parse_offset("5 "), None);
    assert_eq!(parse_offset("5a"), None);
    assert_eq!(parse_offset("--5"), None);
    assert_eq!(parse_offset("+-5"), None);
    assert_eq!(parse_offset("١٢٣"), None);
}
