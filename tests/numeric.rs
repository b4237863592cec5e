use file_exchange::parse_u128;

#[test]
fn parses_decimal_strings() {
    assert_eq!(parse_u128("0"), Some(0));
    assert_eq!(parse_u128("1000"), Some(1000));
    assert_eq!(parse_u128("+42"), Some(42));
    assert_eq!(parse_u128("0007"), Some(7));
    assert_eq!(parse_u128("340282366920938463463374607431768211455"), Some(u128::MAX));
}

#[test]
fn rejects_what_std_rejects() {
    for t in ["", "+", "-1", " 1", "1 ", "1_000", "12a", "340282366920938463463374607431768211456", "\u{663}"] {
        assert_eq!(parse_u128(t), None, "{t}");
        assert!(t.parse::<u128>().is_err());
    }
}
