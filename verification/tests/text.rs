use torqle::text::decimal;

#[test]
fn decimal_writes_numbers_plainly() {
    assert_eq!(decimal(0), "0");
    assert_eq!(decimal(7), "7");
    assert_eq!(decimal(10), "10");
    assert_eq!(decimal(1000), "1000");
    assert_eq!(decimal(65535), "65535");
    assert_eq!(decimal(18446744073709551615), "18446744073709551615");
}

#[test]
fn decimal_agrees_with_display() {
    for n in (0..5000u128).chain([u64::MAX as u128 + 1, u128::MAX - 1, u128::MAX]) {
        assert_eq!(decimal(n), n.to_string());
    }
}
