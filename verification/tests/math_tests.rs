use trailing_orders::pow10;

#[test]
fn pow10_small_values() {
    assert_eq!(pow10(0), 1);
    assert_eq!(pow10(1), 10);
    assert_eq!(pow10(2), 100);
    assert_eq!(pow10(7), 10_000_000);
}

#[test]
fn pow10_saturates_above_the_largest_power() {
    assert_eq!(pow10(38), 100_000_000_000_000_000_000_000_000_000_000_000_000);
    assert_eq!(pow10(39), i128::MAX);
    assert_eq!(pow10(50), i128::MAX);
}
