use big_decimal::digits::{count_digits, magnitude_of, precision_of};

#[test]
fn precision_of_counts_significant_digits() {
    assert_eq!(precision_of(0), 1);
    assert_eq!(precision_of(1), 1);
    assert_eq!(precision_of(9), 1);
    assert_eq!(precision_of(10), 2);
    assert_eq!(precision_of(19), 2);
    assert_eq!(precision_of(99), 2);
    assert_eq!(precision_of(100), 3);
    assert_eq!(precision_of(209), 3);
    assert_eq!(precision_of(-171), 3);
    assert_eq!(precision_of(-1), 1);
}

#[test]
fn precision_of_is_exact_at_every_power_of_ten() {
    let mut power: i64 = 1;
    let mut digits: u8 = 1;
    while digits <= 18 {
        assert_eq!(precision_of(power), digits);
        assert_eq!(precision_of(-power), digits);
        assert_eq!(precision_of(power * 10 - 1), digits);
        power *= 10;
        digits += 1;
    }
    assert_eq!(precision_of(power), 19);
    assert_eq!(precision_of(1000), 4);
    assert_eq!(precision_of(1_000_000_000_000_000), 16);
}

#[test]
fn precision_of_the_ends_of_the_range() {
    assert_eq!(precision_of(i64::MAX), 19);
    assert_eq!(precision_of(i64::MIN), 19);
    assert_eq!(precision_of(i64::MIN + 1), 19);
}

#[test]
fn count_digits_of_unsigned_magnitudes() {
    assert_eq!(count_digits(0), 1);
    assert_eq!(count_digits(7), 1);
    assert_eq!(count_digits(10), 2);
    assert_eq!(count_digits(9_999_999_999_999_999_999), 19);
    assert_eq!(count_digits(10_000_000_000_000_000_000), 20);
    assert_eq!(count_digits(u64::MAX), 20);
}

#[test]
fn magnitude_of_is_the_absolute_value() {
    assert_eq!(magnitude_of(0), 0);
    assert_eq!(magnitude_of(19), 19);
    assert_eq!(magnitude_of(-19), 19);
    assert_eq!(magnitude_of(i64::MAX), 9_223_372_036_854_775_807);
    assert_eq!(magnitude_of(i64::MIN), 9_223_372_036_854_775_808);
}
