use big_decimal::BigDecimal;

#[test]
fn big_decimal_add() {
    let bd1 = BigDecimal{ int_value: 19, scale: 0, precision: 2 };
    let bd2 = BigDecimal{ int_value: 19, scale: 1, precision: 2 };
    let expected = BigDecimal{ int_value: 209, scale: 1, precision: 3 };
    assert_eq!(expected, bd1.add(&bd2));
}

#[test]
fn big_decimal_add_negative() {
    let bd1 = BigDecimal{ int_value: -19, scale: 0, precision: 2 };
    let bd2 = BigDecimal{ int_value: 19, scale: 1, precision: 2 };
    let expected = BigDecimal{ int_value: -171, scale: 1, precision: 3 };
    assert_eq!(expected, bd1.add(&bd2));
}

#[test]
fn big_decimal_subtract() {
    let bd1 = BigDecimal{ int_value: 19, scale: 0, precision: 2 };
    let bd2 = BigDecimal{ int_value: 19, scale: 1, precision: 2 };
    let expected = BigDecimal{ int_value: 171, scale: 1, precision: 3 };
    assert_eq!(expected, bd1.subtract(&bd2));
}

#[test]
fn add_of_nonnegative_magnitudes() {
    let whole = BigDecimal { int_value: 19, scale: 0, precision: 2 };
    let tenths = BigDecimal { int_value: 19, scale: 1, precision: 2 };
    let sum = whole.add(&tenths);
    assert_eq!(sum.int_value, 209);
    assert_eq!(sum.scale, 1);
    assert_eq!(sum.precision, 3);
}

#[test]
fn add_at_equal_scale_sums_magnitudes() {
    let a = BigDecimal { int_value: 125, scale: 2, precision: 3 };
    let b = BigDecimal { int_value: 875, scale: 2, precision: 3 };
    assert_eq!(a.add(&b), BigDecimal { int_value: 1000, scale: 2, precision: 4 });
}

#[test]
fn add_aligns_coarser_left_operand() {
    let coarse = BigDecimal { int_value: 5, scale: 1, precision: 1 };
    let fine = BigDecimal { int_value: 7, scale: 4, precision: 1 };
    assert_eq!(coarse.add(&fine), BigDecimal { int_value: 5007, scale: 4, precision: 4 });
}

#[test]
fn add_aligns_coarser_right_operand() {
    let fine = BigDecimal { int_value: 7, scale: 4, precision: 1 };
    let coarse = BigDecimal { int_value: 5, scale: 1, precision: 1 };
    assert_eq!(fine.add(&coarse), BigDecimal { int_value: 5007, scale: 4, precision: 4 });
}

#[test]
fn add_with_negative_scales() {
    let thousands = BigDecimal { int_value: 3, scale: -3, precision: 1 };
    let tens = BigDecimal { int_value: 4, scale: -1, precision: 1 };
    assert_eq!(thousands.add(&tens), BigDecimal { int_value: 304, scale: -1, precision: 3 });
}

#[test]
fn add_is_commutative_across_scales() {
    let a = BigDecimal { int_value: -1234, scale: 3, precision: 4 };
    let b = BigDecimal { int_value: 56, scale: 0, precision: 2 };
    let ab = a.add(&b);
    let ba = b.add(&a);
    assert_eq!(ab, ba);
    assert_eq!(ab, BigDecimal { int_value: 54766, scale: 3, precision: 5 });
}

#[test]
fn add_is_commutative_at_equal_scale() {
    let a = BigDecimal { int_value: 17, scale: 2, precision: 2 };
    let b = BigDecimal { int_value: -40, scale: 2, precision: 2 };
    assert_eq!(a.add(&b), b.add(&a));
    assert_eq!(a.add(&b), BigDecimal { int_value: -23, scale: 2, precision: 2 });
}

#[test]
fn add_ignores_recorded_precisions() {
    let a = BigDecimal { int_value: 19, scale: 0, precision: 77 };
    let b = BigDecimal { int_value: 19, scale: 1, precision: 0 };
    assert_eq!(a.add(&b), BigDecimal { int_value: 209, scale: 1, precision: 3 });
}

#[test]
fn add_to_zero_has_precision_one() {
    let a = BigDecimal { int_value: 19, scale: 0, precision: 2 };
    let b = BigDecimal { int_value: -190, scale: 1, precision: 3 };
    assert_eq!(a.add(&b), BigDecimal { int_value: 0, scale: 1, precision: 1 });
}

#[test]
fn add_reaches_both_ends_of_the_range() {
    let one = BigDecimal { int_value: 1, scale: 0, precision: 1 };
    let below_max = BigDecimal { int_value: i64::MAX - 1, scale: 0, precision: 19 };
    assert_eq!(below_max.add(&one), BigDecimal { int_value: i64::MAX, scale: 0, precision: 19 });
    let minus_one = BigDecimal { int_value: -1, scale: 0, precision: 1 };
    let above_min = BigDecimal { int_value: i64::MIN + 1, scale: 0, precision: 19 };
    assert_eq!(
        above_min.add(&minus_one),
        BigDecimal { int_value: i64::MIN, scale: 0, precision: 19 }
    );
}

#[test]
fn add_of_zero_across_the_widest_scale_gap() {
    let zero = BigDecimal { int_value: 0, scale: i32::MIN, precision: 1 };
    let fine = BigDecimal { int_value: 42, scale: i32::MAX, precision: 2 };
    assert_eq!(zero.add(&fine), BigDecimal { int_value: 42, scale: i32::MAX, precision: 2 });
    assert_eq!(fine.add(&zero), BigDecimal { int_value: 42, scale: i32::MAX, precision: 2 });
}

#[test]
fn add_over_eighteen_digits_of_alignment() {
    let nine = BigDecimal { int_value: 9, scale: 0, precision: 1 };
    let fine = BigDecimal { int_value: 1, scale: 18, precision: 1 };
    assert_eq!(
        nine.add(&fine),
        BigDecimal { int_value: 9_000_000_000_000_000_001, scale: 18, precision: 19 }
    );
}

#[test]
fn negate_inverts_the_sign_only() {
    let a = BigDecimal { int_value: 19, scale: 1, precision: 2 };
    assert_eq!(a.negate(), BigDecimal { int_value: -19, scale: 1, precision: 2 });
    let zero = BigDecimal { int_value: 0, scale: 5, precision: 1 };
    assert_eq!(zero.negate(), zero);
}

#[test]
fn negate_keeps_an_inconsistent_precision() {
    let a = BigDecimal { int_value: 19, scale: 1, precision: 9 };
    assert_eq!(a.negate(), BigDecimal { int_value: -19, scale: 1, precision: 9 });
}

#[test]
fn negate_twice_is_identity() {
    let a = BigDecimal { int_value: -171, scale: 1, precision: 3 };
    assert_eq!(a.negate().negate(), a);
    let largest = BigDecimal { int_value: i64::MAX, scale: -7, precision: 19 };
    assert_eq!(largest.negate().negate(), largest);
    assert_eq!(largest.negate().int_value, i64::MIN + 1);
}

#[test]
fn subtract_is_add_of_negation() {
    let a = BigDecimal { int_value: 19, scale: 0, precision: 2 };
    let b = BigDecimal { int_value: 19, scale: 1, precision: 2 };
    assert_eq!(a.subtract(&b), a.add(&b.negate()));
    let c = BigDecimal { int_value: -305, scale: 2, precision: 3 };
    assert_eq!(c.subtract(&a), c.add(&a.negate()));
    assert_eq!(c.subtract(&a), BigDecimal { int_value: -2205, scale: 2, precision: 4 });
}

#[test]
fn subtract_of_itself_is_zero() {
    let a = BigDecimal { int_value: 171, scale: 1, precision: 3 };
    assert_eq!(a.subtract(&a), BigDecimal { int_value: 0, scale: 1, precision: 1 });
}

#[test]
fn ten_to_ten_gives_powers_of_ten() {
    let any = BigDecimal { int_value: 0, scale: 0, precision: 1 };
    assert_eq!(any.ten_to_ten(0), 1);
    assert_eq!(any.ten_to_ten(1), 10);
    assert_eq!(any.ten_to_ten(2), 100);
    assert_eq!(any.ten_to_ten(18), 1_000_000_000_000_000_000);
    assert_eq!(any.ten_to_ten(19), 10_000_000_000_000_000_000);
}

#[test]
fn multiply_power_ten_scales_the_magnitude() {
    let a = BigDecimal { int_value: 19, scale: 0, precision: 2 };
    assert_eq!(a.multiply_power_ten(0), 19);
    assert_eq!(a.multiply_power_ten(1), 190);
    assert_eq!(a.multiply_power_ten(3), 19_000);
    let negative = BigDecimal { int_value: -7, scale: 4, precision: 1 };
    assert_eq!(negative.multiply_power_ten(2), -700);
    let nine = BigDecimal { int_value: -9, scale: 0, precision: 1 };
    assert_eq!(nine.multiply_power_ten(18), -9_000_000_000_000_000_000);
}

#[test]
fn multiply_power_ten_of_zero_is_zero_for_any_power() {
    let zero = BigDecimal { int_value: 0, scale: 0, precision: 1 };
    assert_eq!(zero.multiply_power_ten(19), 0);
    assert_eq!(zero.multiply_power_ten(u32::MAX), 0);
}

#[test]
fn from_scaled_counts_the_precision() {
    assert_eq!(
        BigDecimal::from_scaled(209, 1),
        BigDecimal { int_value: 209, scale: 1, precision: 3 }
    );
    assert_eq!(
        BigDecimal::from_scaled(-171, 1),
        BigDecimal { int_value: -171, scale: 1, precision: 3 }
    );
    assert_eq!(BigDecimal::from_scaled(0, -2), BigDecimal { int_value: 0, scale: -2, precision: 1 });
    assert_eq!(
        BigDecimal::from_scaled(i64::MIN, 0),
        BigDecimal { int_value: i64::MIN, scale: 0, precision: 19 }
    );
}
