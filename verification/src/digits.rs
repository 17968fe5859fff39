//! Counting the significant digits of a magnitude.
use crate::powers::{lemma_pow10_step, lemma_pow10_values};
use vstd::arithmetic::logarithm::{lemma_log0, lemma_log_s, log};
use vstd::arithmetic::power::{lemma_pow_increases, lemma_pow_positive, pow};
use vstd::math::abs;
use vstd::prelude::*;

verus! {

/// The number of significant decimal digits of `magnitude`: one more than the
/// integer logarithm to base ten of its absolute value. Zero has one digit.
pub open spec fn significant_digits(magnitude: int) -> int {
    log(10, abs(magnitude) as int) + 1
}

/// A number and its negation have the same number of significant digits.
pub proof fn lemma_significant_digits_of_negation(magnitude: int)
    ensures
        significant_digits(-magnitude) == significant_digits(magnitude),
{
}

/// A number below ten has one significant digit; dropping the last digit of
/// any other number drops one significant digit.
pub proof fn lemma_significant_digits_step(n: nat)
    ensures
        n < 10 ==> significant_digits(n as int) == 1,
        n >= 10 ==> significant_digits(n as int) == 1 + significant_digits(n as int / 10),
{
    if n < 10 {
        lemma_log0(10, n as int);
    } else {
        lemma_log_s(10, n as int);
    }
}

/// A nonzero number of `d` significant digits lies between ten to the `d - 1`
/// and ten to the `d`.
pub proof fn lemma_significant_digits_bounds(magnitude: int)
    requires
        magnitude != 0,
    ensures
        significant_digits(magnitude) >= 1,
        pow(10, (significant_digits(magnitude) - 1) as nat) <= abs(magnitude),
        abs(magnitude) < pow(10, significant_digits(magnitude) as nat),
    decreases abs(magnitude),
{
    let n = abs(magnitude);
    lemma_significant_digits_step(n);
    lemma_pow10_values();
    if n >= 10 {
        let rest = n as int / 10;
        lemma_significant_digits_bounds(rest);
        let d = significant_digits(rest);
        lemma_pow10_step((d - 1) as nat);
        lemma_pow10_step(d as nat);
    }
}

/// The number of significant digits is the only `digits` for which a nonzero
/// magnitude lies between ten to the `digits - 1` and ten to the `digits`.
pub proof fn lemma_significant_digits_from_bounds(magnitude: int, digits: nat)
    requires
        digits >= 1,
        pow(10, (digits - 1) as nat) <= abs(magnitude) < pow(10, digits),
    ensures
        significant_digits(magnitude) == digits,
{
    lemma_pow_positive(10, (digits - 1) as nat);
    lemma_significant_digits_bounds(magnitude);
    let counted = significant_digits(magnitude);
    if counted < digits {
        lemma_pow_increases(10, counted as nat, (digits - 1) as nat);
    } else if counted > digits {
        lemma_pow_increases(10, digits, (counted - 1) as nat);
    }
}

/// The absolute value of `value`, which an `i64` cannot hold for the least
/// of its values.
pub fn magnitude_of(value: i64) -> (magnitude: u64)
    ensures
        magnitude == abs(value as int),
{
    if value >= 0 {
        value as u64
    } else {
        (-(value + 1)) as u64 + 1
    }
}

/// Counts the significant decimal digits of `magnitude`.
pub fn count_digits(magnitude: u64) -> (digits: u8)
    ensures
        digits == significant_digits(magnitude as int),
        1 <= digits <= 20,
{
    let mut rest: u64 = magnitude;
    let mut digits: u8 = 1;
    proof {
        lemma_pow10_values();
    }
    while rest >= 10
        invariant
            1 <= digits <= 20,
            rest * pow(10, (digits - 1) as nat) <= magnitude,
            significant_digits(magnitude as int) == digits - 1 + significant_digits(rest as int),
        decreases rest,
    {
        proof {
            lemma_significant_digits_step(rest as nat);
            lemma_pow10_step((digits - 1) as nat);
            lemma_pow_positive(10, (digits - 1) as nat);
            let power = pow(10, (digits - 1) as nat);
            assert((rest / 10) * (10 * power) <= rest * power) by (nonlinear_arith)
                requires
                    power >= 0,
                    (rest / 10) * 10 <= rest,
            ;
            assert(pow(10, digits as nat) <= magnitude) by (nonlinear_arith)
                requires
                    rest / 10 >= 1,
                    pow(10, digits as nat) >= 0,
                    (rest / 10) * pow(10, digits as nat) <= magnitude,
            ;
            if digits >= 20 {
                lemma_pow10_values();
                lemma_pow_increases(10, 20, digits as nat);
            }
        }
        rest = rest / 10;
        digits = digits + 1;
    }
    proof {
        lemma_significant_digits_step(rest as nat);
    }
    digits
}

/// Counts the significant decimal digits of `value`, whatever its sign.
pub fn precision_of(value: i64) -> (precision: u8)
    ensures
        precision == significant_digits(value as int),
        1 <= precision <= 19,
{
    let precision = count_digits(magnitude_of(value));
    proof {
        if value != 0 {
            lemma_significant_digits_bounds(value as int);
            lemma_pow10_values();
            if precision >= 20 {
                lemma_pow_increases(10, 19, (precision - 1) as nat);
            }
        } else {
            lemma_significant_digits_step(0);
        }
    }
    precision
}

} // verus!
