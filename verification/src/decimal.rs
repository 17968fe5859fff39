//! The decimal value type and its arithmetic.
//!
//! Every operation is specified by the operation of the same meaning on the
//! mathematical [`Decimal`] that a value stands for. A magnitude is an `i64`:
//! `add`, `subtract`, `negate` and `multiply_power_ten` require that what
//! they compute stays within its range, and each has a `checked_` companion
//! that accepts any operands and returns `None` where that requirement fails.
use crate::digits::precision_of;
use crate::powers::{
    lemma_nonzero_multiple_bounds_pow10, lemma_pow10_fits_i64, lemma_pow10_fits_u64,
    lemma_pow10_step, MAX_I64_POWER_OF_TEN, MAX_U64_POWER_OF_TEN,
};
use crate::model::{fits_i64, lemma_negated_rescaled, Decimal};
use vstd::arithmetic::power::{lemma_pow0, lemma_pow_positive, pow};
use vstd::math::max;
use vstd::prelude::*;

verus! {

/// A decimal number: `int_value` with the decimal point shifted `scale`
/// digits to the left.
///
/// The fields are public and a value may be written down field by field; no
/// operation checks that `precision` agrees with `int_value`. The operations
/// that compute a new magnitude count its digits anew.
#[derive(Debug, Clone, Copy)]
pub struct BigDecimal {
    /// The digits of the number, with the decimal point removed.
    pub int_value: i64,
    /// How many of those digits stand to the right of the decimal point.
    pub scale: i32,
    /// The recorded number of significant digits of `int_value`.
    pub precision: u8,
}

impl View for BigDecimal {
    type V = Decimal;

    /// The mathematical decimal with the same three fields.
    open spec fn view(&self) -> Decimal {
        Decimal {
            magnitude: self.int_value as int,
            scale: self.scale as int,
            precision: self.precision as int,
        }
    }
}

impl BigDecimal {
    /// Whether [`add`](BigDecimal::add) can form the sum of `self` and
    /// `augend` without leaving the range of `i64`.
    pub open spec fn can_add(&self, augend: &BigDecimal) -> bool {
        self@.plus_fits_i64(augend@)
    }

    /// Whether [`subtract`](BigDecimal::subtract) can form the difference of
    /// `self` and `augend` without leaving the range of `i64`.
    pub open spec fn can_subtract(&self, augend: &BigDecimal) -> bool {
        self@.plus_fits_i64(augend@.negated())
    }

    /// The sum of `self` and `augend`, at the finer of their two scales.
    ///
    /// The operand with the coarser scale is multiplied by the power of ten
    /// that brings it to the finer one; then the magnitudes are added. The
    /// precision of the sum is counted from its magnitude.
    pub fn add(&self, augend: &BigDecimal) -> (sum: BigDecimal)
        requires
            self.can_add(augend),
        ensures
            sum@ == self@.plus(augend@),
            self.scale <= augend.scale ==> sum.scale == augend.scale,
            self.scale <= augend.scale ==> sum.int_value == self.int_value * pow(
                10,
                (augend.scale - self.scale) as nat,
            ) + augend.int_value,
            self.scale >= augend.scale ==> sum.scale == self.scale,
            self.scale >= augend.scale ==> sum.int_value == self.int_value + augend.int_value
                * pow(10, (self.scale - augend.scale) as nat),
            sum@.precision_is_exact(),
    {
        let scale_diff: i64 = self.scale as i64 - augend.scale as i64;
        proof {
            lemma_pow0(10);
        }
        let (sum_value, scale): (i64, i32) = if scale_diff == 0 {
            (self.int_value + augend.int_value, self.scale)
        } else if scale_diff < 0 {
            (self.multiply_power_ten((-scale_diff) as u32) + augend.int_value, augend.scale)
        } else {
            (self.int_value + augend.multiply_power_ten(scale_diff as u32), self.scale)
        };
        BigDecimal { int_value: sum_value, scale, precision: precision_of(sum_value) }
    }

    /// The sum of `self` and `augend`, or `None` where
    /// [`add`](BigDecimal::add) would leave the range of `i64`.
    pub fn checked_add(&self, augend: &BigDecimal) -> (sum: Option<BigDecimal>)
        ensures
            sum is Some <==> self.can_add(augend),
            sum matches Some(decimal) ==> decimal@ == self@.plus(augend@),
    {
        let scale_diff: i64 = self.scale as i64 - augend.scale as i64;
        proof {
            lemma_pow0(10);
        }
        let (left, right, scale): (Option<i64>, Option<i64>, i32) = if scale_diff <= 0 {
            (
                self.checked_multiply_power_ten((-scale_diff) as u32),
                Some(augend.int_value),
                augend.scale,
            )
        } else {
            (
                Some(self.int_value),
                augend.checked_multiply_power_ten(scale_diff as u32),
                self.scale,
            )
        };
        match (left, right) {
            (Some(left_value), Some(right_value)) => match left_value.checked_add(right_value) {
                Some(sum_value) => Some(
                    BigDecimal { int_value: sum_value, scale, precision: precision_of(sum_value) },
                ),
                None => None,
            },
            _ => None,
        }
    }

    /// The difference of `self` and `augend`: the sum of `self` and the
    /// negated `augend`.
    pub fn subtract(&self, augend: &BigDecimal) -> (difference: BigDecimal)
        requires
            self.can_subtract(augend),
        ensures
            difference@ == self@.plus(augend@.negated()),
            difference@ == self@.minus(augend@),
            difference.scale == max(self.scale as int, augend.scale as int),
            difference.int_value == self@.rescaled(difference.scale as int) - augend@.rescaled(
                difference.scale as int,
            ),
            difference@.precision_is_exact(),
    {
        proof {
            lemma_can_subtract_excludes_least(self, augend);
            lemma_negated_rescaled(augend@, max(self.scale as int, augend.scale as int));
        }
        self.add(&augend.negate())
    }

    /// The difference of `self` and `augend`, or `None` where
    /// [`subtract`](BigDecimal::subtract) would leave the range of `i64`.
    pub fn checked_subtract(&self, augend: &BigDecimal) -> (difference: Option<BigDecimal>)
        ensures
            difference is Some <==> self.can_subtract(augend),
            difference matches Some(decimal) ==> decimal@ == self@.minus(augend@),
    {
        match augend.checked_negate() {
            Some(negated) => self.checked_add(&negated),
            None => {
                proof {
                    if self.can_subtract(augend) {
                        lemma_can_subtract_excludes_least(self, augend);
                    }
                }
                None
            },
        }
    }

    /// The magnitude multiplied by ten to the power `n`: the magnitude of the
    /// same number at a scale that is finer by `n` digits.
    pub fn multiply_power_ten(&self, n: u32) -> (product: i64)
        requires
            fits_i64(self.int_value * pow(10, n as nat)),
        ensures
            product == self.int_value * pow(10, n as nat),
            n == 0 ==> product == self.int_value,
    {
        if n == 0 || self.int_value == 0 {
            proof {
                lemma_pow0(10);
            }
            self.int_value
        } else {
            proof {
                lemma_nonzero_multiple_bounds_pow10(self.int_value as int, n as nat);
            }
            self.int_value * (self.ten_to_ten(n) as i64)
        }
    }

    /// The magnitude multiplied by ten to the power `n`, or `None` where the
    /// product does not fit in an `i64`.
    pub fn checked_multiply_power_ten(&self, n: u32) -> (product: Option<i64>)
        ensures
            product is Some <==> fits_i64(self.int_value * pow(10, n as nat)),
            product matches Some(value) ==> value == self.int_value * pow(10, n as nat),
    {
        if n == 0 || self.int_value == 0 {
            proof {
                lemma_pow0(10);
            }
            Some(self.int_value)
        } else if n > MAX_I64_POWER_OF_TEN {
            proof {
                if fits_i64(self.int_value * pow(10, n as nat)) {
                    lemma_nonzero_multiple_bounds_pow10(self.int_value as int, n as nat);
                }
            }
            None
        } else {
            proof {
                lemma_pow10_fits_i64(n as nat);
            }
            self.int_value.checked_mul(self.ten_to_ten(n) as i64)
        }
    }

    /// Ten to the power `n`, for every `n` whose power a `u64` can hold.
    pub fn ten_to_ten(&self, n: u32) -> (power: u64)
        requires
            n <= MAX_U64_POWER_OF_TEN,
        ensures
            power == pow(10, n as nat),
    {
        let mut power: u64 = 1;
        let mut exponent: u32 = 0;
        proof {
            lemma_pow0(10);
        }
        while exponent < n
            invariant
                exponent <= n <= MAX_U64_POWER_OF_TEN,
                power == pow(10, exponent as nat),
            decreases n - exponent,
        {
            proof {
                lemma_pow10_step(exponent as nat);
                lemma_pow10_fits_u64((exponent + 1) as nat);
            }
            power = power * 10;
            exponent = exponent + 1;
        }
        power
    }

    /// The same number with the opposite sign. Scale and precision are kept.
    pub fn negate(&self) -> (negated: BigDecimal)
        requires
            self.int_value != i64::MIN,
        ensures
            negated@ == self@.negated(),
            negated.int_value == -self.int_value,
            negated.scale == self.scale,
            negated.precision == self.precision,
    {
        BigDecimal { int_value: -self.int_value, precision: self.precision, scale: self.scale }
    }

    /// The same number with the opposite sign, or `None` for the one
    /// magnitude whose negation no `i64` holds.
    pub fn checked_negate(&self) -> (negated: Option<BigDecimal>)
        ensures
            negated is Some <==> self.int_value != i64::MIN,
            negated matches Some(decimal) ==> decimal@ == self@.negated(),
    {
        if self.int_value == i64::MIN {
            None
        } else {
            Some(self.negate())
        }
    }

    /// The decimal `int_value` with `scale` fractional digits, its precision
    /// counted from `int_value`.
    pub fn from_scaled(int_value: i64, scale: i32) -> (decimal: BigDecimal)
        ensures
            decimal.int_value == int_value,
            decimal.scale == scale,
            decimal@.precision_is_exact(),
    {
        BigDecimal { int_value, scale, precision: precision_of(int_value) }
    }
}

/// A difference that can be formed in 64-bit magnitudes never has the least
/// `i64` as the magnitude to take away: its negation alone is out of range.
pub proof fn lemma_can_subtract_excludes_least(minuend: &BigDecimal, subtrahend: &BigDecimal)
    requires
        minuend.can_subtract(subtrahend),
    ensures
        subtrahend.int_value != i64::MIN,
{
    let scale = max(minuend@.scale, subtrahend@.scale);
    let power = pow(10, (scale - subtrahend@.scale) as nat);
    lemma_pow_positive(10, (scale - subtrahend@.scale) as nat);
    if subtrahend.int_value == i64::MIN {
        assert(-(i64::MIN as int) * power > i64::MAX) by (nonlinear_arith)
            requires
                power >= 1,
        ;
    }
}

} // verus!
