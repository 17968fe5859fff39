//! The mathematical decimal that a [`BigDecimal`](crate::BigDecimal) stands
//! for: the same three fields over unbounded integers, with the arithmetic
//! defined free of any machine limit.
use crate::digits::significant_digits;
use vstd::arithmetic::power::pow;
use vstd::math::max;
use vstd::prelude::*;

verus! {

/// A decimal over unbounded integers: `magnitude` with the decimal point
/// shifted `scale` digits to the left.
pub struct Decimal {
    /// The digits of the number, with the decimal point removed.
    pub magnitude: int,
    /// How many of those digits stand to the right of the decimal point.
    pub scale: int,
    /// The recorded count of significant digits.
    pub precision: int,
}

/// Whether `value` can be held in an `i64`.
pub open spec fn fits_i64(value: int) -> bool {
    i64::MIN <= value <= i64::MAX
}

impl Decimal {
    /// Whether the recorded precision is the number of significant digits of
    /// the magnitude.
    pub open spec fn precision_is_exact(self) -> bool {
        self.precision == significant_digits(self.magnitude)
    }

    /// The magnitude that denotes the same number at `scale`, which must not
    /// be coarser than the decimal's own scale: each further fractional digit
    /// multiplies the magnitude by ten.
    pub open spec fn rescaled(self, scale: int) -> int
        recommends
            scale >= self.scale,
    {
        self.magnitude * pow(10, (scale - self.scale) as nat)
    }

    /// Whether two decimals denote the same number: brought to the finer of
    /// their scales, their magnitudes agree.
    pub open spec fn same_number(self, other: Decimal) -> bool {
        let scale = max(self.scale, other.scale);
        self.rescaled(scale) == other.rescaled(scale)
    }

    /// The sum of two decimals, at the finer of their two scales, with its
    /// precision counted anew.
    pub open spec fn plus(self, other: Decimal) -> Decimal {
        let scale = max(self.scale, other.scale);
        let magnitude = self.rescaled(scale) + other.rescaled(scale);
        Decimal { magnitude, scale, precision: significant_digits(magnitude) }
    }

    /// The decimal with the opposite sign. Scale and precision are kept.
    pub open spec fn negated(self) -> Decimal {
        Decimal { magnitude: -self.magnitude, scale: self.scale, precision: self.precision }
    }

    /// The difference of two decimals: the sum of the first and the negated
    /// second.
    pub open spec fn minus(self, other: Decimal) -> Decimal {
        self.plus(other.negated())
    }

    /// Whether the sum can be formed in 64-bit magnitudes: both operands,
    /// brought to the finer scale, and their sum each fit in an `i64`.
    pub open spec fn plus_fits_i64(self, other: Decimal) -> bool {
        let scale = max(self.scale, other.scale);
        &&& fits_i64(self.rescaled(scale))
        &&& fits_i64(other.rescaled(scale))
        &&& fits_i64(self.plus(other).magnitude)
    }
}

/// Rescaling the negation of a decimal gives the negation of the rescaled
/// magnitude.
pub proof fn lemma_negated_rescaled(a: Decimal, scale: int)
    ensures
        a.negated().rescaled(scale) == -a.rescaled(scale),
{
    let power = pow(10, (scale - a.scale) as nat);
    assert((-a.magnitude) * power == -(a.magnitude * power)) by (nonlinear_arith);
}

} // verus!
