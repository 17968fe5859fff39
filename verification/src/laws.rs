//! Laws of decimal arithmetic.
//!
//! Most are stated over the mathematical [`Decimal`]s by which the operations
//! of [`BigDecimal`] are specified, and so hold of magnitudes and scales of
//! any size. Since two values are equal exactly when their views are
//! ([`lemma_eq_is_structural`](crate::equality::lemma_eq_is_structural)),
//! each is a law about what the operations return; the laws that take
//! [`BigDecimal`]s say so outright.
use crate::decimal::BigDecimal;
use crate::digits::lemma_significant_digits_of_negation;
use crate::model::{lemma_negated_rescaled, Decimal};
use vstd::arithmetic::power::{lemma_pow0, lemma_pow1, lemma_pow_adds, pow};
use vstd::math::max;
use vstd::prelude::*;

verus! {

/// Scale alignment: the sum of a decimal and one of finer or equal scale has
/// the finer scale, and its magnitude is the coarser magnitude times ten to
/// the difference of the scales, plus the finer magnitude. This holds in
/// either order of the operands.
pub proof fn lemma_add_aligns_to_finer_scale(coarse: Decimal, fine: Decimal)
    requires
        coarse.scale <= fine.scale,
    ensures
        coarse.plus(fine).scale == fine.scale,
        coarse.plus(fine).magnitude == coarse.magnitude * pow(
            10,
            (fine.scale - coarse.scale) as nat,
        ) + fine.magnitude,
        fine.plus(coarse).scale == fine.scale,
        fine.plus(coarse).magnitude == fine.magnitude + coarse.magnitude * pow(
            10,
            (fine.scale - coarse.scale) as nat,
        ),
{
    lemma_pow0(10);
}

/// The sum of two decimals of one scale has that scale, and its magnitude is
/// the sum of their magnitudes.
pub proof fn lemma_add_at_equal_scale(a: Decimal, b: Decimal)
    requires
        a.scale == b.scale,
    ensures
        a.plus(b).scale == a.scale,
        a.plus(b).magnitude == a.magnitude + b.magnitude,
{
    lemma_pow0(10);
}

/// Addition is commutative: in either order the sum is the same decimal, and
/// it can be formed in 64-bit magnitudes in one order exactly when it can in
/// the other.
pub proof fn lemma_add_commutative(a: Decimal, b: Decimal)
    ensures
        a.plus(b) == b.plus(a),
        a.plus_fits_i64(b) == b.plus_fits_i64(a),
{
}

/// Two values can be added in one order exactly when they can in the other,
/// and the two sums are then equal, field by field.
pub proof fn lemma_add_commutative_on_values(
    a: BigDecimal,
    b: BigDecimal,
    a_plus_b: BigDecimal,
    b_plus_a: BigDecimal,
)
    requires
        a_plus_b@ == a@.plus(b@),
        b_plus_a@ == b@.plus(a@),
    ensures
        a.can_add(&b) == b.can_add(&a),
        a_plus_b == b_plus_a,
{
}

/// Negating twice gives the decimal back.
pub proof fn lemma_negate_involution(a: Decimal)
    ensures
        a.negated().negated() == a,
{
}

/// A value that can be negated can be negated again, and the second negation
/// is equal to the value itself, field by field.
pub proof fn lemma_negate_involution_on_values(
    a: BigDecimal,
    negated: BigDecimal,
    negated_twice: BigDecimal,
)
    requires
        a.int_value != i64::MIN,
        negated@ == a@.negated(),
        negated_twice@ == negated@.negated(),
    ensures
        negated.int_value != i64::MIN,
        negated_twice == a,
{
}

/// Subtraction is addition of the negated second operand.
pub proof fn lemma_subtract_is_add_negated(a: Decimal, b: Decimal)
    ensures
        a.minus(b) == a.plus(b.negated()),
{
}

/// A difference can be formed exactly when the second operand can be negated
/// and the first can be added to that negation; whatever the subtraction
/// returns is then equal to what the addition returns.
pub proof fn lemma_subtract_is_add_negated_on_values(
    a: BigDecimal,
    b: BigDecimal,
    negated_b: BigDecimal,
    difference: BigDecimal,
    sum: BigDecimal,
)
    requires
        b.int_value != i64::MIN,
        negated_b@ == b@.negated(),
        difference@ == a@.minus(b@),
        sum@ == a@.plus(negated_b@),
    ensures
        a.can_subtract(&b) == a.can_add(&negated_b),
        difference == sum,
{
}

/// The difference of two decimals has the finer of their scales, and its
/// magnitude is the difference of the magnitudes brought to that scale.
pub proof fn lemma_subtract_is_difference(a: Decimal, b: Decimal)
    ensures
        a.minus(b).scale == max(a.scale, b.scale),
        a.minus(b).magnitude == a.rescaled(max(a.scale, b.scale)) - b.rescaled(
            max(a.scale, b.scale),
        ),
{
    lemma_negated_rescaled(b, max(a.scale, b.scale));
}

/// The precision of a sum is the number of significant digits of its
/// magnitude, whatever precisions the operands recorded.
pub proof fn lemma_add_precision_is_exact(a: Decimal, b: Decimal)
    ensures
        a.plus(b).precision_is_exact(),
        a.minus(b).precision_is_exact(),
{
}

/// Negation keeps an exact precision exact.
pub proof fn lemma_negate_keeps_precision_exact(a: Decimal)
    requires
        a.precision_is_exact(),
    ensures
        a.negated().precision_is_exact(),
{
    lemma_significant_digits_of_negation(a.magnitude);
}

/// Addition is exact: at any scale that is at least as fine as both
/// operands, the rescaled sum is the sum of the rescaled operands.
pub proof fn lemma_add_is_exact(a: Decimal, b: Decimal, scale: int)
    requires
        scale >= a.scale,
        scale >= b.scale,
    ensures
        a.plus(b).rescaled(scale) == a.rescaled(scale) + b.rescaled(scale),
{
    let common = max(a.scale, b.scale);
    let up = pow(10, (scale - common) as nat);
    let power_a = pow(10, (common - a.scale) as nat);
    let power_b = pow(10, (common - b.scale) as nat);
    lemma_pow_adds(10, (common - a.scale) as nat, (scale - common) as nat);
    lemma_pow_adds(10, (common - b.scale) as nat, (scale - common) as nat);
    assert((a.magnitude * power_a + b.magnitude * power_b) * up == a.magnitude * (power_a * up)
        + b.magnitude * (power_b * up)) by (nonlinear_arith);
}

/// Equality is structural, not numeric: a decimal written with one more
/// fractional digit denotes the same number and is a different decimal.
pub proof fn lemma_same_number_at_finer_scale_differs(a: Decimal, finer: Decimal)
    requires
        finer.magnitude == a.magnitude * 10,
        finer.scale == a.scale + 1,
    ensures
        a.same_number(finer),
        a != finer,
{
    lemma_pow0(10);
    lemma_pow1(10);
}

} // verus!
