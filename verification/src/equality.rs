//! Equality of decimals, which is structural: two values are equal when all
//! three fields agree, not when they denote the same number.
use crate::decimal::BigDecimal;
use vstd::prelude::*;
use vstd::std_specs::cmp::PartialEqSpec;

verus! {

impl PartialEq for BigDecimal {
    /// Whether magnitude, precision and scale all agree.
    fn eq(&self, other: &BigDecimal) -> (equal: bool) {
        self.int_value == other.int_value && self.precision == other.precision && self.scale
            == other.scale
    }
}

impl vstd::std_specs::cmp::PartialEqSpecImpl for BigDecimal {
    open spec fn obeys_eq_spec() -> bool {
        true
    }

    open spec fn eq_spec(&self, other: &BigDecimal) -> bool {
        &&& self.int_value == other.int_value
        &&& self.precision == other.precision
        &&& self.scale == other.scale
    }
}

/// The `==` of two values holds exactly when the values are the same field
/// by field, and that is exactly when they stand for the same mathematical
/// decimal: a law about views is a law about values.
pub proof fn lemma_eq_is_structural(a: BigDecimal, b: BigDecimal)
    ensures
        a.eq_spec(&b) <==> a == b,
        a@ == b@ <==> a == b,
{
}

} // verus!
