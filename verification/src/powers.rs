//! Facts about the powers of ten that scale alignment multiplies by.
use vstd::arithmetic::power::{lemma_pow_increases, lemma_pow_positive, pow};
use vstd::prelude::*;

verus! {

/// The largest exponent `n` for which ten to the `n` fits in a `u64`.
pub const MAX_U64_POWER_OF_TEN: u32 = 19;

/// The largest exponent `n` for which ten to the `n` fits in an `i64`.
pub const MAX_I64_POWER_OF_TEN: u32 = 18;

/// Each power of ten is ten times the one before it.
pub proof fn lemma_pow10_step(n: nat)
    ensures
        pow(10, n + 1) == 10 * pow(10, n),
{
    reveal(pow);
}

/// The powers of ten that a 64-bit magnitude can meet, written out, and the
/// first one that no `u64` holds.
pub proof fn lemma_pow10_values()
    ensures
        pow(10, 0) == 1,
        pow(10, 1) == 10,
        pow(10, 2) == 100,
        pow(10, 3) == 1_000,
        pow(10, 4) == 10_000,
        pow(10, 5) == 100_000,
        pow(10, 6) == 1_000_000,
        pow(10, 7) == 10_000_000,
        pow(10, 8) == 100_000_000,
        pow(10, 9) == 1_000_000_000,
        pow(10, 10) == 10_000_000_000,
        pow(10, 11) == 100_000_000_000,
        pow(10, 12) == 1_000_000_000_000,
        pow(10, 13) == 10_000_000_000_000,
        pow(10, 14) == 100_000_000_000_000,
        pow(10, 15) == 1_000_000_000_000_000,
        pow(10, 16) == 10_000_000_000_000_000,
        pow(10, 17) == 100_000_000_000_000_000,
        pow(10, 18) == 1_000_000_000_000_000_000,
        pow(10, 19) == 10_000_000_000_000_000_000,
        pow(10, 20) == 100_000_000_000_000_000_000,
{
    reveal(pow);
    lemma_pow10_step(0);
    lemma_pow10_step(1);
    lemma_pow10_step(2);
    lemma_pow10_step(3);
    lemma_pow10_step(4);
    lemma_pow10_step(5);
    lemma_pow10_step(6);
    lemma_pow10_step(7);
    lemma_pow10_step(8);
    lemma_pow10_step(9);
    lemma_pow10_step(10);
    lemma_pow10_step(11);
    lemma_pow10_step(12);
    lemma_pow10_step(13);
    lemma_pow10_step(14);
    lemma_pow10_step(15);
    lemma_pow10_step(16);
    lemma_pow10_step(17);
    lemma_pow10_step(18);
    lemma_pow10_step(19);
}

/// Ten to the `n` fits in a `u64` exactly when `n` is at most
/// [`MAX_U64_POWER_OF_TEN`].
pub proof fn lemma_pow10_fits_u64(n: nat)
    ensures
        pow(10, n) <= u64::MAX <==> n <= MAX_U64_POWER_OF_TEN,
{
    lemma_pow10_values();
    if n <= 19 {
        lemma_pow_increases(10, n, 19);
    } else {
        lemma_pow_increases(10, 20, n);
    }
}

/// Ten to the `n` fits in an `i64` exactly when `n` is at most
/// [`MAX_I64_POWER_OF_TEN`].
pub proof fn lemma_pow10_fits_i64(n: nat)
    ensures
        pow(10, n) <= i64::MAX <==> n <= MAX_I64_POWER_OF_TEN,
{
    lemma_pow10_values();
    if n <= 18 {
        lemma_pow_increases(10, n, 18);
    } else {
        lemma_pow_increases(10, 19, n);
    }
}

/// A nonzero integer times ten to the `n` is at least ten to the `n` in
/// absolute value, so the product fits in an `i64` only if the power does.
pub proof fn lemma_nonzero_multiple_bounds_pow10(factor: int, n: nat)
    requires
        factor != 0,
        i64::MIN <= factor * pow(10, n) <= i64::MAX,
    ensures
        n <= MAX_I64_POWER_OF_TEN,
        pow(10, n) <= i64::MAX,
{
    lemma_pow_positive(10, n);
    let power = pow(10, n);
    assert(power <= factor * power || power <= -(factor * power)) by (nonlinear_arith)
        requires
            factor != 0,
            power > 0,
    ;
    lemma_pow10_values();
    if n >= 19 {
        lemma_pow_increases(10, 19, n);
    }
    lemma_pow10_fits_i64(n);
}

} // verus!
