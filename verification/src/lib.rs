//! Exact fixed-point decimal numbers.
//!
//! A [`BigDecimal`] is an integer magnitude together with a scale, the number
//! of digits that stand to the right of the decimal point, and a precision,
//! the number of significant digits of the magnitude. Addition rescales the
//! coarser operand to the finer one before the magnitudes are summed, so no
//! digit is ever rounded away. Equality is structural: `1.9` and `1.90` are
//! different values.
//!
//! # Layout
//!
//! - [`decimal`]: the value type and its operations;
//! - [`equality`]: its `==`;
//! - [`model`]: the mathematical [`Decimal`] over unbounded integers, in
//!   whose terms every operation is specified;
//! - [`digits`]: counting significant digits;
//! - [`powers`]: the powers of ten within 64 bits;
//! - [`laws`]: what holds of the operations taken together.
//!
//! # Proving facts about given numbers
//!
//! The contracts speak of `vstd`'s `pow` and `log`, which the solver does not
//! unfold by itself. [`powers::lemma_pow10_values`] gives the powers of ten
//! that occur, and [`digits::lemma_significant_digits_from_bounds`] gives the
//! precision of a magnitude from the two powers of ten that enclose it.
pub mod decimal;
pub mod digits;
pub mod equality;
pub mod laws;
pub mod model;
pub mod powers;

pub use decimal::BigDecimal;
pub use model::Decimal;
