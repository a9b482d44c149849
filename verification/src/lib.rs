//! Exact tetration (iterated exponentiation) over non-negative integers.
//!
//! The evaluator repeatedly exponentiates an arbitrary-precision
//! accumulator; each step narrows the accumulator to a 32-bit exponent and
//! reports overflow when that narrowing fails.

pub mod bignum;
pub mod calculator;
