//! Trusted view of the arbitrary-precision unsigned integers that the
//! evaluator accumulates in, and of the three operations it needs on them.

use vstd::prelude::*;

verus! {

use num_bigint::BigUint;
use num_traits::ToPrimitive;
use vstd::arithmetic::power::pow;

#[verifier::external_type_specification]
#[verifier::external_body]
pub struct ExBigUint(BigUint);

/// The non-negative integer that a `BigUint` holds.
pub uninterp spec fn big_value(b: BigUint) -> nat;

/// Relies on `<BigUint as From<u128>>::from`: the result holds exactly the
/// given value.
#[verifier::external_body]
pub(crate) fn big_from_u128(x: u128) -> (r: BigUint)
    ensures
        big_value(r) == x as nat,
{
    BigUint::from(x)
}

/// Relies on `num_traits::ToPrimitive::to_u32` for `BigUint`: `Some`
/// holding the value exactly when it fits a `u32`, `None` otherwise.
#[verifier::external_body]
pub(crate) fn big_to_u32(b: &BigUint) -> (r: Option<u32>)
    ensures
        r is Some <==> big_value(*b) <= u32::MAX,
        r is Some ==> r.unwrap() as nat == big_value(*b),
{
    b.to_u32()
}

/// Relies on `BigUint::pow`: exact exponentiation by a 32-bit exponent,
/// where a zero exponent yields one for every base, zero included.
#[verifier::external_body]
pub(crate) fn big_pow(b: &BigUint, exponent: u32) -> (r: BigUint)
    ensures
        big_value(r) == pow(big_value(*b) as int, exponent as nat) as nat,
{
    b.pow(exponent)
}

} // verus!
