//! The tetration evaluator: its mathematical model and its state.

use vstd::prelude::*;

verus! {

use vstd::arithmetic::power::pow;
use vstd::arithmetic::power::lemma_pow0;
use vstd::arithmetic::power::lemma_pow1;
use vstd::arithmetic::power::lemma_pow_positive;
use num_bigint::BigUint;
use crate::bignum::big_value;
use crate::bignum::big_from_u128;
use crate::bignum::big_to_u32;
use crate::bignum::big_pow;

/// The power tower `base^^height`, defined by `base^^0 == 1` and
/// `base^^n == base^(base^^(n - 1))`.
pub open spec fn tetration(base: nat, height: nat) -> nat
    decreases height,
{
    if height == 0 {
        1
    } else {
        pow(base as int, tetration(base, (height - 1) as nat)) as nat
    }
}

/// Holds when every accumulator that the evaluation of `base^^height`
/// narrows to the 32-bit exponent width actually fits it, i.e. when the
/// evaluation succeeds rather than overflowing.
pub open spec fn tet_fits(base: nat, height: nat) -> bool
    decreases height,
{
    height == 0 || (tet_fits(base, (height - 1) as nat)
        && tetration(base, (height - 1) as nat) <= u32::MAX)
}

/// The empty power tower is the multiplicative identity: for every base,
/// `base^^0 == 1`, and a height of zero never overflows.
pub proof fn lemma_tetration_height_zero(base: nat)
    ensures
        tet_fits(base, 0),
        tetration(base, 0) == 1,
{
}

/// A tower of height one is the base itself: for every base,
/// `base^^1 == base`, and a height of one never overflows.
pub proof fn lemma_tetration_height_one(base: nat)
    ensures
        tet_fits(base, 1),
        tetration(base, 1) == base,
{
    assert(tetration(base, 0) == 1);
    assert(tet_fits(base, 0));
    lemma_pow1(base as int);
    assert(tetration(base, 1) == pow(base as int, 1) as nat);
}

/// Every level reached before a tower that fits also fits: each narrowed
/// accumulator below the top of a tower that evaluates without overflow is
/// at most `u32::MAX`.
proof fn lemma_tet_fits_level(base: nat, level: nat, height: nat)
    requires
        level < height,
        tet_fits(base, height),
    ensures
        tet_fits(base, level),
        tetration(base, level) <= u32::MAX,
    decreases height,
{
    if level < height - 1 {
        lemma_tet_fits_level(base, level, (height - 1) as nat);
    }
}

/// A base of at least two strictly outgrows its exponent: `base^e > e`.
proof fn lemma_pow_exceeds_exponent(base: nat, e: nat)
    requires
        base >= 2,
    ensures
        pow(base as int, e) > e,
    decreases e,
{
    if e == 0 {
        lemma_pow0(base as int);
    } else {
        lemma_pow_exceeds_exponent(base, (e - 1) as nat);
        lemma_pow_positive(base as int, (e - 1) as nat);
        let p: int = pow(base as int, (e - 1) as nat);
        assert(pow(base as int, e) == base * p) by {
            reveal(pow);
        }
        assert(base * p >= 2 * p) by (nonlinear_arith)
            requires
                base >= 2,
                p >= 1,
        ;
    }
}

/// Growth of the tower: for a fixed base of at least two and a positive
/// height, one more level strictly increases the tower's value.
pub proof fn lemma_tetration_strictly_increases(base: nat, height: nat)
    requires
        base >= 2,
        height >= 1,
    ensures
        tetration(base, height + 1) > tetration(base, height),
{
    lemma_pow_exceeds_exponent(base, tetration(base, height));
    assert(tetration(base, height + 1)
        == pow(base as int, tetration(base, height)) as nat);
}

/// The evaluator's state: a base and a height, both mutable through the
/// accessors before a computation.
pub struct TetrationCalculator {
    pub base: u128,
    pub height: u128,
}

impl TetrationCalculator {
    /// A fresh calculator with the defaults: base 1, height 0.
    pub fn new() -> (r: Self)
        ensures
            r.base == 1u128,
            r.height == 0u128,
    {
        TetrationCalculator { base: 1, height: 0 }
    }

    /// Replaces the base; the height is untouched.
    pub fn set_base(&mut self, value: u128)
        ensures
            final(self).base == value,
            final(self).height == old(self).height,
    {
        self.base = value;
    }

    /// The current base.
    pub fn get_base(&self) -> (r: u128)
        ensures
            r == self.base,
    {
        self.base
    }

    /// Replaces the height; the base is untouched.
    pub fn set_height(&mut self, value: u128)
        ensures
            final(self).height == value,
            final(self).base == old(self).base,
    {
        self.height = value;
    }

    /// The current height.
    pub fn get_height(&self) -> (r: u128)
        ensures
            r == self.height,
    {
        self.height
    }

    /// Evaluates the tower `base^^height` exactly.
    ///
    /// The result is a function of the base and the height alone: it is
    /// `Some` exactly when every intermediate accumulator fits the 32-bit
    /// exponent width, and then holds exactly `tetration(base, height)`;
    /// otherwise the computation overflows and the result is `None`.
    pub fn calculate_tetration(&self) -> (r: Option<BigUint>)
        ensures
            r is Some <==> tet_fits(self.base as nat, self.height as nat),
            r is Some ==> big_value(r.unwrap())
                == tetration(self.base as nat, self.height as nat),
    {
        let ghost b: nat = self.base as nat;
        let ghost h: nat = self.height as nat;
        let mut tetration_result: BigUint = big_from_u128(1);
        let mut height: u128 = self.height;

        while height > 0
            invariant
                height <= self.height,
                b == self.base as nat,
                h == self.height as nat,
                tet_fits(b, (h - height) as nat),
                big_value(tetration_result) == tetration(b, (h - height) as nat),
            decreases height,
        {
            let ghost done: nat = (h - height) as nat;
            let exponent: u32 = match big_to_u32(&tetration_result) {
                Some(tet_result_u32) => tet_result_u32,
                None => {
                    proof {
                        if tet_fits(b, h) {
                            lemma_tet_fits_level(b, done, h);
                        }
                    }
                    return None;
                },
            };
            let base_as_bigint = big_from_u128(self.base);
            tetration_result = big_pow(&base_as_bigint, exponent);
            proof {
                assert(tetration(b, done + 1) == pow(b as int, tetration(b, done)) as nat);
            }
            height = height - 1;
        }
        Some(tetration_result)
    }
}

} // verus!
