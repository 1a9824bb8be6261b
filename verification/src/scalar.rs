//! Reals as the session carries them.
//!
//! A real is an IEEE-754 binary64 value held by its 64-bit pattern. The
//! session stores, copies and compares patterns and flips their sign bit; the
//! four rounding operations are the caller's, handed in as one function.

use vstd::prelude::*;

verus! {

/// The pattern of zero (0.0).
pub const ZERO: u64 = 0;

/// The pattern of one.
pub const ONE: u64 = 0x3FF0_0000_0000_0000;

/// The pattern of minus one.
pub const MINUS_ONE: u64 = 0xBFF0_0000_0000_0000;

/// The sign bit of a pattern.
pub const SIGN: u64 = 0x8000_0000_0000_0000;

/// The four binary operations that the caller's arithmetic provides.
#[derive(Clone, Copy, Debug, PartialEq, Eq, Structural)]
pub enum Operator {
    /// `a + b`
    Plus,
    /// `a - b`
    Minus,
    /// `a * b`
    Times,
    /// `a / b`
    Over,
}

/// `r` is a value that `arith` may return for `a op b`.
pub open spec fn computes<A: Fn(Operator, u64, u64) -> u64>(
    arith: A,
    op: Operator,
    a: u64,
    b: u64,
    r: u64,
) -> bool {
    call_ensures(arith, (op, a, b), r)
}

/// `arith` accepts every operator on every pair of patterns.
pub open spec fn total<A: Fn(Operator, u64, u64) -> u64>(arith: A) -> bool {
    forall|op: Operator, a: u64, b: u64| call_requires(arith, (op, a, b))
}

/// The pattern of `-x`: the same magnitude with the sign bit flipped.
pub open spec fn negated(x: u64) -> u64 {
    x ^ SIGN
}

/// Negates a real by flipping the sign bit of its pattern.
pub fn negate(x: u64) -> (r: u64)
    ensures
        r == negated(x),
{
    x ^ SIGN
}

/// Negating twice gives the pattern back, and minus one is the negation of one.
pub proof fn lemma_negated(x: u64)
    ensures
        negated(negated(x)) == x,
        negated(x) != x,
        negated(ONE) == MINUS_ONE,
        negated(MINUS_ONE) == ONE,
{
    assert((x ^ 0x8000_0000_0000_0000u64) ^ 0x8000_0000_0000_0000u64 == x) by (bit_vector);
    assert(x ^ 0x8000_0000_0000_0000u64 != x) by (bit_vector);
    assert(0x3FF0_0000_0000_0000u64 ^ 0x8000_0000_0000_0000u64 == 0xBFF0_0000_0000_0000u64)
        by (bit_vector);
    assert(0xBFF0_0000_0000_0000u64 ^ 0x8000_0000_0000_0000u64 == 0x3FF0_0000_0000_0000u64)
        by (bit_vector);
}

} // verus!
