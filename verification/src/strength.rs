//! Strengths: the priority of a constraint or of an edit variable.
//!
//! A strength is a real, held by its pattern like every real of the session.
//! The named levels rise from [`WEAK`] to [`REQUIRED`]; a required constraint
//! is never relaxed.

use vstd::prelude::*;

verus! {

/// The pattern of 1.
pub const WEAK: u64 = 0x3FF0_0000_0000_0000;

/// The pattern of 1 000.
pub const MEDIUM: u64 = 0x408F_4000_0000_0000;

/// The pattern of 1 000 000.
pub const STRONG: u64 = 0x412E_8480_0000_0000;

/// The pattern of 1 001 001 000, the strength of a constraint that must hold.
pub const REQUIRED: u64 = 0x41CD_D508_1400_0000;

/// The pattern of `REQUIRED - 0.0001`, rounded as binary64 subtraction
/// rounds it: the strength that an edit variable gets when `REQUIRED` is
/// asked for.
pub const REQUIRED_EDIT: u64 = 0x41CD_D508_13FF_FCB9;

/// The strength under which an edit variable is registered when `s` is asked
/// for. An edit variable cannot be required, so exactly that strength is
/// lowered by `0.0001`; every other strength is used as given.
///
/// `REQUIRED` is finite and not zero, so a real equals it only if its pattern
/// does: comparing patterns is comparing values here.
pub open spec fn edit_strength_of(s: u64) -> u64 {
    if s == REQUIRED {
        REQUIRED_EDIT
    } else {
        s
    }
}

/// Computes [`edit_strength_of`]. The result is never `REQUIRED`.
pub fn edit_strength(s: u64) -> (r: u64)
    ensures
        r == edit_strength_of(s),
        r != REQUIRED,
{
    if s == REQUIRED {
        REQUIRED_EDIT
    } else {
        s
    }
}

} // verus!
