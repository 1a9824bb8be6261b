//! What the session asks of the solving engine, and what it makes of the
//! engine's answers.
//!
//! The session never holds the engine. An instruction that needs it returns a
//! request; the caller puts the request to the engine and tells the session
//! whether the engine accepted it.

use vstd::prelude::*;
use crate::element::{Expression, ExpressionView, Var};
use crate::scalar::ZERO;

verus! {

/// How the two sides of a constraint are related.
#[derive(Clone, Copy, Debug, PartialEq, Eq, Structural)]
pub enum Relation {
    /// `left == right`
    Equal,
    /// `left <= right`
    LessOrEqual,
    /// `left >= right`
    GreaterOrEqual,
}

/// `left relation right`, to be registered with the engine at `strength`.
#[derive(Clone, Debug, PartialEq, Eq)]
pub struct Constraint {
    pub left: Expression,
    pub relation: Relation,
    pub right: Expression,
    pub strength: u64,
}

/// The value of a [`Constraint`].
pub struct ConstraintView {
    pub left: ExpressionView,
    pub relation: Relation,
    pub right: ExpressionView,
    pub strength: u64,
}

impl View for Constraint {
    type V = ConstraintView;

    open spec fn view(&self) -> ConstraintView {
        ConstraintView {
            left: self.left@,
            relation: self.relation,
            right: self.right@,
            strength: self.strength,
        }
    }
}

impl Constraint {
    /// The status of a relational instruction once the engine has answered:
    /// `0` if it took the constraint, `-2` if it refused it.
    pub fn status(accepted: bool) -> (code: i32)
        ensures
            code == (if accepted { 0i32 } else { -2i32 }),
    {
        if accepted {
            0
        } else {
            -2
        }
    }
}

/// One step of suggesting a value for a variable.
#[derive(Clone, Copy, Debug, PartialEq, Eq, Structural)]
pub enum Edit {
    /// Register `variable` as an edit variable of the given `strength`; the
    /// `value` is submitted afterwards.
    Register { variable: Var, strength: u64, value: u64 },
    /// Submit `value` as the suggestion for `variable`.
    Submit { variable: Var, value: u64 },
    /// Nothing is left to ask; the status of the instruction.
    Done(i32),
}

impl Edit {
    /// The step that follows `self` once the engine has answered it.
    ///
    /// A refused registration ends with `-2` and nothing is submitted; an
    /// accepted one is followed by the submission. A refused submission ends
    /// with `-3`, an accepted one with `0`. A finished step stays as it is.
    pub open spec fn after(self, accepted: bool) -> Edit {
        match self {
            Edit::Register { variable, strength, value } => if accepted {
                Edit::Submit { variable, value }
            } else {
                Edit::Done(-2i32)
            },
            Edit::Submit { variable, value } => if accepted {
                Edit::Done(0i32)
            } else {
                Edit::Done(-3i32)
            },
            Edit::Done(code) => self,
        }
    }

    /// Computes [`Edit::after`].
    pub fn answered(self, accepted: bool) -> (next: Edit)
        ensures
            next == self.after(accepted),
    {
        match self {
            Edit::Register { variable, strength, value } => if accepted {
                Edit::Submit { variable, value }
            } else {
                Edit::Done(-2)
            },
            Edit::Submit { variable, value } => if accepted {
                Edit::Done(0)
            } else {
                Edit::Done(-3)
            },
            Edit::Done(code) => Edit::Done(code),
        }
    }
}

/// Where the value of a variable is read from.
#[derive(Clone, Copy, Debug, PartialEq, Eq, Structural)]
pub enum Reading {
    /// The value is this pattern; the engine is not asked.
    Fixed(u64),
    /// The value is what the engine currently holds for this variable.
    Solved(Var),
}

impl Reading {
    /// The reading of an id under which no variable exists: zero.
    pub open spec fn unknown() -> Reading {
        Reading::Fixed(ZERO)
    }
}

} // verus!
