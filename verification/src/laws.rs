//! What holds of the session across instructions.

use vstd::prelude::*;
use crate::element::{ElView, Var};
use crate::engine::{Edit, Reading};
use crate::scalar::ZERO;
use crate::session::StateView;
use crate::strength::{edit_strength_of, REQUIRED, REQUIRED_EDIT};

verus! {

/// The state after `k` more allocations.
pub open spec fn allocated(s: StateView, k: nat) -> StateView
    decreases k,
{
    if k == 0 {
        s
    } else {
        allocated(s, (k - 1) as nat).grown()
    }
}

/// Allocating changes nothing but the number of variables, which rises by
/// one each time.
pub proof fn lemma_allocated(s: StateView, k: nat)
    ensures
        allocated(s, k).vars == s.vars + k,
        allocated(s, k).stack == s.stack,
    decreases k,
{
    if k > 0 {
        lemma_allocated(s, (k - 1) as nat);
    }
}

/// Successive allocations return successive ids: in a session that holds
/// `n` variables, the allocation that follows `k` others returns `n + k`, as
/// long as that number fits an id. In a session that was just made or reset
/// the ids are therefore 0, 1, 2 and so on.
pub proof fn ids_count_up(s: StateView, k: nat)
    requires
        s.vars + k <= u32::MAX,
    ensures
        allocated(s, k).next_id() == s.vars + k,
        s == StateView::fresh() ==> allocated(s, k).next_id() == k,
{
    lemma_allocated(s, k);
}

/// A reset leaves no variable behind: every id is invalid afterwards, and the
/// next allocation starts again at zero.
pub proof fn reset_forgets_ids(id: u32)
    ensures
        !StateView::fresh().valid(id),
        StateView::fresh().next_id() == 0,
        StateView::fresh().stack.len() == 0,
{
}

/// The value of an id under which no variable exists is read as exactly
/// zero, and the engine is not asked. No instruction but an allocation can
/// change that: pushing, combining, dropping operands and building a
/// constraint leave the number of variables as it is.
pub proof fn unknown_id_reads_zero(s: StateView, id: u32, el: ElView)
    requires
        id >= s.vars,
    ensures
        s.reading(id) == Reading::Fixed(ZERO),
        s.cleared().reading(id) == Reading::Fixed(ZERO),
        s.pushed(el).reading(id) == Reading::Fixed(ZERO),
        s.combined(el).reading(id) == Reading::Fixed(ZERO),
        s.shortened().reading(id) == Reading::Fixed(ZERO),
{
}

/// After a reset every id reads as zero, whatever was allocated or solved
/// before.
pub proof fn reset_reads_zero(id: u32)
    ensures
        StateView::fresh().reading(id) == Reading::Fixed(ZERO),
{
}

/// An edit variable is never registered as required: where `REQUIRED` is
/// asked for, the registration carries `REQUIRED_EDIT`, and any other
/// strength is passed on as given.
pub proof fn edit_is_never_required(s: StateView, id: u32, value: u64, strength: u64)
    ensures
        edit_strength_of(REQUIRED) == REQUIRED_EDIT,
        edit_strength_of(strength) != REQUIRED,
        strength != REQUIRED ==> edit_strength_of(strength) == strength,
        s.edit(id, value, strength) matches Edit::Register { strength: registered, .. }
            ==> registered != REQUIRED,
{
}

/// A suggestion for a valid id asks the engine for two things in turn, and
/// its status tells which of them the engine refused: `-2` for the
/// registration, after which nothing is submitted, `-3` for the submission,
/// `0` for neither. For an invalid id the engine is asked nothing and the
/// status is `-1`, whatever it would have answered.
pub proof fn suggestion_statuses(s: StateView, id: u32, value: u64, strength: u64, accepted: bool)
    ensures
        s.valid(id) ==> {
            let first = s.edit(id, value, strength);
            &&& first.after(false) == Edit::Done(-2i32)
            &&& first.after(true) == Edit::Submit { variable: Var(id as usize), value }
            &&& first.after(true).after(false) == Edit::Done(-3i32)
            &&& first.after(true).after(true) == Edit::Done(0i32)
        },
        !s.valid(id) ==> s.edit(id, value, strength).after(accepted) == Edit::Done(-1i32),
{
}

/// The stack is empty after a relational instruction, whether it built a
/// constraint or failed, and the variables are the same as before.
pub proof fn relation_empties_stack(s: StateView)
    ensures
        s.cleared().stack.len() == 0,
        s.cleared().vars == s.vars,
{
}

/// A product or quotient that fails on its operands leaves the stack exactly
/// two elements shorter: the operands are gone, everything below them is as
/// it was.
pub proof fn mismatch_drops_two(s: StateView)
    requires
        s.stack.len() >= 2,
    ensures
        s.shortened().stack.len() == s.stack.len() - 2,
        forall|i: int| 0 <= i < s.stack.len() - 2 ==> s.shortened().stack[i] == s.stack[i],
        s.shortened().vars == s.vars,
{
}

/// A successful binary operator leaves the stack exactly one element shorter:
/// the result stands where the left operand stood.
pub proof fn operator_drops_one(s: StateView, out: ElView)
    requires
        s.stack.len() >= 2,
    ensures
        s.combined(out).stack.len() == s.stack.len() - 1,
        s.combined(out).stack.last() == out,
        forall|i: int| 0 <= i < s.stack.len() - 2 ==> s.combined(out).stack[i] == s.stack[i],
{
}

} // verus!
