//! The session: a variable table and an expression stack, driven one
//! instruction at a time.
//!
//! Every instruction reports a status, `0` for success and a negative number
//! for each kind of failure. Where an instruction needs the solving engine, it
//! returns what has to be asked of it instead of asking itself.

use vstd::prelude::*;
use crate::algebra::{difference, divisible, multipliable, product, quotient, sum};
use crate::element::{El, ElView, Expression, Var};
use crate::engine::{Constraint, ConstraintView, Edit, Reading, Relation};
use crate::scalar::{total, Operator, ZERO};
use crate::strength::{edit_strength, edit_strength_of};

verus! {

/// The session: the caller's arithmetic, the variables allocated so far and
/// the expression stack.
pub struct State<A: Fn(Operator, u64, u64) -> u64> {
    arith: A,
    vars: Vec<Var>,
    stack: Vec<El>,
}

/// The value of a [`State`]: how many variables exist, and the stack from the
/// bottom up.
pub struct StateView {
    pub vars: nat,
    pub stack: Seq<ElView>,
}

impl StateView {
    /// The left operand of a binary operator: the element below the top.
    pub open spec fn left(self) -> ElView
        recommends
            self.stack.len() >= 2,
    {
        self.stack[self.stack.len() - 2]
    }

    /// The right operand of a binary operator: the top element.
    pub open spec fn right(self) -> ElView
        recommends
            self.stack.len() >= 2,
    {
        self.stack[self.stack.len() - 1]
    }

    /// The stack without its two topmost elements.
    pub open spec fn rest(self) -> Seq<ElView>
        recommends
            self.stack.len() >= 2,
    {
        self.stack.take(self.stack.len() - 2)
    }

    /// An id is valid when a variable was allocated under it.
    pub open spec fn valid(self, id: u32) -> bool {
        id < self.vars
    }

    /// The state of a session that was just made or reset.
    pub open spec fn fresh() -> StateView {
        StateView { vars: 0, stack: Seq::empty() }
    }

    /// The same variables over an empty stack.
    pub open spec fn cleared(self) -> StateView {
        StateView { vars: self.vars, stack: Seq::empty() }
    }

    /// The state with `el` pushed.
    pub open spec fn pushed(self, el: ElView) -> StateView {
        StateView { vars: self.vars, stack: self.stack.push(el) }
    }

    /// The state with one more variable.
    pub open spec fn grown(self) -> StateView {
        StateView { vars: self.vars + 1, stack: self.stack }
    }

    /// The id that the next allocation returns: the number of variables,
    /// cut to 32 bits.
    pub open spec fn next_id(self) -> u32 {
        self.vars as u32
    }

    /// The constraint that a relational instruction builds from a stack of
    /// exactly two elements: the lower one is the left side.
    pub open spec fn constraint(self, relation: Relation, strength: u64) -> ConstraintView
        recommends
            self.stack.len() == 2,
    {
        ConstraintView {
            left: self.stack[0].expression(),
            relation,
            right: self.stack[1].expression(),
            strength,
        }
    }

    /// `r` is what a relational instruction returns in this state: the
    /// constraint if the stack holds exactly two elements, else the status
    /// `-1`.
    pub open spec fn related(
        self,
        relation: Relation,
        strength: u64,
        r: Result<Constraint, i32>,
    ) -> bool {
        if self.stack.len() == 2 {
            r matches Ok(c) && c@ == self.constraint(relation, strength)
        } else {
            r == Err::<Constraint, i32>(-1i32)
        }
    }

    /// Where the value of `id` is read from: the engine for a valid id, a
    /// fixed zero for any other.
    pub open spec fn reading(self, id: u32) -> Reading {
        if self.valid(id) {
            Reading::Solved(Var(id as usize))
        } else {
            Reading::unknown()
        }
    }

    /// The first step of suggesting `value` for `id` at `strength`: nothing
    /// but the status `-1` for an invalid id, else the registration of the
    /// edit variable under the strength that an edit variable may have.
    pub open spec fn edit(self, id: u32, value: u64, strength: u64) -> Edit {
        if self.valid(id) {
            Edit::Register {
                variable: Var(id as usize),
                strength: edit_strength_of(strength),
                value,
            }
        } else {
            Edit::Done(-1i32)
        }
    }

    /// The state after a binary operator popped its operands and pushed `out`.
    pub open spec fn combined(self, out: ElView) -> StateView
        recommends
            self.stack.len() >= 2,
    {
        StateView { vars: self.vars, stack: self.rest().push(out) }
    }

    /// The state after a binary operator popped its operands and pushed nothing.
    pub open spec fn shortened(self) -> StateView
        recommends
            self.stack.len() >= 2,
    {
        StateView { vars: self.vars, stack: self.rest() }
    }
}

/// The values of the elements of a stack, from the bottom up.
pub open spec fn values(stack: Seq<El>) -> Seq<ElView> {
    Seq::new(stack.len(), |i: int| stack[i]@)
}

impl<A: Fn(Operator, u64, u64) -> u64> State<A> {
    /// The table maps each id to the variable of that index, and the
    /// arithmetic accepts every operation.
    pub closed spec fn wf(&self) -> bool {
        &&& total(self.arith)
        &&& forall|i: int| 0 <= i < self.vars@.len() ==> (#[trigger] self.vars@[i]).0 == i
    }

    /// The arithmetic that the session was made with.
    pub closed spec fn arithmetic(&self) -> A {
        self.arith
    }

    /// The number of variables and the values on the stack.
    pub closed spec fn view(&self) -> StateView {
        StateView { vars: self.vars@.len(), stack: values(self.stack@) }
    }

    /// An empty session over the given arithmetic.
    pub fn new(arith: A) -> (s: Self)
        requires
            total(arith),
        ensures
            s.wf(),
            s.arithmetic() == arith,
            s@ == StateView::fresh(),
    {
        let s = State { arith, vars: Vec::new(), stack: Vec::new() };
        assert(s@.stack =~= Seq::empty());
        s
    }

    /// The number of variables allocated since the session was made or reset.
    pub fn variables(&self) -> (n: usize)
        ensures
            n == self@.vars,
    {
        self.vars.len()
    }

    /// The stack, from the bottom up.
    pub fn stack(&self) -> (stack: &Vec<El>)
        ensures
            values(stack@) == self@.stack,
    {
        &self.stack
    }

    /// Forgets every variable and empties the stack. The engine has to be
    /// reset along with the session.
    pub fn reset(&mut self)
        requires
            old(self).wf(),
        ensures
            final(self).wf(),
            final(self).arithmetic() == old(self).arithmetic(),
            final(self)@ == StateView::fresh(),
    {
        self.vars.clear();
        self.stack.clear();
        assert(self@.stack =~= Seq::empty());
    }

    /// Allocates a variable and returns its id: the number of variables that
    /// existed before, so ids count up from zero.
    pub fn dim(&mut self) -> (id: u32)
        requires
            old(self).wf(),
        ensures
            final(self).wf(),
            final(self).arithmetic() == old(self).arithmetic(),
            final(self)@ == old(self)@.grown(),
            id == old(self)@.next_id(),
    {
        let id = self.vars.len();
        self.vars.push(Var(id));
        #[verifier::truncate]
        (id as u32)
    }

    /// The first step of suggesting the value `v` for the variable `id` at
    /// strength `s`. The session itself does not change.
    pub fn suggest(&self, id: u32, v: u64, s: u64) -> (step: Edit)
        requires
            self.wf(),
        ensures
            step == self@.edit(id, v, s),
    {
        let id = id as usize;
        if id >= self.vars.len() {
            return Edit::Done(-1);
        }
        let s = edit_strength(s);
        Edit::Register { variable: self.vars[id], strength: s, value: v }
    }

    /// Where the value of the variable `id` is read from. An invalid id is no
    /// error: its value is zero.
    pub fn get_var(&self, id: u32) -> (r: Reading)
        requires
            self.wf(),
        ensures
            r == self@.reading(id),
    {
        let id = id as usize;
        if id >= self.vars.len() {
            return Reading::Fixed(ZERO);
        }
        Reading::Solved(self.vars[id])
    }

    /// Pushes the variable `id`. With an invalid id nothing is pushed and the
    /// status is `-1`; otherwise the status is `0`.
    pub fn p_var(&mut self, id: u32) -> (code: i32)
        requires
            old(self).wf(),
        ensures
            final(self).wf(),
            final(self).arithmetic() == old(self).arithmetic(),
            !old(self)@.valid(id) ==> code == -1 && final(self)@ == old(self)@,
            old(self)@.valid(id) ==> code == 0 && final(self)@ == old(self)@.pushed(
                ElView::V(Var(id as usize)),
            ),
    {
        let id = id as usize;
        if id >= self.vars.len() {
            return -1;
        }
        self.stack.push(El::V(self.vars[id]));
        assert(self@.stack =~= old(self)@.stack.push(ElView::V(Var(id))));
        return 0;
    }

    /// Pushes the number `v`. Always succeeds with `0`.
    pub fn p_const(&mut self, v: u64) -> (code: i32)
        requires
            old(self).wf(),
        ensures
            final(self).wf(),
            final(self).arithmetic() == old(self).arithmetic(),
            code == 0,
            final(self)@ == old(self)@.pushed(ElView::N(v)),
    {
        self.stack.push(El::N(v));
        assert(self@.stack =~= old(self)@.stack.push(ElView::N(v)));
        return 0;
    }

    /// Builds the constraint of a relational instruction and empties the
    /// stack, whatever it held.
    fn relate(&mut self, relation: Relation, s: u64) -> (r: Result<Constraint, i32>)
        requires
            old(self).wf(),
        ensures
            final(self).wf(),
            final(self).arithmetic() == old(self).arithmetic(),
            final(self)@ == old(self)@.cleared(),
            old(self)@.related(relation, s, r),
    {
        if self.stack.len() != 2 {
            self.stack.clear();
            assert(self@.stack =~= Seq::empty());
            return Err(-1);
        }
        let right = Expression::from(self.stack.pop().unwrap());
        let left = Expression::from(self.stack.pop().unwrap());
        self.stack.clear();
        assert(self@.stack =~= Seq::empty());
        Ok(Constraint { left, relation, right, strength: s })
    }

    /// Turns a stack of exactly two elements into the constraint `lower ==
    /// upper` of strength `s`. The stack is empty afterwards in every case;
    /// with any other number of elements the result is the status `-1`.
    pub fn op_eq(&mut self, s: u64) -> (r: Result<Constraint, i32>)
        requires
            old(self).wf(),
        ensures
            final(self).wf(),
            final(self).arithmetic() == old(self).arithmetic(),
            final(self)@ == old(self)@.cleared(),
            old(self)@.related(Relation::Equal, s, r),
    {
        self.relate(Relation::Equal, s)
    }

    /// Turns a stack of exactly two elements into the constraint `lower <=
    /// upper` of strength `s`. The stack is empty afterwards in every case;
    /// with any other number of elements the result is the status `-1`.
    pub fn op_lte(&mut self, s: u64) -> (r: Result<Constraint, i32>)
        requires
            old(self).wf(),
        ensures
            final(self).wf(),
            final(self).arithmetic() == old(self).arithmetic(),
            final(self)@ == old(self)@.cleared(),
            old(self)@.related(Relation::LessOrEqual, s, r),
    {
        self.relate(Relation::LessOrEqual, s)
    }

    /// Turns a stack of exactly two elements into the constraint `lower >=
    /// upper` of strength `s`. The stack is empty afterwards in every case;
    /// with any other number of elements the result is the status `-1`.
    pub fn op_gte(&mut self, s: u64) -> (r: Result<Constraint, i32>)
        requires
            old(self).wf(),
        ensures
            final(self).wf(),
            final(self).arithmetic() == old(self).arithmetic(),
            final(self)@ == old(self)@.cleared(),
            old(self)@.related(Relation::GreaterOrEqual, s, r),
    {
        self.relate(Relation::GreaterOrEqual, s)
    }

    /// Takes the two operands of a binary operator off the stack, left
    /// operand first in the result.
    fn operands(&mut self) -> (lr: (El, El))
        requires
            old(self).wf(),
            old(self)@.stack.len() >= 2,
        ensures
            final(self).wf(),
            final(self).arithmetic() == old(self).arithmetic(),
            final(self)@ == old(self)@.shortened(),
            lr.0@ == old(self)@.left(),
            lr.1@ == old(self)@.right(),
    {
        let r = self.stack.pop().unwrap();
        let l = self.stack.pop().unwrap();
        assert(self@.stack =~= old(self)@.rest());
        (l, r)
    }

    /// Replaces the two topmost elements by their sum.
    ///
    /// With fewer than two elements the stack is left as it is and the status
    /// is `-1`. Otherwise the status is `0`.
    pub fn op_add(&mut self) -> (code: i32)
        requires
            old(self).wf(),
        ensures
            final(self).wf(),
            final(self).arithmetic() == old(self).arithmetic(),
            old(self)@.stack.len() < 2 ==> code == -1 && final(self)@ == old(self)@,
            old(self)@.stack.len() >= 2 ==> code == 0 && final(self)@ == old(self)@.combined(
                final(self)@.stack.last(),
            ) && sum(
                old(self).arithmetic(),
                old(self)@.left(),
                old(self)@.right(),
                final(self)@.stack.last(),
            ),
    {
        if self.stack.len() < 2 {
            return -1;
        }
        let (l, r) = self.operands();
        let v = l.plus(r, &self.arith);
        self.stack.push(v);
        assert(self@.stack =~= old(self)@.rest().push(v@));
        assert(self@ == old(self)@.combined(v@));
        return 0;
    }

    /// Replaces the two topmost elements by their difference, the lower one
    /// minus the top one.
    ///
    /// With fewer than two elements the stack is left as it is and the status
    /// is `-1`. Otherwise the status is `0`.
    pub fn op_sub(&mut self) -> (code: i32)
        requires
            old(self).wf(),
        ensures
            final(self).wf(),
            final(self).arithmetic() == old(self).arithmetic(),
            old(self)@.stack.len() < 2 ==> code == -1 && final(self)@ == old(self)@,
            old(self)@.stack.len() >= 2 ==> code == 0 && final(self)@ == old(self)@.combined(
                final(self)@.stack.last(),
            ) && difference(
                old(self).arithmetic(),
                old(self)@.left(),
                old(self)@.right(),
                final(self)@.stack.last(),
            ),
    {
        if self.stack.len() < 2 {
            return -1;
        }
        let (l, r) = self.operands();
        let v = l.minus(r, &self.arith);
        self.stack.push(v);
        assert(self@.stack =~= old(self)@.rest().push(v@));
        assert(self@ == old(self)@.combined(v@));
        return 0;
    }

    /// Replaces the two topmost elements by their product.
    ///
    /// With fewer than two elements the stack is left as it is and the status
    /// is `-1`. When neither operand is a number, both are gone, nothing is
    /// pushed and the status is `-2`. Otherwise the status is `0`.
    pub fn op_mul(&mut self) -> (code: i32)
        requires
            old(self).wf(),
        ensures
            final(self).wf(),
            final(self).arithmetic() == old(self).arithmetic(),
            old(self)@.stack.len() < 2 ==> code == -1 && final(self)@ == old(self)@,
            old(self)@.stack.len() >= 2 && !multipliable(old(self)@.left(), old(self)@.right())
                ==> code == -2 && final(self)@ == old(self)@.shortened(),
            old(self)@.stack.len() >= 2 && multipliable(old(self)@.left(), old(self)@.right())
                ==> code == 0 && final(self)@ == old(self)@.combined(final(self)@.stack.last())
                && product(
                old(self).arithmetic(),
                old(self)@.left(),
                old(self)@.right(),
                final(self)@.stack.last(),
            ),
    {
        if self.stack.len() < 2 {
            return -1;
        }
        let (l, r) = self.operands();
        let v = match l.times(r, &self.arith) {
            Some(v) => v,
            None => return -2,
        };
        self.stack.push(v);
        assert(self@.stack =~= old(self)@.rest().push(v@));
        assert(self@ == old(self)@.combined(v@));
        return 0;
    }

    /// Replaces the two topmost elements by their quotient, the lower one
    /// divided by the top one.
    ///
    /// With fewer than two elements the stack is left as it is and the status
    /// is `-1`. When the divisor is not a number, both operands are gone,
    /// nothing is pushed and the status is `-2`. Otherwise the status is `0`.
    pub fn op_div(&mut self) -> (code: i32)
        requires
            old(self).wf(),
        ensures
            final(self).wf(),
            final(self).arithmetic() == old(self).arithmetic(),
            old(self)@.stack.len() < 2 ==> code == -1 && final(self)@ == old(self)@,
            old(self)@.stack.len() >= 2 && !divisible(old(self)@.left(), old(self)@.right())
                ==> code == -2 && final(self)@ == old(self)@.shortened(),
            old(self)@.stack.len() >= 2 && divisible(old(self)@.left(), old(self)@.right())
                ==> code == 0 && final(self)@ == old(self)@.combined(final(self)@.stack.last())
                && quotient(
                old(self).arithmetic(),
                old(self)@.left(),
                old(self)@.right(),
                final(self)@.stack.last(),
            ),
    {
        if self.stack.len() < 2 {
            return -1;
        }
        let (l, r) = self.operands();
        let v = match l.over(r, &self.arith) {
            Some(v) => v,
            None => return -2,
        };
        self.stack.push(v);
        assert(self@.stack =~= old(self)@.rest().push(v@));
        assert(self@ == old(self)@.combined(v@));
        return 0;
    }
}

} // verus!
