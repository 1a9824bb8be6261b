//! What a stack slot can hold: a number, a variable, a term or an expression.

use vstd::prelude::*;
use crate::scalar::{lemma_negated, negate, negated, MINUS_ONE, ONE, ZERO};

verus! {

/// A variable of the session, known by the index under which it was allocated.
#[derive(Clone, Copy, Debug, PartialEq, Eq, Hash, Structural)]
pub struct Var(pub usize);

/// `coefficient * variable`.
#[derive(Clone, Copy, Debug, PartialEq, Eq, Structural)]
pub struct Term {
    pub variable: Var,
    pub coefficient: u64,
}

/// `constant + sum of terms`. Terms of one variable may occur several times
/// and stay in the order in which they were added.
#[derive(Clone, Debug, PartialEq, Eq)]
pub struct Expression {
    pub terms: Vec<Term>,
    pub constant: u64,
}

/// The value of an [`Expression`].
pub struct ExpressionView {
    pub terms: Seq<Term>,
    pub constant: u64,
}

/// One slot of the stack.
#[derive(Clone, Debug, PartialEq, Eq)]
pub enum El {
    E(Expression),
    T(Term),
    V(Var),
    N(u64),
}

/// The value of an [`El`].
pub enum ElView {
    E(ExpressionView),
    T(Term),
    V(Var),
    N(u64),
}

impl Term {
    /// The term `1 * variable`.
    pub open spec fn unit_of(variable: Var) -> Term {
        Term { variable, coefficient: ONE }
    }

    /// The term with the opposite coefficient.
    pub open spec fn negated(self) -> Term {
        Term { variable: self.variable, coefficient: negated(self.coefficient) }
    }

    /// Builds `1 * variable`.
    pub fn unit(variable: Var) -> (t: Term)
        ensures
            t == Term::unit_of(variable),
    {
        Term { variable, coefficient: ONE }
    }

    /// Builds `-1 * variable`.
    pub fn minus_unit(variable: Var) -> (t: Term)
        ensures
            t == Term::unit_of(variable).negated(),
    {
        proof {
            lemma_negated(ONE);
        }
        Term { variable, coefficient: MINUS_ONE }
    }

    /// Builds `-self`.
    pub fn negate(self) -> (t: Term)
        ensures
            t == self.negated(),
    {
        Term { variable: self.variable, coefficient: negate(self.coefficient) }
    }
}

/// Every term of `terms` with the opposite coefficient, in the same order.
pub open spec fn negated_terms(terms: Seq<Term>) -> Seq<Term> {
    Seq::new(terms.len(), |i: int| terms[i].negated())
}

impl ExpressionView {
    /// The expression with the opposite constant and opposite coefficients.
    pub open spec fn negated(self) -> ExpressionView {
        ExpressionView { terms: negated_terms(self.terms), constant: negated(self.constant) }
    }
}

impl View for Expression {
    type V = ExpressionView;

    open spec fn view(&self) -> ExpressionView {
        ExpressionView { terms: self.terms@, constant: self.constant }
    }
}

impl View for El {
    type V = ElView;

    open spec fn view(&self) -> ElView {
        match *self {
            El::E(e) => ElView::E(e@),
            El::T(t) => ElView::T(t),
            El::V(v) => ElView::V(v),
            El::N(n) => ElView::N(n),
        }
    }
}

impl From<Expression> for El {
    fn from(v: Expression) -> (el: El) {
        El::E(v)
    }
}

impl vstd::std_specs::convert::FromSpecImpl<Expression> for El {
    open spec fn obeys_from_spec() -> bool {
        true
    }

    open spec fn from_spec(v: Expression) -> El {
        El::E(v)
    }
}

impl From<Term> for El {
    fn from(v: Term) -> (el: El) {
        El::T(v)
    }
}

impl vstd::std_specs::convert::FromSpecImpl<Term> for El {
    open spec fn obeys_from_spec() -> bool {
        true
    }

    open spec fn from_spec(v: Term) -> El {
        El::T(v)
    }
}

impl From<Var> for El {
    fn from(v: Var) -> (el: El) {
        El::V(v)
    }
}

impl vstd::std_specs::convert::FromSpecImpl<Var> for El {
    open spec fn obeys_from_spec() -> bool {
        true
    }

    open spec fn from_spec(v: Var) -> El {
        El::V(v)
    }
}

impl From<u64> for El {
    fn from(v: u64) -> (el: El) {
        El::N(v)
    }
}

impl vstd::std_specs::convert::FromSpecImpl<u64> for El {
    open spec fn obeys_from_spec() -> bool {
        true
    }

    open spec fn from_spec(v: u64) -> El {
        El::N(v)
    }
}

impl ElView {
    /// The terms that the element contributes to a sum: its own for an
    /// expression, itself for a term, `1 * v` for a variable, none for a number.
    pub open spec fn terms(self) -> Seq<Term> {
        match self {
            ElView::E(e) => e.terms,
            ElView::T(t) => seq![t],
            ElView::V(v) => seq![Term::unit_of(v)],
            ElView::N(_) => Seq::empty(),
        }
    }

    /// The constant that the element carries, for an expression or a number.
    pub open spec fn constant(self) -> Option<u64> {
        match self {
            ElView::E(e) => Some(e.constant),
            ElView::N(n) => Some(n),
            _ => None,
        }
    }

    /// The element widened to an expression; a missing constant is zero.
    pub open spec fn expression(self) -> ExpressionView {
        ExpressionView {
            terms: self.terms(),
            constant: match self.constant() {
                Some(c) => c,
                None => ZERO,
            },
        }
    }
}

impl Expression {
    /// Builds the expression `constant + sum of terms`.
    pub fn new(terms: Vec<Term>, constant: u64) -> (e: Expression)
        ensures
            e@ == (ExpressionView { terms: terms@, constant }),
    {
        Expression { terms, constant }
    }

    /// Widens an element to an expression without changing its value: a
    /// number becomes the constant, a variable the term `1 * v`, a term the
    /// only term, and an expression stays as it is.
    pub fn from(el: El) -> (e: Expression)
        ensures
            e@ == el@.expression(),
    {
        match el {
            El::E(v) => v,
            El::T(v) => {
                let e = Expression { terms: vec![v], constant: ZERO };
                assert(e@.terms =~= seq![v]);
                e
            },
            El::V(v) => {
                let e = Expression { terms: vec![Term::unit(v)], constant: ZERO };
                assert(e@.terms =~= seq![Term::unit_of(v)]);
                e
            },
            El::N(v) => {
                let e = Expression { terms: Vec::new(), constant: v };
                assert(e@.terms =~= Seq::<Term>::empty());
                e
            },
        }
    }

    /// Multiplies the expression by minus one in place.
    pub fn negate(&mut self)
        ensures
            final(self)@ == old(self)@.negated(),
    {
        self.constant = negate(self.constant);
        let n = self.terms.len();
        let mut i: usize = 0;
        while i < n
            invariant
                i <= n,
                n == self.terms@.len(),
                n == old(self).terms@.len(),
                self.constant == negated(old(self).constant),
                forall|j: int| 0 <= j < i ==> self.terms@[j] == old(self).terms@[j].negated(),
                forall|j: int| i <= j < n ==> self.terms@[j] == old(self).terms@[j],
            decreases n - i,
        {
            let t = self.terms[i].negate();
            self.terms.set(i, t);
            i += 1;
        }
        assert(self@.terms =~= negated_terms(old(self)@.terms));
    }
}

} // verus!
