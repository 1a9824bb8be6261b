//! The four arithmetic operators on stack elements.
//!
//! Sums and differences exist for every pair of operands and are expressions,
//! but for two numbers, which give a number. A product needs a number on one
//! side, a quotient a number on the right. The results are stated as relations
//! because the arithmetic on reals is the caller's: a result's constant or
//! coefficient is whatever that arithmetic returned for the stated operands.

use vstd::prelude::*;
use crate::element::{negated_terms, El, ElView, Expression, ExpressionView, Term};
use crate::scalar::{computes, negate, negated, total, Operator, ONE, ZERO};

verus! {

/// `out` is the term `t` after `op n` was applied to its coefficient.
pub open spec fn term_applied<A: Fn(Operator, u64, u64) -> u64>(
    arith: A,
    op: Operator,
    t: Term,
    n: u64,
    out: Term,
) -> bool {
    out.variable == t.variable && computes(arith, op, t.coefficient, n, out.coefficient)
}

/// `out` is the expression `e` after `op n` was applied to its constant and
/// to the coefficient of each of its terms.
pub open spec fn applied<A: Fn(Operator, u64, u64) -> u64>(
    arith: A,
    op: Operator,
    e: ExpressionView,
    n: u64,
    out: ExpressionView,
) -> bool {
    &&& computes(arith, op, e.constant, n, out.constant)
    &&& out.terms.len() == e.terms.len()
    &&& forall|i: int|
        0 <= i < e.terms.len() ==> term_applied(arith, op, e.terms[i], n, #[trigger] out.terms[i])
}

/// Whether the terms of the right operand come first in a sum or difference:
/// a term or variable on the left is appended to an expression on the right.
pub open spec fn right_first(l: ElView, r: ElView) -> bool {
    (l is T || l is V) && r is E
}

/// The terms of both operands in the order in which the result holds them.
pub open spec fn joined(l: Seq<Term>, r: Seq<Term>, right_first: bool) -> Seq<Term> {
    if right_first {
        r + l
    } else {
        l + r
    }
}

/// `out` is `l + r`.
pub open spec fn sum<A: Fn(Operator, u64, u64) -> u64>(
    arith: A,
    l: ElView,
    r: ElView,
    out: ElView,
) -> bool {
    match (l, r) {
        (ElView::N(a), ElView::N(b)) => out matches ElView::N(c) && computes(
            arith,
            Operator::Plus,
            a,
            b,
            c,
        ),
        _ => {
            &&& out matches ElView::E(e)
            &&& e.terms == joined(l.terms(), r.terms(), right_first(l, r))
            &&& match (l.constant(), r.constant()) {
                (Some(a), Some(b)) => if l is N {
                    computes(arith, Operator::Plus, b, a, e.constant)
                } else {
                    computes(arith, Operator::Plus, a, b, e.constant)
                },
                (Some(a), None) => e.constant == a,
                (None, Some(b)) => e.constant == b,
                (None, None) => e.constant == ZERO,
            }
        },
    }
}

/// `out` is `l - r`.
pub open spec fn difference<A: Fn(Operator, u64, u64) -> u64>(
    arith: A,
    l: ElView,
    r: ElView,
    out: ElView,
) -> bool {
    match (l, r) {
        (ElView::N(a), ElView::N(b)) => out matches ElView::N(c) && computes(
            arith,
            Operator::Minus,
            a,
            b,
            c,
        ),
        _ => {
            &&& out matches ElView::E(e)
            &&& e.terms == joined(l.terms(), negated_terms(r.terms()), right_first(l, r))
            &&& match (l.constant(), r.constant()) {
                (Some(a), Some(b)) => if l is N {
                    computes(arith, Operator::Plus, negated(b), a, e.constant)
                } else if r is N {
                    computes(arith, Operator::Minus, a, b, e.constant)
                } else {
                    computes(arith, Operator::Plus, a, negated(b), e.constant)
                },
                (Some(a), None) => e.constant == a,
                (None, Some(b)) => e.constant == negated(b),
                (None, None) => e.constant == ZERO,
            }
        },
    }
}

/// A product exists when at least one operand is a number.
pub open spec fn multipliable(l: ElView, r: ElView) -> bool {
    l is N || r is N
}

/// `out` is `x * n`. A variable takes `n` as its coefficient as it stands.
pub open spec fn scaled<A: Fn(Operator, u64, u64) -> u64>(
    arith: A,
    x: ElView,
    n: u64,
    out: ElView,
) -> bool {
    match x {
        ElView::E(e) => out matches ElView::E(o) && applied(arith, Operator::Times, e, n, o),
        ElView::T(t) => out matches ElView::T(o) && term_applied(arith, Operator::Times, t, n, o),
        ElView::V(v) => out == ElView::T(Term { variable: v, coefficient: n }),
        ElView::N(a) => out matches ElView::N(c) && computes(arith, Operator::Times, a, n, c),
    }
}

/// `out` is `l * r`: the operand that is not the number, scaled by the number.
pub open spec fn product<A: Fn(Operator, u64, u64) -> u64>(
    arith: A,
    l: ElView,
    r: ElView,
    out: ElView,
) -> bool {
    match (l, r) {
        (_, ElView::N(n)) => scaled(arith, l, n, out),
        (ElView::N(n), _) => scaled(arith, r, n, out),
        _ => false,
    }
}

/// A quotient exists when the right operand is a number.
pub open spec fn divisible(l: ElView, r: ElView) -> bool {
    r is N
}

/// `out` is `l / r`. A variable takes `1 / r` as its coefficient.
pub open spec fn quotient<A: Fn(Operator, u64, u64) -> u64>(
    arith: A,
    l: ElView,
    r: ElView,
    out: ElView,
) -> bool {
    match (l, r) {
        (ElView::E(e), ElView::N(n)) => out matches ElView::E(o) && applied(
            arith,
            Operator::Over,
            e,
            n,
            o,
        ),
        (ElView::T(t), ElView::N(n)) => out matches ElView::T(o) && term_applied(
            arith,
            Operator::Over,
            t,
            n,
            o,
        ),
        (ElView::V(v), ElView::N(n)) => out matches ElView::T(o) && o.variable == v && computes(
            arith,
            Operator::Over,
            ONE,
            n,
            o.coefficient,
        ),
        (ElView::N(a), ElView::N(n)) => out matches ElView::N(c) && computes(
            arith,
            Operator::Over,
            a,
            n,
            c,
        ),
        _ => false,
    }
}

impl Term {
    /// Applies `op n` to the coefficient.
    pub fn apply<A: Fn(Operator, u64, u64) -> u64>(
        self,
        op: Operator,
        n: u64,
        arith: &A,
    ) -> (out: Term)
        requires
            total(*arith),
        ensures
            term_applied(*arith, op, self, n, out),
    {
        Term { variable: self.variable, coefficient: arith(op, self.coefficient, n) }
    }
}

impl Expression {
    /// Appends one term.
    pub fn with(self, t: Term) -> (out: Expression)
        ensures
            out@ == (ExpressionView { terms: self@.terms.push(t), constant: self@.constant }),
    {
        let mut out = self;
        out.terms.push(t);
        out
    }

    /// Applies `op n` to the constant and leaves the terms alone.
    pub fn shift<A: Fn(Operator, u64, u64) -> u64>(
        self,
        op: Operator,
        n: u64,
        arith: &A,
    ) -> (out: Expression)
        requires
            total(*arith),
        ensures
            out@.terms == self@.terms,
            computes(*arith, op, self@.constant, n, out@.constant),
    {
        let mut out = self;
        out.constant = arith(op, out.constant, n);
        out
    }

    /// Appends the terms of `other` and adds its constant.
    pub fn join<A: Fn(Operator, u64, u64) -> u64>(
        self,
        other: Expression,
        arith: &A,
    ) -> (out: Expression)
        requires
            total(*arith),
        ensures
            out@.terms == self@.terms + other@.terms,
            computes(*arith, Operator::Plus, self@.constant, other@.constant, out@.constant),
    {
        let mut out = self;
        let mut other = other;
        out.terms.append(&mut other.terms);
        out.constant = arith(Operator::Plus, out.constant, other.constant);
        out
    }

    /// Applies `op n` to the constant and to every coefficient.
    pub fn apply<A: Fn(Operator, u64, u64) -> u64>(
        self,
        op: Operator,
        n: u64,
        arith: &A,
    ) -> (out: Expression)
        requires
            total(*arith),
        ensures
            applied(*arith, op, self@, n, out@),
    {
        let mut out = self;
        out.constant = arith(op, out.constant, n);
        let len = out.terms.len();
        let mut i: usize = 0;
        while i < len
            invariant
                total(*arith),
                i <= len,
                len == out.terms@.len(),
                len == self.terms@.len(),
                computes(*arith, op, self.constant, n, out.constant),
                forall|j: int|
                    0 <= j < i ==> term_applied(
                        *arith,
                        op,
                        self.terms@[j],
                        n,
                        #[trigger] out.terms@[j],
                    ),
                forall|j: int| i <= j < len ==> out.terms@[j] == self.terms@[j],
            decreases len - i,
        {
            let t = out.terms[i].apply(op, n, arith);
            out.terms.set(i, t);
            i += 1;
        }
        out
    }
}

impl El {
    /// `self + r`.
    pub fn plus<A: Fn(Operator, u64, u64) -> u64>(self, r: El, arith: &A) -> (out: El)
        requires
            total(*arith),
        ensures
            sum(*arith, self@, r@, out@),
    {
        let ghost (lv, rv) = (self@, r@);
        let out = match self {
            El::E(l) => match r {
                El::E(r) => El::E(l.join(r, arith)),
                El::T(r) => El::E(l.with(r)),
                El::V(r) => El::E(l.with(Term::unit(r))),
                El::N(r) => El::E(l.shift(Operator::Plus, r, arith)),
            },
            El::T(l) => match r {
                El::E(r) => El::E(r.with(l)),
                El::T(r) => El::E(Expression::new(vec![l, r], ZERO)),
                El::V(r) => El::E(Expression::new(vec![l, Term::unit(r)], ZERO)),
                El::N(r) => El::E(Expression::new(vec![l], r)),
            },
            El::V(l) => match r {
                El::E(r) => El::E(r.with(Term::unit(l))),
                El::T(r) => El::E(Expression::new(vec![Term::unit(l), r], ZERO)),
                El::V(r) => El::E(Expression::new(vec![Term::unit(l), Term::unit(r)], ZERO)),
                El::N(r) => El::E(Expression::new(vec![Term::unit(l)], r)),
            },
            El::N(l) => match r {
                El::E(r) => El::E(r.shift(Operator::Plus, l, arith)),
                El::T(r) => El::E(Expression::new(vec![r], l)),
                El::V(r) => El::E(Expression::new(vec![Term::unit(r)], l)),
                El::N(r) => El::N(arith(Operator::Plus, l, r)),
            },
        };
        assert(out@ matches ElView::E(e) ==> e.terms =~= joined(
            lv.terms(),
            rv.terms(),
            right_first(lv, rv),
        ));
        out
    }

    /// `self - r`.
    pub fn minus<A: Fn(Operator, u64, u64) -> u64>(self, r: El, arith: &A) -> (out: El)
        requires
            total(*arith),
        ensures
            difference(*arith, self@, r@, out@),
    {
        let ghost (lv, rv) = (self@, r@);
        let out = match self {
            El::E(l) => match r {
                El::E(r) => {
                    let mut r = r;
                    r.negate();
                    El::E(l.join(r, arith))
                },
                El::T(r) => El::E(l.with(r.negate())),
                El::V(r) => El::E(l.with(Term::minus_unit(r))),
                El::N(r) => El::E(l.shift(Operator::Minus, r, arith)),
            },
            El::T(l) => match r {
                El::E(r) => {
                    let mut r = r;
                    r.negate();
                    El::E(r.with(l))
                },
                El::T(r) => El::E(Expression::new(vec![l, r.negate()], ZERO)),
                El::V(r) => El::E(Expression::new(vec![l, Term::minus_unit(r)], ZERO)),
                El::N(r) => El::E(Expression::new(vec![l], negate(r))),
            },
            El::V(l) => match r {
                El::E(r) => {
                    let mut r = r;
                    r.negate();
                    El::E(r.with(Term::unit(l)))
                },
                El::T(r) => El::E(Expression::new(vec![Term::unit(l), r.negate()], ZERO)),
                El::V(r) => El::E(
                    Expression::new(vec![Term::unit(l), Term::minus_unit(r)], ZERO),
                ),
                El::N(r) => El::E(Expression::new(vec![Term::unit(l)], negate(r))),
            },
            El::N(l) => match r {
                El::E(r) => {
                    let mut r = r;
                    r.negate();
                    El::E(r.shift(Operator::Plus, l, arith))
                },
                El::T(r) => El::E(Expression::new(vec![r.negate()], l)),
                El::V(r) => El::E(Expression::new(vec![Term::minus_unit(r)], l)),
                El::N(r) => El::N(arith(Operator::Minus, l, r)),
            },
        };
        assert(out@ matches ElView::E(e) ==> e.terms =~= joined(
            lv.terms(),
            negated_terms(rv.terms()),
            right_first(lv, rv),
        ));
        out
    }

    /// `self * r`, or `None` when neither operand is a number.
    pub fn times<A: Fn(Operator, u64, u64) -> u64>(self, r: El, arith: &A) -> (out: Option<El>)
        requires
            total(*arith),
        ensures
            out is Some <==> multipliable(self@, r@),
            out matches Some(v) ==> product(*arith, self@, r@, v@),
    {
        match self {
            El::E(l) => match r {
                El::N(r) => Some(El::E(l.apply(Operator::Times, r, arith))),
                _ => None,
            },
            El::T(l) => match r {
                El::N(r) => Some(El::T(l.apply(Operator::Times, r, arith))),
                _ => None,
            },
            El::V(l) => match r {
                El::N(r) => Some(El::T(Term { variable: l, coefficient: r })),
                _ => None,
            },
            El::N(l) => match r {
                El::E(r) => Some(El::E(r.apply(Operator::Times, l, arith))),
                El::T(r) => Some(El::T(r.apply(Operator::Times, l, arith))),
                El::V(r) => Some(El::T(Term { variable: r, coefficient: l })),
                El::N(r) => Some(El::N(arith(Operator::Times, l, r))),
            },
        }
    }

    /// `self / r`, or `None` when `r` is not a number.
    pub fn over<A: Fn(Operator, u64, u64) -> u64>(self, r: El, arith: &A) -> (out: Option<El>)
        requires
            total(*arith),
        ensures
            out is Some <==> divisible(self@, r@),
            out matches Some(v) ==> quotient(*arith, self@, r@, v@),
    {
        match self {
            El::E(l) => match r {
                El::N(r) => Some(El::E(l.apply(Operator::Over, r, arith))),
                _ => None,
            },
            El::T(l) => match r {
                El::N(r) => Some(El::T(l.apply(Operator::Over, r, arith))),
                _ => None,
            },
            El::V(l) => match r {
                El::N(r) => Some(El::T(Term::unit(l).apply(Operator::Over, r, arith))),
                _ => None,
            },
            El::N(l) => match r {
                El::N(r) => Some(El::N(arith(Operator::Over, l, r))),
                _ => None,
            },
        }
    }
}

} // verus!
