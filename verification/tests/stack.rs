//! The stack discipline of the session, instruction by instruction.

use cassowary_session::element::{El, Expression, Term, Var};
use cassowary_session::engine::{Constraint, Relation};
use cassowary_session::scalar::{Operator, ONE, ZERO};
use cassowary_session::session::State;
use cassowary_session::strength::{REQUIRED, STRONG, WEAK};

fn apply(op: Operator, a: u64, b: u64) -> u64 {
    let (x, y) = (f64::from_bits(a), f64::from_bits(b));
    let r = match op {
        Operator::Plus => x + y,
        Operator::Minus => x - y,
        Operator::Times => x * y,
        Operator::Over => x / y,
    };
    r.to_bits()
}

fn session() -> State<fn(Operator, u64, u64) -> u64> {
    State::new(apply as fn(Operator, u64, u64) -> u64)
}

fn bits(x: f64) -> u64 {
    x.to_bits()
}

#[test]
fn a_new_session_is_empty() {
    let s = session();
    assert_eq!(s.variables(), 0);
    assert!(s.stack().is_empty());
}

#[test]
fn ids_count_up_from_zero() {
    let mut s = session();
    for expected in 0..100u32 {
        assert_eq!(s.dim(), expected);
    }
    assert_eq!(s.variables(), 100);
}

#[test]
fn ids_start_again_after_reset() {
    let mut s = session();
    assert_eq!(s.dim(), 0);
    assert_eq!(s.dim(), 1);
    assert_eq!(s.dim(), 2);
    s.p_var(1);
    s.reset();
    assert_eq!(s.variables(), 0);
    assert!(s.stack().is_empty());
    assert_eq!(s.p_var(0), -1);
    assert_eq!(s.dim(), 0);
    assert_eq!(s.dim(), 1);
}

#[test]
fn allocation_leaves_the_stack_alone() {
    let mut s = session();
    s.p_const(bits(1.0));
    s.dim();
    assert_eq!(s.stack(), &vec![El::N(bits(1.0))]);
}

#[test]
fn push_variable_checks_the_id() {
    let mut s = session();
    assert_eq!(s.p_var(0), -1);
    assert!(s.stack().is_empty());
    s.dim();
    s.dim();
    assert_eq!(s.p_var(2), -1);
    assert_eq!(s.p_var(u32::MAX), -1);
    assert!(s.stack().is_empty());
    assert_eq!(s.p_var(1), 0);
    assert_eq!(s.p_var(0), 0);
    assert_eq!(s.stack(), &vec![El::V(Var(1)), El::V(Var(0))]);
}

#[test]
fn push_constant_always_succeeds() {
    let mut s = session();
    assert_eq!(s.p_const(bits(10.0)), 0);
    assert_eq!(s.p_const(bits(f64::NAN)), 0);
    assert_eq!(s.p_const(bits(-0.0)), 0);
    assert_eq!(
        s.stack(),
        &vec![El::N(bits(10.0)), El::N(bits(f64::NAN)), El::N(bits(-0.0))]
    );
}

#[test]
fn operators_on_an_empty_stack_underflow() {
    let mut s = session();
    assert_eq!(s.op_add(), -1);
    assert_eq!(s.op_sub(), -1);
    assert_eq!(s.op_mul(), -1);
    assert_eq!(s.op_div(), -1);
    assert!(s.stack().is_empty());
}

#[test]
fn operators_on_one_element_underflow_and_keep_it() {
    let mut s = session();
    s.dim();
    s.p_var(0);
    assert_eq!(s.op_add(), -1);
    assert_eq!(s.stack(), &vec![El::V(Var(0))]);
    assert_eq!(s.op_sub(), -1);
    assert_eq!(s.stack(), &vec![El::V(Var(0))]);
    assert_eq!(s.op_mul(), -1);
    assert_eq!(s.stack(), &vec![El::V(Var(0))]);
    assert_eq!(s.op_div(), -1);
    assert_eq!(s.stack(), &vec![El::V(Var(0))]);
}

#[test]
fn operators_take_the_two_topmost_elements() {
    let mut s = session();
    s.p_const(bits(100.0));
    s.p_const(bits(7.0));
    s.p_const(bits(2.0));
    assert_eq!(s.op_sub(), 0);
    assert_eq!(s.stack(), &vec![El::N(bits(100.0)), El::N(bits(5.0))]);
    assert_eq!(s.op_div(), 0);
    assert_eq!(s.stack(), &vec![El::N(bits(20.0))]);
    s.p_const(bits(0.5));
    assert_eq!(s.op_mul(), 0);
    assert_eq!(s.stack(), &vec![El::N(bits(10.0))]);
    s.p_const(bits(0.25));
    assert_eq!(s.op_add(), 0);
    assert_eq!(s.stack(), &vec![El::N(bits(10.25))]);
}

#[test]
fn the_lower_element_is_the_left_operand() {
    let mut s = session();
    s.dim();
    s.p_var(0);
    s.p_const(bits(4.0));
    assert_eq!(s.op_div(), 0);
    assert_eq!(s.stack(), &vec![El::T(Term { variable: Var(0), coefficient: bits(0.25) })]);
    s.p_const(bits(4.0));
    s.p_var(0);
    assert_eq!(s.op_div(), -2);
}

#[test]
fn product_of_two_variables_is_a_mismatch() {
    let mut s = session();
    s.dim();
    s.dim();
    s.p_const(bits(1.0));
    s.p_var(0);
    s.p_var(1);
    assert_eq!(s.op_mul(), -2);
    assert_eq!(s.stack(), &vec![El::N(bits(1.0))]);
}

#[test]
fn mismatch_leaves_the_stack_two_shorter() {
    let mut s = session();
    s.dim();
    s.p_const(bits(1.0));
    s.p_const(bits(2.0));
    s.p_var(0);
    s.p_const(bits(3.0));
    assert_eq!(s.op_add(), 0);
    s.p_var(0);
    assert_eq!(s.stack().len(), 4);
    // expression * variable
    assert_eq!(s.op_mul(), -2);
    assert_eq!(s.stack(), &vec![El::N(bits(1.0)), El::N(bits(2.0))]);
    s.p_var(0);
    // number / variable
    assert_eq!(s.op_div(), -2);
    assert_eq!(s.stack(), &vec![El::N(bits(1.0))]);
}

#[test]
fn division_by_a_term_or_expression_is_a_mismatch() {
    let mut s = session();
    s.dim();
    s.p_const(bits(8.0));
    s.p_var(0);
    s.p_const(bits(2.0));
    assert_eq!(s.op_mul(), 0);
    assert_eq!(s.op_div(), -2);
    assert!(s.stack().is_empty());
    s.p_const(bits(8.0));
    s.p_var(0);
    s.p_const(bits(2.0));
    assert_eq!(s.op_add(), 0);
    assert_eq!(s.op_div(), -2);
    assert!(s.stack().is_empty());
}

#[test]
fn sum_of_variable_and_number_is_an_expression() {
    let mut s = session();
    s.dim();
    s.p_var(0);
    s.p_const(bits(3.0));
    assert_eq!(s.op_add(), 0);
    assert_eq!(
        s.stack(),
        &vec![El::E(Expression {
            terms: vec![Term { variable: Var(0), coefficient: ONE }],
            constant: bits(3.0),
        })]
    );
}

#[test]
fn relation_needs_exactly_two_elements() {
    for depth in [0usize, 1, 3, 4] {
        let mut s = session();
        for _ in 0..depth {
            s.p_const(bits(1.0));
        }
        assert_eq!(s.op_eq(REQUIRED), Err(-1));
        assert!(s.stack().is_empty());
        for _ in 0..depth {
            s.p_const(bits(1.0));
        }
        assert_eq!(s.op_lte(STRONG), Err(-1));
        assert!(s.stack().is_empty());
        for _ in 0..depth {
            s.p_const(bits(1.0));
        }
        assert_eq!(s.op_gte(WEAK), Err(-1));
        assert!(s.stack().is_empty());
    }
}

#[test]
fn relation_builds_the_constraint_and_empties_the_stack() {
    let mut s = session();
    s.dim();
    s.p_var(0);
    s.p_const(bits(10.0));
    let built = s.op_eq(REQUIRED);
    assert_eq!(
        built,
        Ok(Constraint {
            left: Expression {
                terms: vec![Term { variable: Var(0), coefficient: ONE }],
                constant: ZERO,
            },
            relation: Relation::Equal,
            right: Expression { terms: vec![], constant: bits(10.0) },
            strength: REQUIRED,
        })
    );
    assert!(s.stack().is_empty());
    assert_eq!(s.variables(), 1);
}

#[test]
fn each_relation_has_its_own_instruction() {
    let mut s = session();
    s.p_const(bits(1.0));
    s.p_const(bits(2.0));
    assert_eq!(s.op_lte(STRONG).map(|c| (c.relation, c.strength)), Ok((Relation::LessOrEqual, STRONG)));
    s.p_const(bits(1.0));
    s.p_const(bits(2.0));
    assert_eq!(s.op_gte(WEAK).map(|c| (c.relation, c.strength)), Ok((Relation::GreaterOrEqual, WEAK)));
    s.p_const(bits(1.0));
    s.p_const(bits(2.0));
    assert_eq!(s.op_eq(bits(17.5)).map(|c| (c.relation, c.strength)), Ok((Relation::Equal, bits(17.5))));
}

#[test]
fn the_engine_decides_the_status_of_a_relation() {
    assert_eq!(Constraint::status(true), 0);
    assert_eq!(Constraint::status(false), -2);
}

#[test]
fn an_arithmetic_of_the_callers_choice_is_used() {
    fn first(_: Operator, a: u64, _: u64) -> u64 {
        a
    }
    let mut s = State::new(first);
    s.p_const(11);
    s.p_const(22);
    assert_eq!(s.op_add(), 0);
    assert_eq!(s.stack(), &vec![El::N(11)]);
    fn tagged(op: Operator, _: u64, _: u64) -> u64 {
        match op {
            Operator::Plus => 1,
            Operator::Minus => 2,
            Operator::Times => 3,
            Operator::Over => 4,
        }
    }
    let mut s = State::new(tagged);
    for (expected, run) in [
        (1u64, State::op_add as fn(&mut State<_>) -> i32),
        (2, State::op_sub),
        (3, State::op_mul),
        (4, State::op_div),
    ] {
        s.p_const(0);
        s.p_const(0);
        assert_eq!(run(&mut s), 0);
        assert_eq!(s.stack(), &vec![El::N(expected)]);
        s.reset();
    }
}
