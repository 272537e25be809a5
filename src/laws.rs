//! Properties of the semantics that hold for every state.
use vstd::prelude::*;

use crate::ast::{binary_parts, compare_parts, unary_parts, Const, Expression};
use crate::semantics::{eval_expr, eval_list, eval_other, Model};
use crate::value::Value;

verus! {

/// Whether an expression has no effect: no assignment, increment, decrement
/// or call anywhere in it.
pub open spec fn is_pure(e: Expression) -> bool
    decreases e,
{
    match binary_parts(e) {
        Some((_, lhs, rhs)) => is_pure(*lhs) && is_pure(*rhs),
        None => match compare_parts(e) {
            Some((_, lhs, rhs)) => is_pure(*lhs) && is_pure(*rhs),
            None => match unary_parts(e) {
                Some((_, rhs)) => is_pure(*rhs),
                None => match e {
                    Expression::Ternary { condition, yes, no } => is_pure(*condition) && is_pure(*yes)
                        && is_pure(*no),
                    Expression::UnaryPlus { rhs } => is_pure(*rhs),
                    Expression::VectorIndex { vector, index } => is_pure(*vector) && is_pure(*index),
                    Expression::Constant(c) => match c {
                        Const::Vector(v) => all_pure(v@),
                        _ => true,
                    },
                    Expression::Identifier(_) => true,
                    _ => false,
                },
            },
        },
    }
}

/// Whether every expression of a sequence is pure.
pub open spec fn all_pure(es: Seq<Box<Expression>>) -> bool
    decreases es,
{
    es.len() == 0 || (is_pure(*es[0]) && all_pure(es.drop_first()))
}

proof fn lemma_pure_keeps_state(m: Model, e: Expression, fuel: nat)
    requires
        is_pure(e),
    ensures
        eval_expr(m, e, fuel).0 == m,
    decreases e,
{
    match binary_parts(e) {
        Some((_, lhs, rhs)) => {
            lemma_pure_keeps_state(m, *lhs, fuel);
            lemma_pure_keeps_state(m, *rhs, fuel);
        },
        None => match compare_parts(e) {
            Some((_, lhs, rhs)) => {
                lemma_pure_keeps_state(m, *lhs, fuel);
                lemma_pure_keeps_state(m, *rhs, fuel);
            },
            None => match unary_parts(e) {
                Some((_, rhs)) => {
                    lemma_pure_keeps_state(m, *rhs, fuel);
                },
                None => {
                    assert(eval_expr(m, e, fuel) == eval_other(m, e, fuel));
                    match e {
                        Expression::Ternary { condition, yes, no } => {
                            lemma_pure_keeps_state(m, *condition, fuel);
                            lemma_pure_keeps_state(m, *yes, fuel);
                            lemma_pure_keeps_state(m, *no, fuel);
                        },
                        Expression::UnaryPlus { rhs } => {
                            lemma_pure_keeps_state(m, *rhs, fuel);
                        },
                        Expression::VectorIndex { vector, index } => {
                            lemma_pure_keeps_state(m, *vector, fuel);
                            lemma_pure_keeps_state(m, *index, fuel);
                        },
                        Expression::Constant(c) => match c {
                            Const::Vector(v) => {
                                lemma_pure_list_keeps_state(m, v@, Seq::empty(), fuel);
                            },
                            _ => {},
                        },
                        _ => {},
                    }
                },
            },
        },
    }
}

proof fn lemma_pure_list_keeps_state(m: Model, es: Seq<Box<Expression>>, done: Seq<Value>, fuel: nat)
    requires
        all_pure(es),
    ensures
        eval_list(m, es, done, fuel).0 == m,
    decreases es,
{
    if es.len() > 0 {
        lemma_pure_keeps_state(m, *es[0], fuel);
        let (m1, r) = eval_expr(m, *es[0], fuel);
        if let Ok(v) = r {
            lemma_pure_list_keeps_state(m1, es.drop_first(), done.push(v), fuel);
        }
    }
}

/// Evaluating a pure expression leaves the state as it was, so evaluating it
/// a second time yields the same result as the first.
pub proof fn lemma_pure_idempotent(m: Model, e: Expression, fuel: nat)
    requires
        is_pure(e),
    ensures
        eval_expr(m, e, fuel).0 == m,
        eval_expr(eval_expr(m, e, fuel).0, e, fuel) == eval_expr(m, e, fuel),
{
    lemma_pure_keeps_state(m, e, fuel);
}

/// A variable written inside a call frame shadows a global of the same name:
/// reading it gives the written value, and the global frame is untouched.
pub proof fn lemma_local_shadows_global(m: Model, name: Seq<char>, v: Value)
    requires
        m.frames.len() >= 2,
    ensures
        m.assign(name, Some(v)).lookup(name) == Some(v),
        m.assign(name, Some(v)).frames[0] == m.frames[0],
        m.assign(name, Some(v)).frames.len() == m.frames.len(),
{
}

} // verus!
