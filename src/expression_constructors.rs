//! Constructors, one for each kind of expression node.
use vstd::prelude::*;

use crate::ast::{Const, Expression, Identifier};

verus! {

impl Expression {
    /// An `Assign` node.
    pub fn assign(lhs: Box<Expression>, rhs: Box<Expression>) -> (r: Self)
        ensures
            r == (Expression::Assign { lhs, rhs }),
    {
        Expression::Assign { lhs, rhs }
    }

    /// An `AssignOr` node.
    pub fn assign_or(lhs: Box<Expression>, rhs: Box<Expression>) -> (r: Self)
        ensures
            r == (Expression::AssignOr { lhs, rhs }),
    {
        Expression::AssignOr { lhs, rhs }
    }

    /// An `AssignXor` node.
    pub fn assign_xor(lhs: Box<Expression>, rhs: Box<Expression>) -> (r: Self)
        ensures
            r == (Expression::AssignXor { lhs, rhs }),
    {
        Expression::AssignXor { lhs, rhs }
    }

    /// An `AssignAnd` node.
    pub fn assign_and(lhs: Box<Expression>, rhs: Box<Expression>) -> (r: Self)
        ensures
            r == (Expression::AssignAnd { lhs, rhs }),
    {
        Expression::AssignAnd { lhs, rhs }
    }

    /// An `AssignShiftLeft` node.
    pub fn assign_shift_left(lhs: Box<Expression>, rhs: Box<Expression>) -> (r: Self)
        ensures
            r == (Expression::AssignShiftLeft { lhs, rhs }),
    {
        Expression::AssignShiftLeft { lhs, rhs }
    }

    /// An `AssignShiftRight` node.
    pub fn assign_shift_right(lhs: Box<Expression>, rhs: Box<Expression>) -> (r: Self)
        ensures
            r == (Expression::AssignShiftRight { lhs, rhs }),
    {
        Expression::AssignShiftRight { lhs, rhs }
    }

    /// An `AssignAdd` node.
    pub fn assign_add(lhs: Box<Expression>, rhs: Box<Expression>) -> (r: Self)
        ensures
            r == (Expression::AssignAdd { lhs, rhs }),
    {
        Expression::AssignAdd { lhs, rhs }
    }

    /// An `AssignSubtract` node.
    pub fn assign_subtract(lhs: Box<Expression>, rhs: Box<Expression>) -> (r: Self)
        ensures
            r == (Expression::AssignSubtract { lhs, rhs }),
    {
        Expression::AssignSubtract { lhs, rhs }
    }

    /// An `AssignMultiply` node.
    pub fn assign_multiply(lhs: Box<Expression>, rhs: Box<Expression>) -> (r: Self)
        ensures
            r == (Expression::AssignMultiply { lhs, rhs }),
    {
        Expression::AssignMultiply { lhs, rhs }
    }

    /// An `AssignDivide` node.
    pub fn assign_divide(lhs: Box<Expression>, rhs: Box<Expression>) -> (r: Self)
        ensures
            r == (Expression::AssignDivide { lhs, rhs }),
    {
        Expression::AssignDivide { lhs, rhs }
    }

    /// An `AssignModulo` node.
    pub fn assign_modulo(lhs: Box<Expression>, rhs: Box<Expression>) -> (r: Self)
        ensures
            r == (Expression::AssignModulo { lhs, rhs }),
    {
        Expression::AssignModulo { lhs, rhs }
    }

    /// A `Ternary` node.
    pub fn ternary(condition: Box<Expression>, yes: Box<Expression>, no: Box<Expression>) -> (r: Self)
        ensures
            r == (Expression::Ternary { condition, yes, no }),
    {
        Expression::Ternary { condition, yes, no }
    }

    /// An `Equal` node.
    pub fn equal(lhs: Box<Expression>, rhs: Box<Expression>) -> (r: Self)
        ensures
            r == (Expression::Equal { lhs, rhs }),
    {
        Expression::Equal { lhs, rhs }
    }

    /// A `NotEqual` node.
    pub fn not_equal(lhs: Box<Expression>, rhs: Box<Expression>) -> (r: Self)
        ensures
            r == (Expression::NotEqual { lhs, rhs }),
    {
        Expression::NotEqual { lhs, rhs }
    }

    /// A `Less` node.
    pub fn less(lhs: Box<Expression>, rhs: Box<Expression>) -> (r: Self)
        ensures
            r == (Expression::Less { lhs, rhs }),
    {
        Expression::Less { lhs, rhs }
    }

    /// A `More` node.
    pub fn more(lhs: Box<Expression>, rhs: Box<Expression>) -> (r: Self)
        ensures
            r == (Expression::More { lhs, rhs }),
    {
        Expression::More { lhs, rhs }
    }

    /// A `LessEqual` node.
    pub fn less_equal(lhs: Box<Expression>, rhs: Box<Expression>) -> (r: Self)
        ensures
            r == (Expression::LessEqual { lhs, rhs }),
    {
        Expression::LessEqual { lhs, rhs }
    }

    /// A `MoreEqual` node.
    pub fn more_equal(lhs: Box<Expression>, rhs: Box<Expression>) -> (r: Self)
        ensures
            r == (Expression::MoreEqual { lhs, rhs }),
    {
        Expression::MoreEqual { lhs, rhs }
    }

    /// An `Or` node.
    pub fn or(lhs: Box<Expression>, rhs: Box<Expression>) -> (r: Self)
        ensures
            r == (Expression::Or { lhs, rhs }),
    {
        Expression::Or { lhs, rhs }
    }

    /// A `Xor` node.
    pub fn xor(lhs: Box<Expression>, rhs: Box<Expression>) -> (r: Self)
        ensures
            r == (Expression::Xor { lhs, rhs }),
    {
        Expression::Xor { lhs, rhs }
    }

    /// An `And` node.
    pub fn and(lhs: Box<Expression>, rhs: Box<Expression>) -> (r: Self)
        ensures
            r == (Expression::And { lhs, rhs }),
    {
        Expression::And { lhs, rhs }
    }

    /// A `ShiftLeft` node.
    pub fn shift_left(lhs: Box<Expression>, rhs: Box<Expression>) -> (r: Self)
        ensures
            r == (Expression::ShiftLeft { lhs, rhs }),
    {
        Expression::ShiftLeft { lhs, rhs }
    }

    /// A `ShiftRight` node.
    pub fn shift_right(lhs: Box<Expression>, rhs: Box<Expression>) -> (r: Self)
        ensures
            r == (Expression::ShiftRight { lhs, rhs }),
    {
        Expression::ShiftRight { lhs, rhs }
    }

    /// An `Add` node.
    pub fn add(lhs: Box<Expression>, rhs: Box<Expression>) -> (r: Self)
        ensures
            r == (Expression::Add { lhs, rhs }),
    {
        Expression::Add { lhs, rhs }
    }

    /// A `Subtract` node.
    pub fn subtract(lhs: Box<Expression>, rhs: Box<Expression>) -> (r: Self)
        ensures
            r == (Expression::Subtract { lhs, rhs }),
    {
        Expression::Subtract { lhs, rhs }
    }

    /// A `Multiply` node.
    pub fn multiply(lhs: Box<Expression>, rhs: Box<Expression>) -> (r: Self)
        ensures
            r == (Expression::Multiply { lhs, rhs }),
    {
        Expression::Multiply { lhs, rhs }
    }

    /// A `Divide` node.
    pub fn divide(lhs: Box<Expression>, rhs: Box<Expression>) -> (r: Self)
        ensures
            r == (Expression::Divide { lhs, rhs }),
    {
        Expression::Divide { lhs, rhs }
    }

    /// A `Modulo` node.
    pub fn modulo(lhs: Box<Expression>, rhs: Box<Expression>) -> (r: Self)
        ensures
            r == (Expression::Modulo { lhs, rhs }),
    {
        Expression::Modulo { lhs, rhs }
    }

    /// A `Not` node.
    pub fn not(rhs: Box<Expression>) -> (r: Self)
        ensures
            r == (Expression::Not { rhs }),
    {
        Expression::Not { rhs }
    }

    /// A `Complement` node.
    pub fn complement(rhs: Box<Expression>) -> (r: Self)
        ensures
            r == (Expression::Complement { rhs }),
    {
        Expression::Complement { rhs }
    }

    /// A `PreIncrement` node.
    pub fn pre_increment(rhs: Box<Expression>) -> (r: Self)
        ensures
            r == (Expression::PreIncrement { rhs }),
    {
        Expression::PreIncrement { rhs }
    }

    /// A `PreDecrement` node.
    pub fn pre_decrement(rhs: Box<Expression>) -> (r: Self)
        ensures
            r == (Expression::PreDecrement { rhs }),
    {
        Expression::PreDecrement { rhs }
    }

    /// An `UnaryPlus` node.
    pub fn unary_plus(rhs: Box<Expression>) -> (r: Self)
        ensures
            r == (Expression::UnaryPlus { rhs }),
    {
        Expression::UnaryPlus { rhs }
    }

    /// An `UnaryMinus` node.
    pub fn unary_minus(rhs: Box<Expression>) -> (r: Self)
        ensures
            r == (Expression::UnaryMinus { rhs }),
    {
        Expression::UnaryMinus { rhs }
    }

    /// A `PostIncrement` node.
    pub fn post_increment(lhs: Box<Expression>) -> (r: Self)
        ensures
            r == (Expression::PostIncrement { lhs }),
    {
        Expression::PostIncrement { lhs }
    }

    /// A `PostDecrement` node.
    pub fn post_decrement(lhs: Box<Expression>) -> (r: Self)
        ensures
            r == (Expression::PostDecrement { lhs }),
    {
        Expression::PostDecrement { lhs }
    }

    /// A `VectorIndex` node.
    pub fn vector_index(vector: Box<Expression>, index: Box<Expression>) -> (r: Self)
        ensures
            r == (Expression::VectorIndex { vector, index }),
    {
        Expression::VectorIndex { vector, index }
    }

    /// A `Constant` node.
    pub fn constant(item: Const) -> (r: Self)
        ensures
            r == Expression::Constant(item),
    {
        Expression::Constant(item)
    }

    /// An `Identifier` node.
    pub fn identifier(item: Identifier) -> (r: Self)
        ensures
            r == Expression::Identifier(item),
    {
        Expression::Identifier(item)
    }

    /// A `FunctionCall` node.
    pub fn function_call(ident: Identifier, args: Vec<Box<Expression>>) -> (r: Self)
        ensures
            r == (Expression::FunctionCall { ident, args }),
    {
        Expression::FunctionCall { ident, args }
    }

}

} // verus!
