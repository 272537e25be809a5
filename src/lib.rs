//! A tree-walking evaluator for a small C-like language of integers, strings
//! and vectors.
//!
//! - `ast`: the syntax tree and the operators on constants;
//! - `expression_constructors`: one constructor per kind of expression;
//! - `value`: the model of runtime values and of every operator on them;
//! - `scope`: functions and the binding tables of a call frame;
//! - `text`: display forms, `format` substitution, the order of values;
//! - `semantics`: what evaluating an expression or a statement does to a
//!   model of the interpreter's state;
//! - `interpreter`: the evaluator, proved to follow `semantics`;
//! - `laws`: properties of the semantics.
pub mod ast;
pub mod value;
pub mod expression_constructors;
pub mod scope;
pub mod text;
pub mod semantics;
pub mod interpreter;
pub mod laws;
