//! The meaning of programs: a big-step semantics over a model of the
//! interpreter's state, with an evaluation budget that bounds call depth and
//! loop iterations.
use vstd::prelude::*;

use crate::ast::{
    binary_parts, compare_parts, compound_assign_parts, step_parts, unary_parts, Const,
    Expression, Identifier, Statement, VariableScope,
};
use crate::scope::{Builtin, Function};
use crate::value::{
    apply_binary, compare_value, display, format_values, index_value, unary_value, EvalError,
    Value,
};

verus! {

/// The state that evaluation reads and changes: the global function table, the
/// stack of variable tables (index 0 is global, the last is the current call
/// frame), and the lines printed so far.
pub struct Model {
    pub functions: Map<Seq<char>, Function>,
    pub frames: Seq<Map<Seq<char>, Option<Value>>>,
    pub output: Seq<Seq<char>>,
}

impl Model {
    /// A variable's value: from the current frame if it holds one there, else
    /// from the global frame.
    pub open spec fn lookup(self, name: Seq<char>) -> Option<Value> {
        let current = self.frames.last();
        let global = self.frames[0];
        if current.contains_key(name) && current[name] is Some {
            current[name]
        } else if global.contains_key(name) && global[name] is Some {
            global[name]
        } else {
            None
        }
    }

    /// Binds a variable in the current frame, never in the global one.
    pub open spec fn assign(self, name: Seq<char>, v: Option<Value>) -> Model {
        Model {
            functions: self.functions,
            frames: self.frames.update(self.frames.len() - 1, self.frames.last().insert(name, v)),
            output: self.output,
        }
    }
}

/// Declares each identifier, in order, as a variable without a value.
pub open spec fn declare(m: Model, ids: Seq<Identifier>) -> Model
    decreases ids.len(),
{
    if ids.len() == 0 {
        m
    } else {
        declare(m, ids.drop_last()).assign(ids.last().spec_name(), None)
    }
}

/// The first `n` parameters bound to the first `n` argument values.
pub open spec fn bind_first(params: Seq<Identifier>, vals: Seq<Value>, n: nat) -> Map<Seq<char>, Option<Value>>
    decreases n,
{
    if n == 0 {
        Map::empty()
    } else {
        bind_first(params, vals, (n - 1) as nat).insert(params[n - 1].spec_name(), Some(vals[n - 1]))
    }
}

/// A new call frame: parameters paired with arguments by position, the longer
/// of the two cut to the length of the shorter.
pub open spec fn bind_params(params: Seq<Identifier>, vals: Seq<Value>) -> Map<Seq<char>, Option<Value>> {
    bind_first(params, vals, if params.len() < vals.len() { params.len() } else { vals.len() })
}

/// The function that a definition statement introduces.
pub open spec fn defined_function(s: Statement) -> Function {
    match s {
        Statement::FunctionDefinition { ident, args, body } => Function::Defined { args: &args, body: &*body },
        _ => Function::Builtin(Builtin::Puts),
    }
}

/// What a call returns: the body's return value, or `0` when it finished
/// without `return`.
pub open spec fn call_result(r: Result<Option<Value>, EvalError>) -> Result<Value, EvalError> {
    match r {
        Ok(Some(v)) => Ok(v),
        Ok(None) => Ok(Value::Integer(0)),
        Err(x) => Err(x),
    }
}

/// Evaluates an expression in state `m`: the state after, and the value or the
/// first error.
pub open spec fn eval_expr(m: Model, e: Expression, fuel: nat) -> (Model, Result<Value, EvalError>)
    decreases fuel, 0nat, e, 2nat,
{
    match binary_parts(e) {
        Some((op, lhs, rhs)) => {
            let (m1, a) = eval_expr(m, *lhs, fuel);
            match a {
                Err(x) => (m1, Err(x)),
                Ok(a) => {
                    let (m2, b) = eval_expr(m1, *rhs, fuel);
                    match b {
                        Err(x) => (m2, Err(x)),
                        Ok(b) => (m2, apply_binary(op, a, b)),
                    }
                },
            }
        },
        None => match compare_parts(e) {
            Some((op, lhs, rhs)) => {
                let (m1, a) = eval_expr(m, *lhs, fuel);
                match a {
                    Err(x) => (m1, Err(x)),
                    Ok(a) => {
                        let (m2, b) = eval_expr(m1, *rhs, fuel);
                        match b {
                            Err(x) => (m2, Err(x)),
                            Ok(b) => (m2, Ok(compare_value(op, a, b))),
                        }
                    },
                }
            },
            None => match compound_assign_parts(e) {
                Some((op, lhs, rhs)) => match *lhs {
                    Expression::Identifier(id) => {
                        let (m1, b) = eval_expr(m, *rhs, fuel);
                        match b {
                            Err(x) => (m1, Err(x)),
                            Ok(b) => match m1.lookup(id.spec_name()) {
                                None => (m1, Err(EvalError::UndefinedIdentifier)),
                                Some(a) => match apply_binary(op, a, b) {
                                    Err(x) => (m1, Err(x)),
                                    Ok(v) => (m1.assign(id.spec_name(), Some(v)), Ok(v)),
                                },
                            },
                        }
                    },
                    _ => (m, Err(EvalError::InvalidAssignmentTarget)),
                },
                None => match unary_parts(e) {
                    Some((op, rhs)) => {
                        let (m1, a) = eval_expr(m, *rhs, fuel);
                        match a {
                            Err(x) => (m1, Err(x)),
                            Ok(a) => (m1, Ok(unary_value(op, a))),
                        }
                    },
                    None => match step_parts(e) {
                        Some((op, target, post)) => match *target {
                            Expression::Identifier(id) => match m.lookup(id.spec_name()) {
                                None => (m, Err(EvalError::UndefinedIdentifier)),
                                Some(a) => {
                                    let n = unary_value(op, a);
                                    (m.assign(id.spec_name(), Some(n)), Ok(if post { a } else { n }))
                                },
                            },
                            Expression::Constant(c) => (m, Ok(unary_value(op, c@))),
                            _ => (m, Err(EvalError::InvalidAssignmentTarget)),
                        },
                        None => eval_other(m, e, fuel),
                    },
                },
            },
        },
    }
}

/// The expressions that no operator table covers.
pub open spec fn eval_other(m: Model, e: Expression, fuel: nat) -> (Model, Result<Value, EvalError>)
    decreases fuel, 0nat, e, 1nat,
{
    match e {
        Expression::Assign { lhs, rhs } => match *lhs {
            Expression::Identifier(id) => {
                let (m1, r) = eval_expr(m, *rhs, fuel);
                match r {
                    Err(x) => (m1, Err(x)),
                    Ok(v) => (m1.assign(id.spec_name(), Some(v)), Ok(v)),
                }
            },
            _ => (m, Err(EvalError::InvalidAssignmentTarget)),
        },
        Expression::Ternary { condition, yes, no } => {
            let (m1, c) = eval_expr(m, *condition, fuel);
            match c {
                Err(x) => (m1, Err(x)),
                Ok(c) => if c.truthy() {
                    eval_expr(m1, *yes, fuel)
                } else {
                    eval_expr(m1, *no, fuel)
                },
            }
        },
        Expression::UnaryPlus { rhs } => eval_expr(m, *rhs, fuel),
        Expression::VectorIndex { vector, index } => {
            let (m1, a) = eval_expr(m, *vector, fuel);
            match a {
                Err(x) => (m1, Err(x)),
                Ok(a) => {
                    let (m2, b) = eval_expr(m1, *index, fuel);
                    match b {
                        Err(x) => (m2, Err(x)),
                        Ok(b) => (m2, index_value(a, b)),
                    }
                },
            }
        },
        Expression::Constant(c) => match c {
            Const::Vector(v) => {
                let (m1, r) = eval_list(m, v@, Seq::empty(), fuel);
                match r {
                    Err(x) => (m1, Err(x)),
                    Ok(vals) => (m1, Ok(Value::Vector(vals))),
                }
            },
            _ => (m, Ok(c@)),
        },
        Expression::Identifier(id) => match m.lookup(id.spec_name()) {
            Some(v) => (m, Ok(v)),
            None => (m, Err(EvalError::UndefinedIdentifier)),
        },
        Expression::FunctionCall { ident, args } => eval_call(m, ident.spec_name(), args@, fuel),
        _ => (m, Err(EvalError::Unimplemented)),
    }
}

/// Calls the function named `name` with the argument expressions `args`: builtins
/// run in the caller's frame; a defined function runs its body in a new frame
/// that holds only its parameters, popped when the body ends.
pub open spec fn eval_call(m: Model, name: Seq<char>, args: Seq<Box<Expression>>, fuel: nat) -> (Model, Result<Value, EvalError>)
    decreases fuel, 0nat, args, 2nat,
{
    if !m.functions.contains_key(name) {
        (m, Err(EvalError::UndefinedIdentifier))
    } else {
        let f = m.functions[name];
        let (m1, r) = eval_list(m, args, Seq::empty(), fuel);
        match r {
            Err(x) => (m1, Err(x)),
            Ok(vals) => match f {
                Function::Builtin(Builtin::Puts) => (
                    Model {
                        functions: m1.functions,
                        frames: m1.frames,
                        output: m1.output + vals.map_values(|v: Value| display(v)),
                    },
                    Ok(Value::Integer(0)),
                ),
                Function::Builtin(Builtin::Format) => (m1, format_values(vals)),
                Function::Defined { args: params, body } => if fuel == 0 {
                    (m1, Err(EvalError::BudgetExhausted))
                } else {
                    let m2 = Model {
                        functions: m1.functions,
                        frames: m1.frames.push(bind_params(params@, vals)),
                        output: m1.output,
                    };
                    let (m3, r) = eval_stmt(m2, *body, (fuel - 1) as nat);
                    (
                        Model { functions: m3.functions, frames: m3.frames.drop_last(), output: m3.output },
                        call_result(r),
                    )
                },
            },
        }
    }
}

/// Evaluates expressions left to right, appending their values to `done`.
pub open spec fn eval_list(m: Model, es: Seq<Box<Expression>>, done: Seq<Value>, fuel: nat) -> (Model, Result<Seq<Value>, EvalError>)
    decreases fuel, 0nat, es, 1nat,
{
    if es.len() == 0 {
        (m, Ok(done))
    } else {
        let (m1, r) = eval_expr(m, *es[0], fuel);
        match r {
            Err(x) => (m1, Err(x)),
            Ok(v) => eval_list(m1, es.drop_first(), done.push(v), fuel),
        }
    }
}

/// Executes a statement: the state after, and either no early return, a
/// returned value, or the first error.
pub open spec fn eval_stmt(m: Model, s: Statement, fuel: nat) -> (Model, Result<Option<Value>, EvalError>)
    decreases fuel, 1nat, s, 2nat,
{
    match s {
        Statement::Compound(stmts) => eval_block(m, stmts@, fuel),
        Statement::Return(_) => {
            let (m1, r) = eval_expr(m, s->Return_0, fuel);
            match r {
                Err(x) => (m1, Err(x)),
                Ok(v) => (m1, Ok(Some(v))),
            }
        },
        Statement::Expression(_) => {
            let (m1, r) = eval_expr(m, s->Expression_0, fuel);
            match r {
                Err(x) => (m1, Err(x)),
                Ok(_) => (m1, Ok(None)),
            }
        },
        Statement::Declaration { scope, idents } => match scope {
            VariableScope::Local => (declare(m, idents@), Ok(None)),
            VariableScope::Extern => (m, Ok(None)),
        },
        Statement::Conditional { body, e, .. } => {
            let (m1, c) = eval_expr(m, s->Conditional_condition, fuel);
            match c {
                Err(x) => (m1, Err(x)),
                Ok(c) => if c.truthy() {
                    eval_stmt(m1, *body, fuel)
                } else {
                    match e {
                        Some(other) => eval_stmt(m1, *other, fuel),
                        None => (m1, Ok(None)),
                    }
                },
            }
        },
        Statement::Loop { .. } => eval_loop(m, s, fuel),
        Statement::FunctionDefinition { ident, .. } => (
            Model {
                functions: m.functions.insert(ident.spec_name(), defined_function(s)),
                frames: m.frames,
                output: m.output,
            },
            Ok(None),
        ),
        Statement::Label(_) | Statement::Goto(_) => (m, Err(EvalError::Unimplemented)),
        _ => (m, Ok(None)),
    }
}

/// Executes statements in order, stopping at the first that returns.
pub open spec fn eval_block(m: Model, stmts: Seq<Statement>, fuel: nat) -> (Model, Result<Option<Value>, EvalError>)
    decreases fuel, 1nat, stmts, 1nat,
{
    if stmts.len() == 0 {
        (m, Ok(None))
    } else {
        let (m1, r) = eval_stmt(m, stmts[0], fuel);
        match r {
            Ok(None) => eval_block(m1, stmts.drop_first(), fuel),
            _ => (m1, r),
        }
    }
}

/// Runs a loop statement: while the condition is true, the body; a return in
/// the body ends the loop. Each iteration spends one unit of the budget.
pub open spec fn eval_loop(m: Model, s: Statement, fuel: nat) -> (Model, Result<Option<Value>, EvalError>)
    decreases fuel, 1nat, s, 1nat,
{
    match s {
        Statement::Loop { body, .. } => if fuel == 0 {
            (m, Err(EvalError::BudgetExhausted))
        } else {
            let (m1, c) = eval_expr(m, s->Loop_condition, fuel);
            match c {
                Err(x) => (m1, Err(x)),
                Ok(c) => if !c.truthy() {
                    (m1, Ok(None))
                } else {
                    let (m2, r) = eval_stmt(m1, *body, fuel);
                    match r {
                        Ok(None) => eval_loop(m2, s, (fuel - 1) as nat),
                        _ => (m2, r),
                    }
                },
            }
        },
        _ => (m, Ok(None)),
    }
}

/// Executes a program's top-level statements in order, each with the whole
/// budget, ignoring what they return; the first error stops the run.
pub open spec fn eval_file(m: Model, stmts: Seq<Statement>, fuel: nat) -> (Model, Result<(), EvalError>)
    decreases stmts.len(),
{
    if stmts.len() == 0 {
        (m, Ok(()))
    } else {
        let (m1, r) = eval_stmt(m, stmts[0], fuel);
        match r {
            Err(x) => (m1, Err(x)),
            Ok(_) => eval_file(m1, stmts.drop_first(), fuel),
        }
    }
}

} // verus!
