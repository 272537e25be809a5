//! The evaluator: walks expressions and statements over a stack of scopes.
use vstd::prelude::*;
use vstd::string::*;

use crate::ast::{
    binary_parts, compare_parts, compound_assign_parts, element_value, element_values, lemma_element_values,
    step_parts, unary_parts, Const, Expression, Identifier, Statement, VariableScope,
};
use crate::scope::{option_value, Builtin, Function};
use crate::semantics::{
    bind_first, bind_params, declare, eval_block, eval_call,
    eval_expr, eval_file, eval_list, eval_loop, eval_other, eval_stmt, Model,
};
use crate::text::{compare_consts, display_string, substitute_placeholders};
use crate::value::{
    comparison_holds, display, divides_by_zero, format_values, BinaryOp, CompareOp, EvalError,
    UnaryOp, Value,
};

pub use crate::scope::Scope;

verus! {

/// Relies on `Box::leak`: the reference points at the value, which is never
/// freed.
#[verifier::external_body]
fn keep_forever<T: 'static>(v: T) -> (r: &'static T)
    ensures
        *r == v,
{
    Box::leak(Box::new(v))
}

/// The values of a sequence of constants.
pub open spec fn values_of(s: Seq<Const>) -> Seq<Value> {
    s.map_values(|c: Const| c@)
}

/// A result with its constant seen as a value.
pub open spec fn value_result(r: Result<Const, EvalError>) -> Result<Value, EvalError> {
    match r {
        Ok(c) => Ok(c@),
        Err(x) => Err(x),
    }
}

/// A statement's result with its returned constant seen as a value.
pub open spec fn return_result(r: Result<Option<Const>, EvalError>) -> Result<Option<Value>, EvalError> {
    match r {
        Ok(Some(c)) => Ok(Some(c@)),
        Ok(None) => Ok(None),
        Err(x) => Err(x),
    }
}

/// The state of a fresh interpreter: the builtins, an empty global frame, no output.
pub open spec fn initial_model() -> Model {
    Model {
        functions: map![
            "puts"@ => Function::Builtin(Builtin::Puts),
            "format"@ => Function::Builtin(Builtin::Format),
        ],
        frames: seq![Map::empty()],
        output: Seq::empty(),
    }
}

fn divides_by_zero_exec(op: BinaryOp, a: &Const, b: &Const) -> (r: bool)
    ensures
        r == divides_by_zero(op, a@, b@),
{
    (op == BinaryOp::Divide || op == BinaryOp::Modulo) && matches!(a, Const::Integer(_))
        && matches!(b, Const::Integer(0))
}

fn comparison_holds_exec(op: CompareOp, c: i8) -> (r: bool)
    ensures
        r == comparison_holds(op, c as int),
{
    match op {
        CompareOp::Equal => c == 0,
        CompareOp::NotEqual => c != 0,
        CompareOp::Less => c < 0,
        CompareOp::More => c > 0,
        CompareOp::LessEqual => c <= 0,
        CompareOp::MoreEqual => c >= 0,
    }
}

/// The builtin `format` on evaluated arguments.
#[verifier::loop_isolation(false)]
fn format_builtin(args: &Vec<Const>) -> (r: Result<Const, EvalError>)
    ensures
        value_result(r) == format_values(values_of(args@)),
{
    let ghost vals = values_of(args@);
    if args.len() == 0 {
        return Err(EvalError::ArityOrArgumentError);
    }
    match &args[0] {
        Const::String(fmt) => {
            if args.len() < 2 {
                return Err(EvalError::ArityOrArgumentError);
            }
            match &args[1] {
                Const::Vector(items) => {
                    proof {
                        lemma_element_values(items@);
                    }
                    let mut i: usize = 0;
                    while i < items.len()
                        invariant
                            i <= items.len(),
                            element_values(items@).len() == items.len(),
                            forall|j: int| 0 <= j < i ==> !(#[trigger] element_values(items@)[j] is Unevaluated),
                        decreases items.len() - i,
                    {
                        proof {
                            lemma_element_values(items@);
                        }
                        if !matches!(&*items[i], Expression::Constant(_)) {
                            proof {
                                assert(element_values(items@)[i as int] is Unevaluated);
                            }
                            return Err(EvalError::TypeMismatch);
                        }
                        i = i + 1;
                    }
                    match substitute_placeholders(fmt, items) {
                        Some(s) => Ok(Const::String(s)),
                        None => Err(EvalError::ArityOrArgumentError),
                    }
                },
                _ => Err(EvalError::ArityOrArgumentError),
            }
        },
        _ => Err(EvalError::TypeMismatch),
    }
}

/// A new call frame that binds `params` to `vals` by position.
#[verifier::loop_isolation(false)]
fn bind_frame(params: &Vec<Identifier>, vals: Vec<Const>) -> (r: Scope)
    ensures
        r.variable_table() == bind_params(params@, values_of(vals@)),
{
    let ghost all = vals@;
    let n = if params.len() < vals.len() { params.len() } else { vals.len() };
    let mut rest = vals;
    let mut scope = Scope::new();
    let mut i: usize = 0;
    proof {
        assert(all.skip(0) =~= all);
        assert(scope.variable_table() =~= bind_first(params@, values_of(all), 0));
    }
    while i < n
        invariant
            n <= params.len(),
            n <= all.len(),
            i <= n,
            rest@ == all.skip(i as int),
            scope.variable_table() == bind_first(params@, values_of(all), i as nat),
        decreases n - i,
    {
        let v = rest.remove(0);
        scope.set_var(&params[i], Some(v));
        proof {
            assert(all.skip(i as int).drop_first() =~= all.skip(i + 1));
        }
        i = i + 1;
    }
    scope
}

/// The evaluator's state: the scope stack (index 0 is the global scope, the
/// last is the current call frame), the lines `puts` printed, and the budget
/// that each top-level evaluation may spend on calls and loop iterations.
pub struct Interpreter {
    scopes: Vec<Scope>,
    output: Vec<String>,
    budget: u64,
}

impl View for Interpreter {
    type V = Model;

    closed spec fn view(&self) -> Model {
        Model {
            functions: self.scopes@[0].function_table(),
            frames: Seq::new(self.scopes.len() as nat, |i: int| self.scopes@[i].variable_table()),
            output: Seq::new(self.output.len() as nat, |i: int| self.output@[i]@),
        }
    }
}

impl Interpreter {
    /// The scope stack is never empty.
    pub closed spec fn wf(&self) -> bool {
        self.scopes.len() >= 1
    }

    /// The number of scopes on the stack.
    pub closed spec fn depth(&self) -> nat {
        self.scopes.len() as nat
    }

    /// The budget of each top-level evaluation.
    pub closed spec fn spec_budget(&self) -> nat {
        self.budget as nat
    }

    /// A fresh interpreter: the builtins `puts` and `format`, an empty global
    /// scope, no output, and the largest budget.
    pub fn new() -> (r: Self)
        ensures
            r.wf(),
            r@ == initial_model(),
            r.depth() == 1,
            r.spec_budget() == u64::MAX,
    {
        let mut scopes: Vec<Scope> = Vec::new();
        scopes.push(Scope::global());
        let r = Interpreter { scopes, output: Vec::new(), budget: u64::MAX };
        proof {
            assert(r@.frames =~= initial_model().frames);
            assert(r@.output =~= initial_model().output);
        }
        r
    }

    /// Sets the budget of each later top-level evaluation.
    pub fn set_budget(&mut self, budget: u64)
        ensures
            final(self)@ == old(self)@,
            final(self).wf() == old(self).wf(),
            final(self).depth() == old(self).depth(),
            final(self).spec_budget() == budget,
    {
        self.budget = budget;
    }

    /// The lines printed by `puts` so far.
    pub fn output(&self) -> (r: &Vec<String>)
        ensures
            r.len() == self@.output.len(),
            forall|i: int| 0 <= i < r.len() ==> (#[trigger] r@[i])@ == self@.output[i],
    {
        &self.output
    }

    /// The current (innermost) scope.
    pub fn current_scope(&self) -> (r: &Scope)
        requires
            self.wf(),
        ensures
            r.variable_table() == self@.frames.last(),
    {
        &self.scopes[self.scopes.len() - 1]
    }

    /// The global scope.
    pub fn global_scope(&self) -> (r: &Scope)
        requires
            self.wf(),
        ensures
            r.variable_table() == self@.frames[0],
            r.function_table() == self@.functions,
    {
        &self.scopes[0]
    }

    /// A variable's value: from the current scope if it holds one there, else
    /// from the global scope.
    pub fn get_var(&self, ident: &Identifier) -> (r: Option<Const>)
        requires
            self.wf(),
        ensures
            option_value(r) == self@.lookup(ident.spec_name()),
    {
        let last = self.scopes.len() - 1;
        match self.scopes[last].get_var(ident) {
            Some(c) => Some(c),
            None => self.scopes[0].get_var(ident),
        }
    }

    /// The function of this name, if one is defined.
    pub fn get_func(&self, ident: &Identifier) -> (r: Option<Function>)
        requires
            self.wf(),
        ensures
            r == (if self@.functions.contains_key(ident.spec_name()) {
                Some(self@.functions[ident.spec_name()])
            } else {
                None
            }),
    {
        self.scopes[0].get_func(ident)
    }

    /// Binds a variable in the current scope.
    fn assign(&mut self, ident: &Identifier, value: Option<Const>)
        requires
            old(self).wf(),
        ensures
            final(self).wf(),
            final(self).depth() == old(self).depth(),
            final(self).budget == old(self).budget,
            old(self).depth() > 1 ==> final(self)@.frames[0] == old(self)@.frames[0],
            final(self)@ == old(self)@.assign(ident.spec_name(), option_value(value)),
    {
        let last = self.scopes.len() - 1;
        let ghost before = self@;
        self.scopes[last].set_var(ident, value);
        proof {
            assert(self@.frames =~= before.frames.update(
                last as int,
                before.frames.last().insert(ident.spec_name(), option_value(value)),
            ));
            assert(self@.output =~= before.output);
        }
    }

    /// Declares `ident` in the current scope, holding the value of `value`
    /// where one is given.
    pub fn add_var(&mut self, ident: &Identifier, value: Option<&Expression>) -> (r: Result<(), EvalError>)
        requires
            old(self).wf(),
        ensures
            final(self).wf(),
            final(self).depth() == old(self).depth(),
            match value {
                None => final(self)@ == old(self)@.assign(ident.spec_name(), None) && r is Ok,
                Some(e) => {
                    let (m1, v) = eval_expr(old(self)@, *e, old(self).spec_budget());
                    match v {
                        Ok(v) => r is Ok && final(self)@ == m1.assign(ident.spec_name(), Some(v)),
                        Err(x) => r == Err::<(), EvalError>(x) && final(self)@ == m1,
                    }
                },
            },
    {
        match value {
            None => {
                self.assign(ident, None);
                Ok(())
            },
            Some(e) => {
                let fuel = self.budget;
                match self.eval_expr_in(e, fuel) {
                    Ok(v) => {
                        self.assign(ident, Some(v));
                        Ok(())
                    },
                    Err(x) => Err(x),
                }
            },
        }
    }

    /// Extern declarations bind nothing.
    pub fn add_extern(&mut self, ident: &Identifier)
        ensures
            final(self)@ == old(self)@,
            final(self).wf() == old(self).wf(),
            final(self).depth() == old(self).depth(),
    {
    }
}

impl Interpreter {
    /// Evaluates an expression with `fuel` of budget.
    fn eval_expr_in(&mut self, e: &Expression, fuel: u64) -> (r: Result<Const, EvalError>)
        requires
            old(self).wf(),
        ensures
            final(self).wf(),
            final(self).depth() == old(self).depth(),
            final(self).budget == old(self).budget,
            old(self).depth() > 1 ==> final(self)@.frames[0] == old(self)@.frames[0],
            (final(self)@, value_result(r)) == eval_expr(old(self)@, *e, fuel as nat),
        decreases fuel, 0nat, e, 2nat,
    {
        match e {
            Expression::Or { lhs, rhs } => self.binary_operation(e, BinaryOp::Or, lhs, rhs, fuel),
            Expression::Xor { lhs, rhs } => self.binary_operation(e, BinaryOp::Xor, lhs, rhs, fuel),
            Expression::And { lhs, rhs } => self.binary_operation(e, BinaryOp::And, lhs, rhs, fuel),
            Expression::ShiftLeft { lhs, rhs } => self.binary_operation(e, BinaryOp::ShiftLeft, lhs, rhs, fuel),
            Expression::ShiftRight { lhs, rhs } => self.binary_operation(e, BinaryOp::ShiftRight, lhs, rhs, fuel),
            Expression::Add { lhs, rhs } => self.binary_operation(e, BinaryOp::Add, lhs, rhs, fuel),
            Expression::Subtract { lhs, rhs } => self.binary_operation(e, BinaryOp::Subtract, lhs, rhs, fuel),
            Expression::Multiply { lhs, rhs } => self.binary_operation(e, BinaryOp::Multiply, lhs, rhs, fuel),
            Expression::Divide { lhs, rhs } => self.binary_operation(e, BinaryOp::Divide, lhs, rhs, fuel),
            Expression::Modulo { lhs, rhs } => self.binary_operation(e, BinaryOp::Modulo, lhs, rhs, fuel),
            Expression::Equal { lhs, rhs } => self.comparison(e, CompareOp::Equal, lhs, rhs, fuel),
            Expression::NotEqual { lhs, rhs } => self.comparison(e, CompareOp::NotEqual, lhs, rhs, fuel),
            Expression::Less { lhs, rhs } => self.comparison(e, CompareOp::Less, lhs, rhs, fuel),
            Expression::More { lhs, rhs } => self.comparison(e, CompareOp::More, lhs, rhs, fuel),
            Expression::LessEqual { lhs, rhs } => self.comparison(e, CompareOp::LessEqual, lhs, rhs, fuel),
            Expression::MoreEqual { lhs, rhs } => self.comparison(e, CompareOp::MoreEqual, lhs, rhs, fuel),
            Expression::AssignOr { lhs, rhs } => self.assign_and(e, BinaryOp::Or, lhs, rhs, fuel),
            Expression::AssignXor { lhs, rhs } => self.assign_and(e, BinaryOp::Xor, lhs, rhs, fuel),
            Expression::AssignAnd { lhs, rhs } => self.assign_and(e, BinaryOp::And, lhs, rhs, fuel),
            Expression::AssignShiftLeft { lhs, rhs } => self.assign_and(e, BinaryOp::ShiftLeft, lhs, rhs, fuel),
            Expression::AssignShiftRight { lhs, rhs } => self.assign_and(e, BinaryOp::ShiftRight, lhs, rhs, fuel),
            Expression::AssignAdd { lhs, rhs } => self.assign_and(e, BinaryOp::Add, lhs, rhs, fuel),
            Expression::AssignSubtract { lhs, rhs } => self.assign_and(e, BinaryOp::Subtract, lhs, rhs, fuel),
            Expression::AssignMultiply { lhs, rhs } => self.assign_and(e, BinaryOp::Multiply, lhs, rhs, fuel),
            Expression::AssignDivide { lhs, rhs } => self.assign_and(e, BinaryOp::Divide, lhs, rhs, fuel),
            Expression::AssignModulo { lhs, rhs } => self.assign_and(e, BinaryOp::Modulo, lhs, rhs, fuel),
            Expression::Not { rhs } => self.unary_operation(e, UnaryOp::Not, rhs, fuel),
            Expression::Complement { rhs } => self.unary_operation(e, UnaryOp::Complement, rhs, fuel),
            Expression::UnaryMinus { rhs } => self.unary_operation(e, UnaryOp::Minus, rhs, fuel),
            Expression::PreIncrement { rhs } => self.step(e, UnaryOp::Increment, rhs, false),
            Expression::PreDecrement { rhs } => self.step(e, UnaryOp::Decrement, rhs, false),
            Expression::PostIncrement { lhs } => self.step(e, UnaryOp::Increment, lhs, true),
            Expression::PostDecrement { lhs } => self.step(e, UnaryOp::Decrement, lhs, true),
            _ => self.eval_other(e, fuel),
        }
    }

    /// Both operands left to right, then the operator.
    fn binary_operation(&mut self, e: &Expression, op: BinaryOp, lhs: &Box<Expression>, rhs: &Box<Expression>, fuel: u64) -> (r: Result<Const, EvalError>)
        requires
            old(self).wf(),
            binary_parts(*e) == Some((op, *lhs, *rhs)),
        ensures
            final(self).wf(),
            final(self).depth() == old(self).depth(),
            final(self).budget == old(self).budget,
            old(self).depth() > 1 ==> final(self)@.frames[0] == old(self)@.frames[0],
            (final(self)@, value_result(r)) == eval_expr(old(self)@, *e, fuel as nat),
        decreases fuel, 0nat, e, 1nat,
    {
        let a = match self.eval_expr_in(lhs, fuel) {
            Ok(a) => a,
            Err(x) => return Err(x),
        };
        let b = match self.eval_expr_in(rhs, fuel) {
            Ok(b) => b,
            Err(x) => return Err(x),
        };
        if divides_by_zero_exec(op, &a, &b) {
            Err(EvalError::DivisionByZero)
        } else {
            Ok(a.binary(op, &b))
        }
    }

    /// Both operands left to right, then `1` if the comparison holds, else `0`.
    fn comparison(&mut self, e: &Expression, op: CompareOp, lhs: &Box<Expression>, rhs: &Box<Expression>, fuel: u64) -> (r: Result<Const, EvalError>)
        requires
            old(self).wf(),
            compare_parts(*e) == Some((op, *lhs, *rhs)),
        ensures
            final(self).wf(),
            final(self).depth() == old(self).depth(),
            final(self).budget == old(self).budget,
            old(self).depth() > 1 ==> final(self)@.frames[0] == old(self)@.frames[0],
            (final(self)@, value_result(r)) == eval_expr(old(self)@, *e, fuel as nat),
        decreases fuel, 0nat, e, 1nat,
    {
        let a = match self.eval_expr_in(lhs, fuel) {
            Ok(a) => a,
            Err(x) => return Err(x),
        };
        let b = match self.eval_expr_in(rhs, fuel) {
            Ok(b) => b,
            Err(x) => return Err(x),
        };
        let c = compare_consts(&a, &b);
        Ok(Const::Integer(if comparison_holds_exec(op, c) { 1 } else { 0 }))
    }

    /// A compound assignment: the right operand, then the operator applied to
    /// the variable's value and it, stored back in the current scope.
    fn assign_and(&mut self, e: &Expression, op: BinaryOp, lhs: &Box<Expression>, rhs: &Box<Expression>, fuel: u64) -> (r: Result<Const, EvalError>)
        requires
            old(self).wf(),
            compound_assign_parts(*e) == Some((op, *lhs, *rhs)),
        ensures
            final(self).wf(),
            final(self).depth() == old(self).depth(),
            final(self).budget == old(self).budget,
            old(self).depth() > 1 ==> final(self)@.frames[0] == old(self)@.frames[0],
            (final(self)@, value_result(r)) == eval_expr(old(self)@, *e, fuel as nat),
        decreases fuel, 0nat, e, 1nat,
    {
        match &**lhs {
            Expression::Identifier(ident) => {
                let b = match self.eval_expr_in(rhs, fuel) {
                    Ok(b) => b,
                    Err(x) => return Err(x),
                };
                let a = match self.get_var(ident) {
                    Some(a) => a,
                    None => return Err(EvalError::UndefinedIdentifier),
                };
                if divides_by_zero_exec(op, &a, &b) {
                    return Err(EvalError::DivisionByZero);
                }
                let v = a.binary(op, &b);
                self.assign(ident, Some(v.duplicate()));
                Ok(v)
            },
            _ => Err(EvalError::InvalidAssignmentTarget),
        }
    }

    /// The operand, then the operator.
    fn unary_operation(&mut self, e: &Expression, op: UnaryOp, rhs: &Box<Expression>, fuel: u64) -> (r: Result<Const, EvalError>)
        requires
            old(self).wf(),
            unary_parts(*e) == Some((op, *rhs)),
        ensures
            final(self).wf(),
            final(self).depth() == old(self).depth(),
            final(self).budget == old(self).budget,
            old(self).depth() > 1 ==> final(self)@.frames[0] == old(self)@.frames[0],
            (final(self)@, value_result(r)) == eval_expr(old(self)@, *e, fuel as nat),
        decreases fuel, 0nat, e, 1nat,
    {
        match self.eval_expr_in(rhs, fuel) {
            Ok(a) => Ok(a.unary(op)),
            Err(x) => Err(x),
        }
    }

    /// An increment or decrement: of a variable, stored back, yielding the
    /// new value (prefix) or the old one (postfix); of a constant, its stepped value.
    fn step(&mut self, e: &Expression, op: UnaryOp, target: &Box<Expression>, post: bool) -> (r: Result<Const, EvalError>)
        requires
            old(self).wf(),
            step_parts(*e) == Some((op, *target, post)),
        ensures
            final(self).wf(),
            final(self).depth() == old(self).depth(),
            final(self).budget == old(self).budget,
            old(self).depth() > 1 ==> final(self)@.frames[0] == old(self)@.frames[0],
            forall|fuel: nat| (final(self)@, value_result(r)) == #[trigger] eval_expr(old(self)@, *e, fuel),
    {
        match &**target {
            Expression::Identifier(ident) => {
                let a = match self.get_var(ident) {
                    Some(a) => a,
                    None => return Err(EvalError::UndefinedIdentifier),
                };
                let n = a.unary(op);
                if post {
                    self.assign(ident, Some(n));
                    Ok(a)
                } else {
                    self.assign(ident, Some(n.duplicate()));
                    Ok(n)
                }
            },
            Expression::Constant(c) => Ok(c.unary(op)),
            _ => Err(EvalError::InvalidAssignmentTarget),
        }
    }
}

impl Interpreter {
    /// Assignment, ternary, unary plus, indexing, constants, identifiers and calls.
    #[verifier::loop_isolation(false)]
    fn eval_other(&mut self, e: &Expression, fuel: u64) -> (r: Result<Const, EvalError>)
        requires
            old(self).wf(),
        ensures
            final(self).wf(),
            final(self).depth() == old(self).depth(),
            final(self).budget == old(self).budget,
            old(self).depth() > 1 ==> final(self)@.frames[0] == old(self)@.frames[0],
            (final(self)@, value_result(r)) == eval_other(old(self)@, *e, fuel as nat),
        decreases fuel, 0nat, e, 1nat,
    {
        match e {
            Expression::Assign { lhs, rhs } => match &**lhs {
                Expression::Identifier(ident) => {
                    let v = match self.eval_expr_in(rhs, fuel) {
                        Ok(v) => v,
                        Err(x) => return Err(x),
                    };
                    self.assign(ident, Some(v.duplicate()));
                    Ok(v)
                },
                _ => Err(EvalError::InvalidAssignmentTarget),
            },
            Expression::Ternary { condition, yes, no } => {
                let c = match self.eval_expr_in(condition, fuel) {
                    Ok(c) => c,
                    Err(x) => return Err(x),
                };
                if c.truthy() {
                    self.eval_expr_in(yes, fuel)
                } else {
                    self.eval_expr_in(no, fuel)
                }
            },
            Expression::UnaryPlus { rhs } => self.eval_expr_in(rhs, fuel),
            Expression::VectorIndex { vector, index } => {
                let a = match self.eval_expr_in(vector, fuel) {
                    Ok(a) => a,
                    Err(x) => return Err(x),
                };
                let b = match self.eval_expr_in(index, fuel) {
                    Ok(b) => b,
                    Err(x) => return Err(x),
                };
                a.index(b)
            },
            Expression::Constant(c) => match c {
                Const::Vector(v) => {
                    proof {
                        assert(decreases_to!(*e => (*e)->Constant_0));
                        let ghost cc = (*e)->Constant_0;
                        assert(decreases_to!(cc => cc->Vector_0));
                    }
                    let mut vals: Vec<Const> = Vec::new();
                    proof {
                        assert(values_of(vals@) =~= Seq::<Value>::empty());
                    }
                    match self.eval_list(v, &mut vals, fuel) {
                        Ok(()) => {},
                        Err(x) => return Err(x),
                    }
                    let mut items: Vec<Box<Expression>> = Vec::new();
                    let mut rest = vals;
                    let ghost all = values_of(rest@);
                    proof {
                        assert(all.skip(0) =~= all);
                    }
                    while rest.len() > 0
                        invariant
                            values_of(rest@) == all.skip(items.len() as int),
                            element_values(items@) == all.take(items.len() as int),
                            items.len() + rest.len() == all.len(),
                        decreases rest.len(),
                    {
                        let ghost old_rest = rest@;
                        let c = rest.remove(0);
                        let ghost before = items@;
                        proof {
                            assert(values_of(old_rest)[0] == c@);
                            assert(all.skip(items.len() as int)[0] == all[items.len() as int]);
                            assert(rest@ =~= old_rest.drop_first());
                        }
                        items.push(Box::new(Expression::Constant(c)));
                        proof {
                            assert(items@.drop_last() =~= before);
                            assert(*items@.last() == Expression::Constant(c));
                            assert(element_value(*items@.last()) == c@);
                            assert(element_values(items@) == element_values(before).push(c@));
                            assert(all.take(items.len() as int) =~= all.take(before.len() as int).push(c@));
                            assert(values_of(rest@) =~= values_of(old_rest).drop_first());
                            assert(all.skip(before.len() as int).drop_first() =~= all.skip(items.len() as int));
                        }
                    }
                    proof {
                        assert(all.take(items.len() as int) =~= all);
                    }
                    Ok(Const::Vector(items))
                },
                _ => Ok(c.duplicate()),
            },
            Expression::Identifier(ident) => match self.get_var(ident) {
                Some(v) => Ok(v),
                None => Err(EvalError::UndefinedIdentifier),
            },
            Expression::FunctionCall { ident, args } => {
                proof {
                    assert(decreases_to!(*e => (*e)->FunctionCall_args));
                }
                self.call_in(ident, args, fuel)
            },
            _ => Err(EvalError::Unimplemented),
        }
    }

    /// Evaluates `es` left to right, appending their values to `out`.
    #[verifier::loop_isolation(false)]
    fn eval_list(&mut self, es: &Vec<Box<Expression>>, out: &mut Vec<Const>, fuel: u64) -> (r: Result<(), EvalError>)
        requires
            old(self).wf(),
        ensures
            final(self).wf(),
            final(self).depth() == old(self).depth(),
            final(self).budget == old(self).budget,
            old(self).depth() > 1 ==> final(self)@.frames[0] == old(self)@.frames[0],
            match r {
                Ok(()) => (final(self)@, Ok::<Seq<Value>, EvalError>(values_of(final(out)@))) == eval_list(old(self)@, es@, values_of(old(out)@), fuel as nat),
                Err(x) => eval_list(old(self)@, es@, values_of(old(out)@), fuel as nat) == (final(self)@, Err::<Seq<Value>, EvalError>(x)),
            },
        decreases fuel, 0nat, es, 1nat,
    {
        let ghost m0 = self@;
        let ghost done0 = values_of(out@);
        let mut i: usize = 0;
        proof {
            assert(es@.skip(0) =~= es@);
        }
        while i < es.len()
            invariant
                self.wf(),
                self.depth() == old(self).depth(),
                self.budget == old(self).budget,
                old(self).depth() > 1 ==> self@.frames[0] == old(self)@.frames[0],
                i <= es.len(),
                eval_list(m0, es@, done0, fuel as nat) == eval_list(self@, es@.skip(i as int), values_of(out@), fuel as nat),
            decreases es.len() - i,
        {
            proof {
                vstd::std_specs::vec::axiom_vec_index_decreases(*es, i as int);
                assert(es@.skip(i as int)[0] == es@[i as int]);
                assert(es@.skip(i as int).drop_first() =~= es@.skip(i + 1));
            }
            let ghost before = values_of(out@);
            let ghost mb = self@;
            match self.eval_expr_in(&es[i], fuel) {
                Ok(v) => {
                    out.push(v);
                    proof {
                        assert(values_of(out@) =~= before.push(v@));
                    }
                },
                Err(x) => {
                    proof {
                        assert(eval_expr(mb, *es@[i as int], fuel as nat) == (self@, Err::<Value, EvalError>(x)));
                        assert(eval_list(mb, es@.skip(i as int), before, fuel as nat) == (self@, Err::<Seq<Value>, EvalError>(x)));
                    }
                    return Err(x);
                },
            }
            i = i + 1;
        }
        Ok(())
    }

    /// Calls `ident` with the argument expressions `args`.
    #[verifier::loop_isolation(false)]
    fn call_in(&mut self, ident: &Identifier, args: &Vec<Box<Expression>>, fuel: u64) -> (r: Result<Const, EvalError>)
        requires
            old(self).wf(),
        ensures
            final(self).wf(),
            final(self).depth() == old(self).depth(),
            final(self).budget == old(self).budget,
            old(self).depth() > 1 ==> final(self)@.frames[0] == old(self)@.frames[0],
            (final(self)@, value_result(r)) == eval_call(old(self)@, ident.spec_name(), args@, fuel as nat),
            old(self)@.functions.contains_key(ident.spec_name()) ==> final(self)@.frames[0]
                == eval_list(old(self)@, args@, Seq::empty(), fuel as nat).0.frames[0],
        decreases fuel, 0nat, args, 2nat,
    {
        let f = match self.scopes[0].get_func(ident) {
            Some(f) => f,
            None => return Err(EvalError::UndefinedIdentifier),
        };
        let mut vals: Vec<Const> = Vec::new();
        proof {
            assert(values_of(vals@) =~= Seq::<Value>::empty());
        }
        match self.eval_list(args, &mut vals, fuel) {
            Ok(()) => {},
            Err(x) => return Err(x),
        }
        match f {
            Function::Builtin(Builtin::Puts) => {
                let ghost m1 = self@;
                let mut i: usize = 0;
                while i < vals.len()
                    invariant
                        self.wf(),
                        self.depth() == old(self).depth(),
                        self.budget == old(self).budget,
                        old(self).depth() > 1 ==> self@.frames[0] == old(self)@.frames[0],
                        i <= vals.len(),
                        self@ == (Model {
                            functions: m1.functions,
                            frames: m1.frames,
                            output: m1.output + values_of(vals@).take(i as int).map_values(|v: Value| display(v)),
                        }),
                    decreases vals.len() - i,
                {
                    let ghost before = self@;
                    let line = display_string(&vals[i]);
                    self.output.push(line);
                    proof {
                        assert(values_of(vals@).take(i + 1) =~= values_of(vals@).take(i as int).push(vals@[i as int]@));
                        assert(self@.output =~= before.output.push(line@));
                        assert(m1.output + values_of(vals@).take(i + 1).map_values(|v: Value| display(v))
                            =~= (m1.output + values_of(vals@).take(i as int).map_values(|v: Value| display(v))).push(line@));
                    }
                    i = i + 1;
                }
                proof {
                    assert(values_of(vals@).take(i as int) =~= values_of(vals@));
                }
                Ok(Const::Integer(0))
            },
            Function::Builtin(Builtin::Format) => format_builtin(&vals),
            Function::Defined { args: params, body } => {
                if fuel == 0 {
                    return Err(EvalError::BudgetExhausted);
                }
                let ghost m1 = self@;
                let frame = bind_frame(params, vals);
                self.scopes.push(frame);
                proof {
                    assert(self@.frames =~= m1.frames.push(bind_params(params@, values_of(vals@))));
                    assert(self@.output =~= m1.output);
                }
                let r = self.exec_stmt(body, fuel - 1);
                let ghost m3 = self@;
                self.scopes.pop();
                proof {
                    assert(self@.frames =~= m3.frames.drop_last());
                    assert(self@.output =~= m3.output);
                }
                match r {
                    Ok(Some(v)) => Ok(v),
                    Ok(None) => Ok(Const::Integer(0)),
                    Err(x) => Err(x),
                }
            },
        }
    }

    /// Executes a statement with `fuel` of budget.
    #[verifier::loop_isolation(false)]
    fn exec_stmt(&mut self, s: &'static Statement, fuel: u64) -> (r: Result<Option<Const>, EvalError>)
        requires
            old(self).wf(),
        ensures
            final(self).wf(),
            final(self).depth() == old(self).depth(),
            final(self).budget == old(self).budget,
            old(self).depth() > 1 ==> final(self)@.frames[0] == old(self)@.frames[0],
            (final(self)@, return_result(r)) == eval_stmt(old(self)@, *s, fuel as nat),
        decreases fuel, 1nat, s, 2nat,
    {
        match s {
            Statement::Compound(stmts) => {
                let ghost m0 = self@;
                let mut i: usize = 0;
                proof {
                    assert(stmts@.skip(0) =~= stmts@);
                    assert(decreases_to!(*s => (*s)->Compound_0));
                }
                while i < stmts.len()
                    invariant
                        self.wf(),
                        self.depth() == old(self).depth(),
                        self.budget == old(self).budget,
                        old(self).depth() > 1 ==> self@.frames[0] == old(self)@.frames[0],
                        i <= stmts.len(),
                        *s == Statement::Compound(*stmts),
                        decreases_to!(*s => *stmts),
                        eval_block(m0, stmts@, fuel as nat) == eval_block(self@, stmts@.skip(i as int), fuel as nat),
                    decreases stmts.len() - i,
                {
                    proof {
                        vstd::std_specs::vec::axiom_vec_index_decreases(*stmts, i as int);
                        assert(stmts@.skip(i as int)[0] == stmts@[i as int]);
                        assert(stmts@.skip(i as int).drop_first() =~= stmts@.skip(i + 1));
                    }
                    let ghost mb = self@;
                    let r = self.exec_stmt(&stmts[i], fuel);
                    match r {
                        Ok(None) => {},
                        _ => {
                            proof {
                                assert(eval_stmt(mb, stmts@[i as int], fuel as nat) == (self@, return_result(r)));
                                assert(eval_block(mb, stmts@.skip(i as int), fuel as nat) == (self@, return_result(r)));
                            }
                            return r;
                        },
                    }
                    i = i + 1;
                }
                Ok(None)
            },
            Statement::Return(e) => {
                match self.eval_expr_in(e, fuel) {
                    Ok(v) => Ok(Some(v)),
                    Err(x) => Err(x),
                }
            },
            Statement::Expression(e) => {
                match self.eval_expr_in(e, fuel) {
                    Ok(_) => Ok(None),
                    Err(x) => Err(x),
                }
            },
            Statement::Declaration { scope, idents } => {
                match scope {
                    VariableScope::Local => {
                        let ghost m0 = self@;
                        let mut i: usize = 0;
                        proof {
                            assert(idents@.take(0) =~= Seq::<Identifier>::empty());
                        }
                        while i < idents.len()
                            invariant
                                self.wf(),
                                self.depth() == old(self).depth(),
                                self.budget == old(self).budget,
                                old(self).depth() > 1 ==> self@.frames[0] == old(self)@.frames[0],
                                i <= idents.len(),
                                self@ == declare(m0, idents@.take(i as int)),
                            decreases idents.len() - i,
                        {
                            self.assign(&idents[i], None);
                            proof {
                                assert(idents@.take(i + 1).drop_last() =~= idents@.take(i as int));
                            }
                            i = i + 1;
                        }
                        proof {
                            assert(idents@.take(i as int) =~= idents@);
                        }
                    },
                    VariableScope::Extern => {},
                }
                Ok(None)
            },
            Statement::Conditional { condition, body, e } => {
                let c = match self.eval_expr_in(condition, fuel) {
                    Ok(c) => c,
                    Err(x) => return Err(x),
                };
                if c.truthy() {
                    self.exec_stmt(body, fuel)
                } else {
                    match e {
                        Some(other) => self.exec_stmt(other, fuel),
                        None => Ok(None),
                    }
                }
            },
            Statement::Loop { .. } => self.exec_loop(s, fuel),
            Statement::FunctionDefinition { ident, args, body } => {
                let ghost m0 = self@;
                let f = Function::Defined { args, body };
                self.scopes[0].add_func(ident.copy(), f);
                proof {
                    assert(self@.frames =~= m0.frames);
                    assert(self@.output =~= m0.output);
                }
                Ok(None)
            },
            Statement::Label(_) | Statement::Goto(_) => Err(EvalError::Unimplemented),
            _ => Ok(None),
        }
    }

    /// Runs a loop statement.
    fn exec_loop(&mut self, s: &'static Statement, fuel: u64) -> (r: Result<Option<Const>, EvalError>)
        requires
            old(self).wf(),
            s is Loop,
        ensures
            final(self).wf(),
            final(self).depth() == old(self).depth(),
            final(self).budget == old(self).budget,
            old(self).depth() > 1 ==> final(self)@.frames[0] == old(self)@.frames[0],
            (final(self)@, return_result(r)) == eval_loop(old(self)@, *s, fuel as nat),
        decreases fuel, 1nat, s, 1nat,
    {
        match s {
            Statement::Loop { condition, body } => {
                let mut f = fuel;
                loop
                    invariant_except_break
                        self.wf(),
                        self.depth() == old(self).depth(),
                        self.budget == old(self).budget,
                        old(self).depth() > 1 ==> self@.frames[0] == old(self)@.frames[0],
                        f <= fuel,
                        *s == (Statement::Loop { condition: *condition, body: *body }),
                        eval_loop(old(self)@, *s, fuel as nat) == eval_loop(self@, *s, f as nat),
                    decreases f,
                {
                    if f == 0 {
                        return Err(EvalError::BudgetExhausted);
                    }
                    let c = match self.eval_expr_in(condition, f) {
                        Ok(c) => c,
                        Err(x) => return Err(x),
                    };
                    if !c.truthy() {
                        return Ok(None);
                    }
                    let r = self.exec_stmt(body, f);
                    match r {
                        Ok(None) => {},
                        _ => return r,
                    }
                    f = f - 1;
                }
            },
            _ => Ok(None),
        }
    }
}

impl Interpreter {
    /// Evaluates an expression in the current scope, within the budget.
    pub fn eval_expr(&mut self, expr: Expression) -> (r: Result<Const, EvalError>)
        requires
            old(self).wf(),
        ensures
            final(self).wf(),
            final(self).depth() == old(self).depth(),
            final(self).spec_budget() == old(self).spec_budget(),
            (final(self)@, value_result(r)) == eval_expr(old(self)@, expr, old(self).spec_budget()),
    {
        let fuel = self.budget;
        self.eval_expr_in(&expr, fuel)
    }

    /// Executes a statement in the current scope, within the budget: `Some`
    /// value when it returns one. Functions it defines keep their bodies for the
    /// rest of the process.
    pub fn eval_stmt(&mut self, stmt: Statement) -> (r: Result<Option<Const>, EvalError>)
        requires
            old(self).wf(),
        ensures
            final(self).wf(),
            final(self).depth() == old(self).depth(),
            final(self).spec_budget() == old(self).spec_budget(),
            (final(self)@, return_result(r)) == eval_stmt(old(self)@, stmt, old(self).spec_budget()),
    {
        let s = keep_forever(stmt);
        let fuel = self.budget;
        self.exec_stmt(s, fuel)
    }

    /// Executes a program's top-level statements in order, each within the
    /// budget; what they return is ignored, and the first error stops the run.
    #[verifier::loop_isolation(false)]
    pub fn eval(&mut self, file: Vec<Statement>) -> (r: Result<(), EvalError>)
        requires
            old(self).wf(),
        ensures
            final(self).wf(),
            final(self).depth() == old(self).depth(),
            final(self).spec_budget() == old(self).spec_budget(),
            (final(self)@, r) == eval_file(old(self)@, file@, old(self).spec_budget()),
    {
        let stmts = keep_forever(file);
        let fuel = self.budget;
        let mut i: usize = 0;
        proof {
            assert(stmts@.skip(0) =~= stmts@);
        }
        while i < stmts.len()
            invariant
                self.wf(),
                self.depth() == old(self).depth(),
                self.budget == old(self).budget,
                i <= stmts.len(),
                eval_file(old(self)@, stmts@, fuel as nat) == eval_file(self@, stmts@.skip(i as int), fuel as nat),
            decreases stmts.len() - i,
        {
            proof {
                assert(stmts@.skip(i as int)[0] == stmts@[i as int]);
                assert(stmts@.skip(i as int).drop_first() =~= stmts@.skip(i + 1));
            }
            match self.exec_stmt(&stmts[i], fuel) {
                Ok(_) => {},
                Err(x) => return Err(x),
            }
            i = i + 1;
        }
        Ok(())
    }

    /// Calls a function by name with argument expressions, within the budget.
    /// Builtins run in the current scope; a defined function runs in a new
    /// scope of its own, so the global variables after the call are those that
    /// evaluating the arguments left.
    pub fn call_function(&mut self, ident: &Identifier, arguments: Vec<Box<Expression>>) -> (r: Result<Const, EvalError>)
        requires
            old(self).wf(),
        ensures
            final(self).wf(),
            final(self).depth() == old(self).depth(),
            final(self).spec_budget() == old(self).spec_budget(),
            (final(self)@, value_result(r)) == eval_call(old(self)@, ident.spec_name(), arguments@, old(self).spec_budget()),
            old(self)@.functions.contains_key(ident.spec_name()) ==> final(self)@.frames[0]
                == eval_list(old(self)@, arguments@, Seq::empty(), old(self).spec_budget()).0.frames[0],
    {
        let fuel = self.budget;
        self.call_in(ident, &arguments, fuel)
    }

    /// Calls `main` without arguments, within the budget.
    pub fn call_main(&mut self) -> (r: Result<Const, EvalError>)
        requires
            old(self).wf(),
        ensures
            final(self).wf(),
            final(self).depth() == old(self).depth(),
            final(self).spec_budget() == old(self).spec_budget(),
            (final(self)@, value_result(r)) == eval_call(old(self)@, "main"@, Seq::empty(), old(self).spec_budget()),
    {
        let fuel = self.budget;
        let main = Identifier::Name(String::from_str("main"));
        let no_args: Vec<Box<Expression>> = Vec::new();
        proof {
            assert(no_args@ =~= Seq::<Box<Expression>>::empty());
        }
        self.call_in(&main, &no_args, fuel)
    }

    /// Runs a parsed program: its top-level statements, then `main`. The
    /// result is `main`'s integer, or `0` when `main` returns anything else.
    pub fn interpret_program(&mut self, file: Vec<Statement>) -> (r: Result<i64, EvalError>)
        requires
            old(self).wf(),
        ensures
            final(self).wf(),
            ({
                let b = old(self).spec_budget();
                let (m1, loaded) = eval_file(old(self)@, file@, b);
                match loaded {
                    Err(x) => final(self)@ == m1 && r == Err::<i64, EvalError>(x),
                    Ok(()) => {
                        let (m2, v) = eval_call(m1, "main"@, Seq::empty(), b);
                        final(self)@ == m2 && r == match v {
                            Err(x) => Err(x),
                            Ok(Value::Integer(i)) => Ok(i),
                            Ok(_) => Ok(0),
                        }
                    },
                }
            }),
    {
        match self.eval(file) {
            Ok(()) => {},
            Err(x) => return Err(x),
        }
        match self.call_main() {
            Ok(Const::Integer(i)) => Ok(i),
            Ok(_) => Ok(0),
            Err(x) => Err(x),
        }
    }
}

} // verus!
