//! The syntax tree that the parser hands over, and the operations on constants.
use vstd::prelude::*;

use crate::value::{
    binary_value, divides_by_zero, flag, index_value, integer_binary,
    truth_binary, unary_value, BinaryOp, CompareOp, EvalError, UnaryOp, Value,
};

verus! {

/// Where a declared variable lives.
#[derive(Debug, Clone, Copy, PartialEq, Eq, Structural)]
pub enum VariableScope {
    Extern,
    Local,
}

/// A name, or a vector name with its declared length. Bindings are looked up by
/// name alone.
#[derive(Debug, Clone, PartialEq, Eq, Hash, PartialOrd, Ord)]
pub enum Identifier {
    Name(String),
    Vector(String, i64),
}

impl Identifier {
    /// The name that bindings are looked up by.
    pub open spec fn spec_name(self) -> Seq<char> {
        match self {
            Identifier::Name(n) => n@,
            Identifier::Vector(n, _) => n@,
        }
    }

    /// The identifier's name.
    pub fn name(&self) -> (r: &String)
        ensures
            r@ == self.spec_name(),
    {
        match self {
            Identifier::Name(n) => n,
            Identifier::Vector(n, _) => n,
        }
    }

    /// An identical copy.
    pub fn copy(&self) -> (r: Identifier)
        ensures
            r == *self,
    {
        match self {
            Identifier::Name(n) => Identifier::Name(n.clone()),
            Identifier::Vector(n, len) => Identifier::Vector(n.clone(), *len),
        }
    }
}

/// A literal or runtime value. A string keeps the quote characters it was
/// written with.
#[derive(Debug, PartialEq, PartialOrd)]
pub enum Const {
    Integer(i64),
    String(String),
    Vector(Vec<Box<Expression>>),
    Ident(Identifier),
}

/// The value that a constant stands for.
pub open spec fn value_of(c: Const) -> Value
    decreases c,
{
    match c {
        Const::Integer(i) => Value::Integer(i),
        Const::String(s) => Value::Str(s@),
        Const::Vector(v) => Value::Vector(element_values(v@)),
        Const::Ident(id) => Value::Ident(id),
    }
}

/// The value of a vector element: that of its constant, if it is one.
pub open spec fn element_value(e: Expression) -> Value
    decreases e,
{
    match e {
        Expression::Constant(c) => value_of(c),
        _ => Value::Unevaluated,
    }
}

/// The values of a vector's elements.
pub open spec fn element_values(s: Seq<Box<Expression>>) -> Seq<Value>
    decreases s,
{
    if s.len() == 0 {
        Seq::empty()
    } else {
        element_values(s.drop_last()).push(element_value(*s.last()))
    }
}

/// A vector has one element value per element, in order.
pub proof fn lemma_element_values(s: Seq<Box<Expression>>)
    ensures
        element_values(s).len() == s.len(),
        forall|i: int| 0 <= i < s.len() ==> #[trigger] element_values(s)[i] == element_value(*s[i]),
    decreases s.len(),
{
    if s.len() > 0 {
        lemma_element_values(s.drop_last());
    }
}

impl View for Const {
    type V = Value;

    open spec fn view(&self) -> Value {
        value_of(*self)
    }
}

/// `1` for true and `0` for false.
fn flag_of(b: bool) -> (r: i64)
    ensures
        r == flag(b),
{
    if b {
        1
    } else {
        0
    }
}

fn integer_op(op: BinaryOp, x: i64, y: i64) -> (r: i64)
    requires
        !((op == BinaryOp::Divide || op == BinaryOp::Modulo) && y == 0),
    ensures
        r == integer_binary(op, x, y),
{
    match op {
        BinaryOp::Or => x | y,
        BinaryOp::Xor => x ^ y,
        BinaryOp::And => x & y,
        BinaryOp::ShiftLeft => x.wrapping_shl((y & 63) as u32),
        BinaryOp::ShiftRight => x.wrapping_shr((y & 63) as u32),
        BinaryOp::Add => x.wrapping_add(y),
        BinaryOp::Subtract => x.wrapping_sub(y),
        BinaryOp::Multiply => x.wrapping_mul(y),
        BinaryOp::Divide => match x.checked_div(y) {
            Some(q) => q,
            None => i64::MIN,
        },
        BinaryOp::Modulo => match x.checked_rem(y) {
            Some(r) => r,
            None => 0,
        },
    }
}

fn truth_op(op: BinaryOp, p: i64, q: i64) -> (r: i64)
    requires
        0 <= p <= 1,
        0 <= q <= 1,
    ensures
        r == truth_binary(op, p, q),
{
    match op {
        BinaryOp::Or => p | q,
        BinaryOp::Xor => p ^ q,
        BinaryOp::And => p & q,
        BinaryOp::ShiftLeft => p << q,
        BinaryOp::ShiftRight => p >> q,
        BinaryOp::Add => p + q,
        BinaryOp::Subtract => p - q,
        BinaryOp::Multiply | BinaryOp::Divide | BinaryOp::Modulo => p,
    }
}

impl Const {
    /// Truthiness: `Integer(0)`, the empty string and the empty vector are false;
    /// every other constant is true.
    pub fn truthy(&self) -> (r: bool)
        ensures
            r == self@.truthy(),
            r == match *self {
                Const::Integer(i) => i != 0,
                Const::String(s) => s@.len() != 0,
                Const::Vector(v) => v.len() != 0,
                Const::Ident(_) => true,
            },
    {
        match self {
            Const::Integer(i) => *i != 0,
            Const::String(s) => !s.as_str().is_empty(),
            Const::Vector(v) => {
                proof {
                    lemma_element_values(v@);
                }
                v.len() != 0
            },
            Const::Ident(_) => true,
        }
    }

    /// A binary operator: native wrapping arithmetic on two integers, else the
    /// operation on the operands' truthiness.
    pub fn binary(&self, op: BinaryOp, rhs: &Const) -> (r: Const)
        requires
            !divides_by_zero(op, self@, rhs@),
        ensures
            r@ == binary_value(op, self@, rhs@),
    {
        match (self, rhs) {
            (Const::Integer(x), Const::Integer(y)) => Const::Integer(integer_op(op, *x, *y)),
            _ => Const::Integer(truth_op(op, flag_of(self.truthy()), flag_of(rhs.truthy()))),
        }
    }

    /// A unary operator: native wrapping arithmetic on an integer, else the
    /// operation on the operand's truthiness.
    pub fn unary(&self, op: UnaryOp) -> (r: Const)
        ensures
            r@ == unary_value(op, self@),
    {
        match self {
            Const::Integer(x) => Const::Integer(
                match op {
                    UnaryOp::Not => flag_of(*x == 0),
                    UnaryOp::Complement => !*x,
                    UnaryOp::Minus => 0i64.wrapping_sub(*x),
                    UnaryOp::Increment => x.wrapping_add(1),
                    UnaryOp::Decrement => x.wrapping_sub(1),
                },
            ),
            _ => {
                let p = flag_of(self.truthy());
                Const::Integer(
                    match op {
                        UnaryOp::Not | UnaryOp::Complement => 1 - p,
                        UnaryOp::Minus => -p,
                        UnaryOp::Increment => p + 1,
                        UnaryOp::Decrement => p - 1,
                    },
                )
            },
        }
    }

    /// Bitwise and; logical and of the truthiness for non-integers.
    pub fn and(&self, rhs: &Self) -> (r: Self)
        ensures
            r@ == binary_value(BinaryOp::And, self@, rhs@),
    {
        self.binary(BinaryOp::And, rhs)
    }

    /// Bitwise or; logical or of the truthiness for non-integers.
    pub fn or(&self, rhs: &Self) -> (r: Self)
        ensures
            r@ == binary_value(BinaryOp::Or, self@, rhs@),
    {
        self.binary(BinaryOp::Or, rhs)
    }

    /// Bitwise exclusive or; of the truthiness for non-integers.
    pub fn xor(&self, rhs: &Self) -> (r: Self)
        ensures
            r@ == binary_value(BinaryOp::Xor, self@, rhs@),
    {
        self.binary(BinaryOp::Xor, rhs)
    }

    /// Arithmetic right shift by the right operand modulo 64.
    pub fn shr(&self, rhs: &Self) -> (r: Self)
        ensures
            r@ == binary_value(BinaryOp::ShiftRight, self@, rhs@),
    {
        self.binary(BinaryOp::ShiftRight, rhs)
    }

    /// Left shift by the right operand modulo 64.
    pub fn shl(&self, rhs: &Self) -> (r: Self)
        ensures
            r@ == binary_value(BinaryOp::ShiftLeft, self@, rhs@),
    {
        self.binary(BinaryOp::ShiftLeft, rhs)
    }

    /// Wrapping addition.
    pub fn add(&self, rhs: &Self) -> (r: Self)
        ensures
            r@ == binary_value(BinaryOp::Add, self@, rhs@),
    {
        self.binary(BinaryOp::Add, rhs)
    }

    /// Wrapping subtraction.
    pub fn sub(&self, rhs: &Self) -> (r: Self)
        ensures
            r@ == binary_value(BinaryOp::Subtract, self@, rhs@),
    {
        self.binary(BinaryOp::Subtract, rhs)
    }

    /// Wrapping multiplication; the left operand's truthiness for non-integers.
    pub fn mul(&self, rhs: &Self) -> (r: Self)
        ensures
            r@ == binary_value(BinaryOp::Multiply, self@, rhs@),
    {
        self.binary(BinaryOp::Multiply, rhs)
    }

    /// Division rounding toward zero; the left operand's truthiness for
    /// non-integers. An integer divisor must not be zero.
    pub fn div(&self, rhs: &Self) -> (r: Self)
        requires
            !divides_by_zero(BinaryOp::Divide, self@, rhs@),
        ensures
            r@ == binary_value(BinaryOp::Divide, self@, rhs@),
    {
        self.binary(BinaryOp::Divide, rhs)
    }

    /// Remainder with the sign of the dividend; the left operand's truthiness
    /// for non-integers. An integer divisor must not be zero.
    pub fn modulo(&self, rhs: &Self) -> (r: Self)
        requires
            !divides_by_zero(BinaryOp::Modulo, self@, rhs@),
        ensures
            r@ == binary_value(BinaryOp::Modulo, self@, rhs@),
    {
        self.binary(BinaryOp::Modulo, rhs)
    }

    /// Logical negation: `1` for a false operand, `0` for a true one.
    pub fn not(&self) -> (r: Self)
        ensures
            r@ == unary_value(UnaryOp::Not, self@),
            r@ == Value::Integer(flag(!self@.truthy())),
    {
        self.unary(UnaryOp::Not)
    }

    /// Bitwise complement; logical negation for non-integers.
    pub fn complement(&self) -> (r: Self)
        ensures
            r@ == unary_value(UnaryOp::Complement, self@),
    {
        self.unary(UnaryOp::Complement)
    }

    /// Wrapping negation.
    pub fn negate(&self) -> (r: Self)
        ensures
            r@ == unary_value(UnaryOp::Minus, self@),
    {
        self.unary(UnaryOp::Minus)
    }

    /// Wrapping increment.
    pub fn inc(&self) -> (r: Self)
        ensures
            r@ == unary_value(UnaryOp::Increment, self@),
    {
        self.unary(UnaryOp::Increment)
    }

    /// Wrapping decrement.
    pub fn dec(&self) -> (r: Self)
        ensures
            r@ == unary_value(UnaryOp::Decrement, self@),
    {
        self.unary(UnaryOp::Decrement)
    }

    /// A copy with the same value. An element that is not a constant has no
    /// value; it is copied as a reference to the empty name, which has none
    /// either.
    pub(crate) fn duplicate(&self) -> (r: Const)
        ensures
            r@ == self@,
        decreases self,
    {
        match self {
            Const::Integer(i) => Const::Integer(*i),
            Const::String(s) => Const::String(s.clone()),
            Const::Ident(id) => Const::Ident(id.copy()),
            Const::Vector(v) => {
                let mut out: Vec<Box<Expression>> = Vec::new();
                let mut i: usize = 0;
                while i < v.len()
                    invariant
                        *self == Const::Vector(*v),
                        i <= v.len(),
                        out.len() == i,
                        forall|j: int| 0 <= j < i ==> element_value(*#[trigger] out@[j]) == element_value(*v@[j]),
                    decreases v.len() - i,
                {
                    let e = match &*v[i] {
                        Expression::Constant(c) => {
                            proof {
                                vstd::std_specs::vec::axiom_vec_index_decreases(*v, i as int);
                                assert(decreases_to!(*self => (*self)->Vector_0));
                                let ghost e = *v@[i as int];
                                assert(decreases_to!(e => e->Constant_0));
                            }
                            Expression::Constant(c.duplicate())
                        },
                        _ => Expression::Identifier(Identifier::Name(String::new())),
                    };
                    out.push(Box::new(e));
                    i = i + 1;
                }
                proof {
                    lemma_element_values(v@);
                    lemma_element_values(out@);
                    assert(element_values(out@) =~= element_values(v@));
                }
                Const::Vector(out)
            },
        }
    }

    /// The element at `idx`: the target must be a vector and `idx` an integer
    /// in `[0, len)`, and the element must be a constant.
    pub fn index(&self, idx: Const) -> (r: Result<Const, EvalError>)
        ensures
            match r {
                Ok(c) => index_value(self@, idx@) == Ok::<Value, EvalError>(c@),
                Err(e) => index_value(self@, idx@) == Err::<Value, EvalError>(e),
            },
    {
        match self {
            Const::Vector(v) => match idx {
                Const::Integer(i) => {
                    proof {
                        lemma_element_values(v@);
                    }
                    if i < 0 || i as u64 >= v.len() as u64 {
                        Err(EvalError::IndexOutOfBounds)
                    } else {
                        match &*v[i as usize] {
                            Expression::Constant(c) => Ok(c.duplicate()),
                            _ => Err(EvalError::TypeMismatch),
                        }
                    }
                },
                _ => Err(EvalError::TypeMismatch),
            },
            _ => Err(EvalError::TypeMismatch),
        }
    }
}

/// An expression node; every node owns its operands.
#[derive(Debug, PartialEq, PartialOrd)]
pub enum Expression {
    Assign {
        lhs: Box<Expression>,
        rhs: Box<Expression>,
    },
    AssignOr {
        lhs: Box<Expression>,
        rhs: Box<Expression>,
    },
    AssignXor {
        lhs: Box<Expression>,
        rhs: Box<Expression>,
    },
    AssignAnd {
        lhs: Box<Expression>,
        rhs: Box<Expression>,
    },
    AssignShiftLeft {
        lhs: Box<Expression>,
        rhs: Box<Expression>,
    },
    AssignShiftRight {
        lhs: Box<Expression>,
        rhs: Box<Expression>,
    },
    AssignAdd {
        lhs: Box<Expression>,
        rhs: Box<Expression>,
    },
    AssignSubtract {
        lhs: Box<Expression>,
        rhs: Box<Expression>,
    },
    AssignMultiply {
        lhs: Box<Expression>,
        rhs: Box<Expression>,
    },
    AssignDivide {
        lhs: Box<Expression>,
        rhs: Box<Expression>,
    },
    AssignModulo {
        lhs: Box<Expression>,
        rhs: Box<Expression>,
    },
    Ternary {
        condition: Box<Expression>,
        yes: Box<Expression>,
        no: Box<Expression>,
    },
    Equal {
        lhs: Box<Expression>,
        rhs: Box<Expression>,
    },
    NotEqual {
        lhs: Box<Expression>,
        rhs: Box<Expression>,
    },
    Less {
        lhs: Box<Expression>,
        rhs: Box<Expression>,
    },
    More {
        lhs: Box<Expression>,
        rhs: Box<Expression>,
    },
    LessEqual {
        lhs: Box<Expression>,
        rhs: Box<Expression>,
    },
    MoreEqual {
        lhs: Box<Expression>,
        rhs: Box<Expression>,
    },
    Or {
        lhs: Box<Expression>,
        rhs: Box<Expression>,
    },
    Xor {
        lhs: Box<Expression>,
        rhs: Box<Expression>,
    },
    And {
        lhs: Box<Expression>,
        rhs: Box<Expression>,
    },
    ShiftLeft {
        lhs: Box<Expression>,
        rhs: Box<Expression>,
    },
    ShiftRight {
        lhs: Box<Expression>,
        rhs: Box<Expression>,
    },
    Add {
        lhs: Box<Expression>,
        rhs: Box<Expression>,
    },
    Subtract {
        lhs: Box<Expression>,
        rhs: Box<Expression>,
    },
    Multiply {
        lhs: Box<Expression>,
        rhs: Box<Expression>,
    },
    Divide {
        lhs: Box<Expression>,
        rhs: Box<Expression>,
    },
    Modulo {
        lhs: Box<Expression>,
        rhs: Box<Expression>,
    },
    Not {
        rhs: Box<Expression>,
    },
    Complement {
        rhs: Box<Expression>,
    },
    PreIncrement {
        rhs: Box<Expression>,
    },
    PreDecrement {
        rhs: Box<Expression>,
    },
    UnaryPlus {
        rhs: Box<Expression>,
    },
    UnaryMinus {
        rhs: Box<Expression>,
    },
    PostIncrement {
        lhs: Box<Expression>,
    },
    PostDecrement {
        lhs: Box<Expression>,
    },
    VectorIndex {
        vector: Box<Expression>,
        index: Box<Expression>,
    },
    Constant(Const),
    Identifier(Identifier),
    FunctionCall {
        ident: Identifier,
        args: Vec<Box<Expression>>,
    },
}

/// The operator of a binary arithmetic or bitwise node, with its operands.
pub open spec fn binary_parts(e: Expression) -> Option<(BinaryOp, Box<Expression>, Box<Expression>)> {
    match e {
        Expression::Or { lhs, rhs } => Some((BinaryOp::Or, lhs, rhs)),
        Expression::Xor { lhs, rhs } => Some((BinaryOp::Xor, lhs, rhs)),
        Expression::And { lhs, rhs } => Some((BinaryOp::And, lhs, rhs)),
        Expression::ShiftLeft { lhs, rhs } => Some((BinaryOp::ShiftLeft, lhs, rhs)),
        Expression::ShiftRight { lhs, rhs } => Some((BinaryOp::ShiftRight, lhs, rhs)),
        Expression::Add { lhs, rhs } => Some((BinaryOp::Add, lhs, rhs)),
        Expression::Subtract { lhs, rhs } => Some((BinaryOp::Subtract, lhs, rhs)),
        Expression::Multiply { lhs, rhs } => Some((BinaryOp::Multiply, lhs, rhs)),
        Expression::Divide { lhs, rhs } => Some((BinaryOp::Divide, lhs, rhs)),
        Expression::Modulo { lhs, rhs } => Some((BinaryOp::Modulo, lhs, rhs)),
        _ => None,
    }
}

/// The operator of a compound assignment node (`|=` ... `%=`), with its operands.
pub open spec fn compound_assign_parts(e: Expression) -> Option<(BinaryOp, Box<Expression>, Box<Expression>)> {
    match e {
        Expression::AssignOr { lhs, rhs } => Some((BinaryOp::Or, lhs, rhs)),
        Expression::AssignXor { lhs, rhs } => Some((BinaryOp::Xor, lhs, rhs)),
        Expression::AssignAnd { lhs, rhs } => Some((BinaryOp::And, lhs, rhs)),
        Expression::AssignShiftLeft { lhs, rhs } => Some((BinaryOp::ShiftLeft, lhs, rhs)),
        Expression::AssignShiftRight { lhs, rhs } => Some((BinaryOp::ShiftRight, lhs, rhs)),
        Expression::AssignAdd { lhs, rhs } => Some((BinaryOp::Add, lhs, rhs)),
        Expression::AssignSubtract { lhs, rhs } => Some((BinaryOp::Subtract, lhs, rhs)),
        Expression::AssignMultiply { lhs, rhs } => Some((BinaryOp::Multiply, lhs, rhs)),
        Expression::AssignDivide { lhs, rhs } => Some((BinaryOp::Divide, lhs, rhs)),
        Expression::AssignModulo { lhs, rhs } => Some((BinaryOp::Modulo, lhs, rhs)),
        _ => None,
    }
}

/// The operator of a comparison node, with its operands.
pub open spec fn compare_parts(e: Expression) -> Option<(CompareOp, Box<Expression>, Box<Expression>)> {
    match e {
        Expression::Equal { lhs, rhs } => Some((CompareOp::Equal, lhs, rhs)),
        Expression::NotEqual { lhs, rhs } => Some((CompareOp::NotEqual, lhs, rhs)),
        Expression::Less { lhs, rhs } => Some((CompareOp::Less, lhs, rhs)),
        Expression::More { lhs, rhs } => Some((CompareOp::More, lhs, rhs)),
        Expression::LessEqual { lhs, rhs } => Some((CompareOp::LessEqual, lhs, rhs)),
        Expression::MoreEqual { lhs, rhs } => Some((CompareOp::MoreEqual, lhs, rhs)),
        _ => None,
    }
}

/// The operator of a unary node that only reads its operand, with the operand.
pub open spec fn unary_parts(e: Expression) -> Option<(UnaryOp, Box<Expression>)> {
    match e {
        Expression::Not { rhs } => Some((UnaryOp::Not, rhs)),
        Expression::Complement { rhs } => Some((UnaryOp::Complement, rhs)),
        Expression::UnaryMinus { rhs } => Some((UnaryOp::Minus, rhs)),
        _ => None,
    }
}

/// An increment or decrement node: its operator, its target, and whether it
/// yields the value from before the step (postfix).
pub open spec fn step_parts(e: Expression) -> Option<(UnaryOp, Box<Expression>, bool)> {
    match e {
        Expression::PreIncrement { rhs } => Some((UnaryOp::Increment, rhs, false)),
        Expression::PreDecrement { rhs } => Some((UnaryOp::Decrement, rhs, false)),
        Expression::PostIncrement { lhs } => Some((UnaryOp::Increment, lhs, true)),
        Expression::PostDecrement { lhs } => Some((UnaryOp::Decrement, lhs, true)),
        _ => None,
    }
}

impl Expression {
    /// The constant this expression is, if it is one.
    pub fn expect_const(self) -> (r: Option<Const>)
        ensures
            r == match self {
                Expression::Constant(c) => Some(c),
                _ => None,
            },
    {
        match self {
            Expression::Constant(c) => Some(c),
            _ => None,
        }
    }

    /// The identifier this expression is, if it is one.
    pub fn expect_ident(&self) -> (r: Option<Identifier>)
        ensures
            r == match *self {
                Expression::Identifier(i) => Some(i),
                _ => None,
            },
    {
        match self {
            Expression::Identifier(i) => Some(i.copy()),
            _ => None,
        }
    }
}

/// One clause of a switch statement.
#[derive(Debug)]
pub struct CaseStatement {
    pub case: Const,
    pub body: Option<Vec<Statement>>,
}

/// A statement node.
#[derive(Debug)]
pub enum Statement {
    Compound(Vec<Statement>),
    Return(Expression),
    Expression(Expression),
    Declaration { scope: VariableScope, idents: Vec<Identifier> },
    Conditional { condition: Expression, body: Box<Statement>, e: Option<Box<Statement>> },
    Loop { condition: Expression, body: Box<Statement> },
    Switch { switching_on: Expression, cases: Vec<CaseStatement> },
    Label(Identifier),
    Goto(Identifier),
    FunctionDefinition { ident: Identifier, args: Vec<Identifier>, body: Box<Statement> },
    GlobalDefinition { ident: Identifier, initial_value: Const },
    Break,
    Null,
}

} // verus!
