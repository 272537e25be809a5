//! The mathematical model of runtime values and of the operators on them.
use vstd::prelude::*;

use crate::ast::Identifier;

verus! {

/// What a `Const` stands for once it is reduced.
pub enum Value {
    Integer(i64),
    Str(Seq<char>),
    Vector(Seq<Value>),
    Ident(Identifier),
    /// An element of a vector that is an expression not yet reduced to a constant.
    Unevaluated,
}

/// Why an evaluation stopped.
#[derive(Debug, Clone, Copy, PartialEq, Eq, Structural)]
pub enum EvalError {
    /// A variable or function name that no reachable scope binds.
    UndefinedIdentifier,
    /// An operand of the wrong kind (indexing a non-vector, a non-string format).
    TypeMismatch,
    /// A vector index outside `[0, len)`.
    IndexOutOfBounds,
    /// A builtin called with arguments of the wrong shape or number.
    ArityOrArgumentError,
    /// An assignment, increment or decrement whose target is not an identifier.
    InvalidAssignmentTarget,
    /// A construct the language accepts but does not execute (label, goto).
    Unimplemented,
    /// Integer division or remainder by zero.
    DivisionByZero,
    /// The evaluation budget ran out (call depth or loop iterations).
    BudgetExhausted,
}

/// Operators that combine two values.
#[derive(Debug, Clone, Copy, PartialEq, Eq, Structural)]
pub enum BinaryOp {
    Or,
    Xor,
    And,
    ShiftLeft,
    ShiftRight,
    Add,
    Subtract,
    Multiply,
    Divide,
    Modulo,
}

/// Operators that transform one value.
#[derive(Debug, Clone, Copy, PartialEq, Eq, Structural)]
pub enum UnaryOp {
    Not,
    Complement,
    Minus,
    Increment,
    Decrement,
}

/// The six comparisons.
#[derive(Debug, Clone, Copy, PartialEq, Eq, Structural)]
pub enum CompareOp {
    Equal,
    NotEqual,
    Less,
    More,
    LessEqual,
    MoreEqual,
}

/// `1` for true and `0` for false.
pub open spec fn flag(b: bool) -> i64 {
    if b {
        1
    } else {
        0
    }
}

impl Value {
    /// Truthiness: zero, the empty string and the empty vector are false.
    pub open spec fn truthy(self) -> bool {
        match self {
            Value::Integer(i) => i != 0,
            Value::Str(s) => s.len() != 0,
            Value::Vector(v) => v.len() != 0,
            _ => true,
        }
    }
}

/// The quotient of Rust's `/` on `i64`, wrapping `MIN / -1` to `MIN`.
pub open spec fn wrapping_quotient(x: i64, y: i64) -> i64 {
    match x.checked_div(y) {
        Some(q) => q,
        None => i64::MIN,
    }
}

/// The remainder of Rust's `%` on `i64`, with `MIN % -1` wrapping to `0`.
pub open spec fn wrapping_remainder(x: i64, y: i64) -> i64 {
    match x.checked_rem(y) {
        Some(r) => r,
        None => 0,
    }
}

/// A binary operator on two integers: native 64-bit wrapping arithmetic; a shift
/// amount is taken modulo 64.
pub open spec fn integer_binary(op: BinaryOp, x: i64, y: i64) -> i64 {
    match op {
        BinaryOp::Or => x | y,
        BinaryOp::Xor => x ^ y,
        BinaryOp::And => x & y,
        BinaryOp::ShiftLeft => x.wrapping_shl((y & 63) as u32),
        BinaryOp::ShiftRight => x.wrapping_shr((y & 63) as u32),
        BinaryOp::Add => x.wrapping_add(y),
        BinaryOp::Subtract => x.wrapping_sub(y),
        BinaryOp::Multiply => x.wrapping_mul(y),
        BinaryOp::Divide => wrapping_quotient(x, y),
        BinaryOp::Modulo => wrapping_remainder(x, y),
    }
}

/// A binary operator on the truthiness (`0` or `1`) of two operands; multiply,
/// divide and modulo give the left operand's truthiness.
pub open spec fn truth_binary(op: BinaryOp, p: i64, q: i64) -> i64 {
    match op {
        BinaryOp::Or => p | q,
        BinaryOp::Xor => p ^ q,
        BinaryOp::And => p & q,
        BinaryOp::ShiftLeft => p << q,
        BinaryOp::ShiftRight => p >> q,
        BinaryOp::Add => (p + q) as i64,
        BinaryOp::Subtract => (p - q) as i64,
        BinaryOp::Multiply | BinaryOp::Divide | BinaryOp::Modulo => p,
    }
}

/// A binary operator on two values: on integers the native operation, on
/// anything else the operation on their truthiness.
pub open spec fn binary_value(op: BinaryOp, a: Value, b: Value) -> Value {
    match (a, b) {
        (Value::Integer(x), Value::Integer(y)) => Value::Integer(integer_binary(op, x, y)),
        _ => Value::Integer(truth_binary(op, flag(a.truthy()), flag(b.truthy()))),
    }
}

/// Whether the operator divides an integer by the integer zero.
pub open spec fn divides_by_zero(op: BinaryOp, a: Value, b: Value) -> bool {
    (op == BinaryOp::Divide || op == BinaryOp::Modulo) && a is Integer && b == Value::Integer(0)
}

/// A binary operator as the evaluator applies it: division by zero is an error.
pub open spec fn apply_binary(op: BinaryOp, a: Value, b: Value) -> Result<Value, EvalError> {
    if divides_by_zero(op, a, b) {
        Err(EvalError::DivisionByZero)
    } else {
        Ok(binary_value(op, a, b))
    }
}

/// A unary operator on an integer, wrapping at the bounds of `i64`.
pub open spec fn integer_unary(op: UnaryOp, x: i64) -> i64 {
    match op {
        UnaryOp::Not => flag(x == 0),
        UnaryOp::Complement => !x,
        UnaryOp::Minus => 0i64.wrapping_sub(x),
        UnaryOp::Increment => x.wrapping_add(1),
        UnaryOp::Decrement => x.wrapping_sub(1),
    }
}

/// A unary operator on the truthiness (`0` or `1`) of a non-integer operand.
pub open spec fn truth_unary(op: UnaryOp, p: i64) -> i64 {
    match op {
        UnaryOp::Not | UnaryOp::Complement => (1 - p) as i64,
        UnaryOp::Minus => (-p) as i64,
        UnaryOp::Increment => (p + 1) as i64,
        UnaryOp::Decrement => (p - 1) as i64,
    }
}

/// A unary operator on a value.
pub open spec fn unary_value(op: UnaryOp, a: Value) -> Value {
    match a {
        Value::Integer(x) => Value::Integer(integer_unary(op, x)),
        _ => Value::Integer(truth_unary(op, flag(a.truthy()))),
    }
}

/// `-1`, `0` or `1` as `a` is below, equal to or above `b`.
pub open spec fn sign(a: int, b: int) -> int {
    if a < b {
        -1
    } else if a == b {
        0
    } else {
        1
    }
}

/// Lexicographic order of two strings by character.
pub open spec fn compare_chars(s: Seq<char>, t: Seq<char>) -> int
    decreases s.len(),
{
    if s.len() == 0 || t.len() == 0 {
        sign(s.len() as int, t.len() as int)
    } else if s[0] != t[0] {
        sign(s[0] as int, t[0] as int)
    } else {
        compare_chars(s.drop_first(), t.drop_first())
    }
}

/// Order of identifiers: every plain name before every vector name; then by
/// name, then by declared length.
pub open spec fn compare_idents(a: Identifier, b: Identifier) -> int {
    match (a, b) {
        (Identifier::Name(x), Identifier::Name(y)) => compare_chars(x@, y@),
        (Identifier::Name(_), Identifier::Vector(_, _)) => -1,
        (Identifier::Vector(_, _), Identifier::Name(_)) => 1,
        (Identifier::Vector(x, n), Identifier::Vector(y, k)) => {
            let c = compare_chars(x@, y@);
            if c != 0 {
                c
            } else {
                sign(n as int, k as int)
            }
        },
    }
}

/// The position of a value's kind in the order of kinds.
pub open spec fn kind_rank(v: Value) -> int {
    match v {
        Value::Integer(_) => 0,
        Value::Str(_) => 1,
        Value::Vector(_) => 2,
        Value::Ident(_) => 3,
        Value::Unevaluated => 4,
    }
}

/// Total order of values: by kind (integer, string, vector, identifier), then
/// numerically, by character, element by element, or by identifier.
pub open spec fn compare_values(a: Value, b: Value) -> int
    decreases a,
{
    if kind_rank(a) != kind_rank(b) {
        sign(kind_rank(a), kind_rank(b))
    } else {
        match (a, b) {
            (Value::Integer(x), Value::Integer(y)) => sign(x as int, y as int),
            (Value::Str(s), Value::Str(t)) => compare_chars(s, t),
            (Value::Vector(s), Value::Vector(t)) => compare_sequences(s, t),
            (Value::Ident(i), Value::Ident(j)) => compare_idents(i, j),
            _ => 0,
        }
    }
}

/// Lexicographic order of two sequences of values.
pub open spec fn compare_sequences(s: Seq<Value>, t: Seq<Value>) -> int
    decreases s,
{
    if s.len() == 0 || t.len() == 0 {
        sign(s.len() as int, t.len() as int)
    } else {
        let c = compare_values(s[0], t[0]);
        if c != 0 {
            c
        } else {
            compare_sequences(s.drop_first(), t.drop_first())
        }
    }
}

/// Whether a comparison holds for an ordering result `c` of `compare_values`.
pub open spec fn comparison_holds(op: CompareOp, c: int) -> bool {
    match op {
        CompareOp::Equal => c == 0,
        CompareOp::NotEqual => c != 0,
        CompareOp::Less => c < 0,
        CompareOp::More => c > 0,
        CompareOp::LessEqual => c <= 0,
        CompareOp::MoreEqual => c >= 0,
    }
}

/// A comparison of two values, as the integer `1` or `0`.
pub open spec fn compare_value(op: CompareOp, a: Value, b: Value) -> Value {
    Value::Integer(flag(comparison_holds(op, compare_values(a, b))))
}

/// Indexing: a vector by an integer in range gives that element.
pub open spec fn index_value(v: Value, i: Value) -> Result<Value, EvalError> {
    match v {
        Value::Vector(items) => match i {
            Value::Integer(k) => if 0 <= k < items.len() {
                if items[k as int] is Unevaluated {
                    Err(EvalError::TypeMismatch)
                } else {
                    Ok(items[k as int])
                }
            } else {
                Err(EvalError::IndexOutOfBounds)
            },
            _ => Err(EvalError::TypeMismatch),
        },
        _ => Err(EvalError::TypeMismatch),
    }
}

/// The character of a decimal digit.
pub open spec fn digit_char(d: nat) -> char {
    if d == 0 { '0' } else if d == 1 { '1' } else if d == 2 { '2' } else if d == 3 { '3' }
    else if d == 4 { '4' } else if d == 5 { '5' } else if d == 6 { '6' } else if d == 7 { '7' }
    else if d == 8 { '8' } else { '9' }
}

/// The decimal digits of a natural number, without leading zeros.
pub open spec fn digits(n: nat) -> Seq<char>
    decreases n,
{
    if n < 10 {
        seq![digit_char(n)]
    } else {
        digits(n / 10).push(digit_char(n % 10))
    }
}

/// The decimal text of an integer, with a leading `-` when negative.
pub open spec fn decimal(i: int) -> Seq<char> {
    if i < 0 {
        seq!['-'] + digits((-i) as nat)
    } else {
        digits(i as nat)
    }
}

/// A string without one leading and one trailing quote character, where present.
pub open spec fn unquote(s: Seq<char>) -> Seq<char> {
    let t = if s.len() > 0 && s[0] == '"' { s.drop_first() } else { s };
    if t.len() > 0 && t.last() == '"' { t.drop_last() } else { t }
}

/// The display form: decimal for integers, a string with one layer of quotes
/// stripped, and nothing for anything else.
pub open spec fn display(v: Value) -> Seq<char> {
    match v {
        Value::Integer(i) => decimal(i as int),
        Value::Str(s) => unquote(s),
        _ => Seq::empty(),
    }
}

/// `fmt` with each `{}`, left to right, replaced by the display form of the next
/// item; `None` when the items run out first.
pub open spec fn substitute(fmt: Seq<char>, items: Seq<Value>) -> Option<Seq<char>>
    decreases fmt.len(),
{
    if fmt.len() == 0 {
        Some(Seq::empty())
    } else if fmt.len() >= 2 && fmt[0] == '{' && fmt[1] == '}' {
        if items.len() == 0 {
            None
        } else {
            match substitute(fmt.skip(2), items.drop_first()) {
                Some(rest) => Some(display(items[0]) + rest),
                None => None,
            }
        }
    } else {
        match substitute(fmt.skip(1), items) {
            Some(rest) => Some(seq![fmt[0]] + rest),
            None => None,
        }
    }
}

/// The builtin `format(fmt, items)`: a string and a vector of evaluated values.
pub open spec fn format_values(args: Seq<Value>) -> Result<Value, EvalError> {
    if args.len() == 0 {
        Err(EvalError::ArityOrArgumentError)
    } else {
        match args[0] {
            Value::Str(fmt) => if args.len() < 2 {
                Err(EvalError::ArityOrArgumentError)
            } else {
                match args[1] {
                    Value::Vector(items) => if exists|i: int|
                        0 <= i < items.len() && #[trigger] items[i] is Unevaluated {
                        Err(EvalError::TypeMismatch)
                    } else {
                        match substitute(fmt, items) {
                            Some(s) => Ok(Value::Str(s)),
                            None => Err(EvalError::ArityOrArgumentError),
                        }
                    },
                    _ => Err(EvalError::ArityOrArgumentError),
                }
            },
            _ => Err(EvalError::TypeMismatch),
        }
    }
}

} // verus!
