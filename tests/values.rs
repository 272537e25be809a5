use b_interp::ast::{Const, Expression, Identifier};
use b_interp::value::EvalError;

fn num(i: i64) -> Const {
    Const::Integer(i)
}

fn text(s: &str) -> Const {
    Const::String(s.to_string())
}

fn vector(items: Vec<Const>) -> Const {
    Const::Vector(items.into_iter().map(|c| Box::new(Expression::Constant(c))).collect())
}

fn as_int(c: Const) -> i64 {
    match c {
        Const::Integer(i) => i,
        other => panic!("not an integer: {:?}", other),
    }
}

#[test]
fn truthiness_of_each_kind() {
    assert!(!num(0).truthy());
    assert!(num(7).truthy());
    assert!(num(-1).truthy());
    assert!(!text("").truthy());
    assert!(text("a").truthy());
    assert!(!vector(vec![]).truthy());
    assert!(vector(vec![num(0)]).truthy());
    assert!(Const::Ident(Identifier::Name("x".to_string())).truthy());
}

#[test]
fn integer_arithmetic_wraps() {
    assert_eq!(as_int(num(2).add(&num(3))), 5);
    assert_eq!(as_int(num(i64::MAX).add(&num(1))), i64::MIN);
    assert_eq!(as_int(num(i64::MIN).sub(&num(1))), i64::MAX);
    assert_eq!(as_int(num(7).sub(&num(10))), -3);
    assert_eq!(as_int(num(6).mul(&num(7))), 42);
    assert_eq!(as_int(num(i64::MAX).mul(&num(2))), -2);
    assert_eq!(as_int(num(-7).div(&num(2))), -3);
    assert_eq!(as_int(num(i64::MIN).div(&num(-1))), i64::MIN);
    assert_eq!(as_int(num(-7).modulo(&num(2))), -1);
    assert_eq!(as_int(num(7).modulo(&num(-2))), 1);
    assert_eq!(as_int(num(i64::MIN).modulo(&num(-1))), 0);
}

#[test]
fn integer_bitwise_operations() {
    assert_eq!(as_int(num(0b1100).and(&num(0b1010))), 0b1000);
    assert_eq!(as_int(num(0b1100).or(&num(0b1010))), 0b1110);
    assert_eq!(as_int(num(0b1100).xor(&num(0b1010))), 0b0110);
    assert_eq!(as_int(num(1).shl(&num(4))), 16);
    assert_eq!(as_int(num(1).shl(&num(65))), 2);
    assert_eq!(as_int(num(1).shl(&num(63))), i64::MIN);
    assert_eq!(as_int(num(-16).shr(&num(2))), -4);
    assert_eq!(as_int(num(256).shr(&num(68))), 16);
    assert_eq!(as_int(num(5).complement()), -6);
}

#[test]
fn unary_operations() {
    assert_eq!(as_int(num(5).negate()), -5);
    assert_eq!(as_int(num(i64::MIN).negate()), i64::MIN);
    assert_eq!(as_int(num(5).inc()), 6);
    assert_eq!(as_int(num(i64::MAX).inc()), i64::MIN);
    assert_eq!(as_int(num(5).dec()), 4);
    assert_eq!(as_int(num(0).not()), 1);
    assert_eq!(as_int(num(9).not()), 0);
    assert_eq!(as_int(text("x").negate()), -1);
    assert_eq!(as_int(text("").inc()), 1);
    assert_eq!(as_int(text("x").dec()), 0);
    assert_eq!(as_int(text("x").complement()), 0);
    assert_eq!(as_int(text("").complement()), 1);
}

#[test]
fn non_integer_operands_use_truthiness() {
    assert_eq!(as_int(text("x").and(&num(0))), 0);
    assert_eq!(as_int(text("x").add(&text(""))), 1);
    assert_eq!(as_int(text("x").or(&num(0))), 1);
    assert_eq!(as_int(text("x").xor(&text("y"))), 0);
    assert_eq!(as_int(text("x").sub(&text("y"))), 0);
    assert_eq!(as_int(text("x").shl(&text("y"))), 2);
    assert_eq!(as_int(text("x").shr(&text("y"))), 0);
    assert_eq!(as_int(text("x").mul(&num(0))), 1);
    assert_eq!(as_int(text("").div(&num(5))), 0);
    assert_eq!(as_int(text("x").modulo(&num(0))), 1);
}

#[test]
fn vector_indexing() {
    let v = vector(vec![num(10), num(20), num(30)]);
    assert_eq!(as_int(v.index(num(0)).unwrap()), 10);
    assert_eq!(as_int(v.index(num(2)).unwrap()), 30);
    assert_eq!(v.index(num(3)).unwrap_err(), EvalError::IndexOutOfBounds);
    assert_eq!(v.index(num(-1)).unwrap_err(), EvalError::IndexOutOfBounds);
    assert_eq!(v.index(text("a")).unwrap_err(), EvalError::TypeMismatch);
    assert_eq!(num(4).index(num(0)).unwrap_err(), EvalError::TypeMismatch);
}

#[test]
fn expression_accessors() {
    let e = Expression::constant(num(3));
    assert!(matches!(e.expect_const(), Some(Const::Integer(3))));
    let id = Expression::identifier(Identifier::Name("a".to_string()));
    assert_eq!(id.expect_ident(), Some(Identifier::Name("a".to_string())));
    assert!(id.expect_const().is_none());
    assert_eq!(Identifier::Vector("v".to_string(), 3).name(), "v");
}
