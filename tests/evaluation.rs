use b_interp::ast::{Const, Expression, Identifier, Statement, VariableScope};
use b_interp::interpreter::Interpreter;
use b_interp::value::EvalError;

fn name(s: &str) -> Identifier {
    Identifier::Name(s.to_string())
}

fn num(i: i64) -> Box<Expression> {
    Box::new(Expression::constant(Const::Integer(i)))
}

fn text(s: &str) -> Box<Expression> {
    Box::new(Expression::constant(Const::String(s.to_string())))
}

fn var(s: &str) -> Box<Expression> {
    Box::new(Expression::identifier(name(s)))
}

fn call(f: &str, args: Vec<Box<Expression>>) -> Box<Expression> {
    Box::new(Expression::function_call(name(f), args))
}

fn list(items: Vec<Box<Expression>>) -> Box<Expression> {
    Box::new(Expression::constant(Const::Vector(items)))
}

fn define(f: &str, params: &[&str], body: Vec<Statement>) -> Statement {
    Statement::FunctionDefinition {
        ident: name(f),
        args: params.iter().map(|p| name(p)).collect(),
        body: Box::new(Statement::Compound(body)),
    }
}

fn ret(e: Box<Expression>) -> Statement {
    Statement::Return(*e)
}

fn run(e: Box<Expression>) -> Statement {
    Statement::Expression(*e)
}

fn local(names: &[&str]) -> Statement {
    Statement::Declaration { scope: VariableScope::Local, idents: names.iter().map(|n| name(n)).collect() }
}

fn value(interp: &mut Interpreter, e: Box<Expression>) -> Result<Const, EvalError> {
    interp.eval_expr(*e)
}

fn integer(r: Result<Const, EvalError>) -> i64 {
    match r {
        Ok(Const::Integer(i)) => i,
        other => panic!("not an integer: {:?}", other),
    }
}

fn string(r: Result<Const, EvalError>) -> String {
    match r {
        Ok(Const::String(s)) => s,
        other => panic!("not a string: {:?}", other),
    }
}

#[test]
fn fallback_and_of_string_and_zero() {
    let mut interp = Interpreter::new();
    assert_eq!(integer(value(&mut interp, Box::new(Expression::and(text("x"), num(0))))), 0);
}

#[test]
fn fallback_add_of_two_strings() {
    let mut interp = Interpreter::new();
    assert_eq!(integer(value(&mut interp, Box::new(Expression::add(text("x"), text(""))))), 1);
}

#[test]
fn arithmetic_through_the_evaluator() {
    let mut interp = Interpreter::new();
    let e = Expression::multiply(Box::new(Expression::add(num(2), num(3))), Box::new(Expression::unary_minus(num(4))));
    assert_eq!(integer(interp.eval_expr(e)), -20);
    let e = Expression::modulo(num(17), num(5));
    assert_eq!(integer(interp.eval_expr(e)), 2);
    let e = Expression::shift_left(num(3), num(2));
    assert_eq!(integer(interp.eval_expr(e)), 12);
    let e = Expression::not(num(0));
    assert_eq!(integer(interp.eval_expr(e)), 1);
    let e = Expression::unary_plus(num(9));
    assert_eq!(integer(interp.eval_expr(e)), 9);
}

#[test]
fn comparisons() {
    let mut interp = Interpreter::new();
    assert_eq!(integer(interp.eval_expr(Expression::less(num(1), num(2)))), 1);
    assert_eq!(integer(interp.eval_expr(Expression::more(num(1), num(2)))), 0);
    assert_eq!(integer(interp.eval_expr(Expression::less_equal(num(2), num(2)))), 1);
    assert_eq!(integer(interp.eval_expr(Expression::more_equal(num(1), num(2)))), 0);
    assert_eq!(integer(interp.eval_expr(Expression::equal(text("ab"), text("ab")))), 1);
    assert_eq!(integer(interp.eval_expr(Expression::not_equal(text("ab"), text("ac")))), 1);
    assert_eq!(integer(interp.eval_expr(Expression::less(text("ab"), text("b")))), 1);
    assert_eq!(integer(interp.eval_expr(Expression::less(num(100), text("a")))), 1);
    assert_eq!(integer(interp.eval_expr(Expression::equal(list(vec![num(1), num(2)]), list(vec![num(1), num(2)])))), 1);
    assert_eq!(integer(interp.eval_expr(Expression::less(list(vec![num(1)]), list(vec![num(1), num(0)])))), 1);
}

#[test]
fn division_by_zero_is_an_error() {
    let mut interp = Interpreter::new();
    assert_eq!(interp.eval_expr(Expression::divide(num(1), num(0))).unwrap_err(), EvalError::DivisionByZero);
    assert_eq!(interp.eval_expr(Expression::modulo(num(1), num(0))).unwrap_err(), EvalError::DivisionByZero);
}

#[test]
fn assignment_and_compound_assignment() {
    let mut interp = Interpreter::new();
    assert_eq!(integer(interp.eval_expr(Expression::assign(var("a"), num(10)))), 10);
    assert_eq!(integer(interp.eval_expr(Expression::assign_add(var("a"), num(5)))), 15);
    assert_eq!(integer(interp.eval_expr(Expression::assign_multiply(var("a"), num(2)))), 30);
    assert_eq!(integer(interp.eval_expr(Expression::assign_subtract(var("a"), num(1)))), 29);
    assert_eq!(integer(interp.eval_expr(Expression::assign_modulo(var("a"), num(10)))), 9);
    assert_eq!(integer(interp.eval_expr(Expression::assign_divide(var("a"), num(2)))), 4);
    assert_eq!(integer(interp.eval_expr(Expression::assign_shift_left(var("a"), num(2)))), 16);
    assert_eq!(integer(interp.eval_expr(Expression::assign_shift_right(var("a"), num(1)))), 8);
    assert_eq!(integer(interp.eval_expr(Expression::assign_or(var("a"), num(1)))), 9);
    assert_eq!(integer(interp.eval_expr(Expression::assign_and(var("a"), num(3)))), 1);
    assert_eq!(integer(interp.eval_expr(Expression::assign_xor(var("a"), num(3)))), 2);
    assert_eq!(integer(interp.eval_expr(*var("a"))), 2);
}

#[test]
fn increments_and_decrements() {
    let mut interp = Interpreter::new();
    interp.eval_expr(Expression::assign(var("i"), num(5))).unwrap();
    assert_eq!(integer(interp.eval_expr(Expression::post_increment(var("i")))), 5);
    assert_eq!(integer(interp.eval_expr(*var("i"))), 6);
    assert_eq!(integer(interp.eval_expr(Expression::pre_increment(var("i")))), 7);
    assert_eq!(integer(interp.eval_expr(Expression::pre_decrement(var("i")))), 6);
    assert_eq!(integer(interp.eval_expr(Expression::post_decrement(var("i")))), 6);
    assert_eq!(integer(interp.eval_expr(*var("i"))), 5);
    assert_eq!(integer(interp.eval_expr(Expression::post_increment(num(3)))), 4);
}

#[test]
fn ternary_picks_one_branch() {
    let mut interp = Interpreter::new();
    let e = Expression::ternary(text(""), Box::new(Expression::assign(var("a"), num(1))), num(2));
    assert_eq!(integer(interp.eval_expr(e)), 2);
    assert_eq!(interp.eval_expr(*var("a")).unwrap_err(), EvalError::UndefinedIdentifier);
    let e = Expression::ternary(num(1), num(7), num(8));
    assert_eq!(integer(interp.eval_expr(e)), 7);
}

#[test]
fn format_substitutes_placeholders() {
    let mut interp = Interpreter::new();
    let e = call("format", vec![text("{} and {}"), list(vec![num(1), text("\"two\"")])]);
    assert_eq!(string(value(&mut interp, e)), "1 and two");
}

#[test]
fn format_errors() {
    let mut interp = Interpreter::new();
    let e = call("format", vec![text("{} and {}"), list(vec![num(1)])]);
    assert_eq!(value(&mut interp, e).unwrap_err(), EvalError::ArityOrArgumentError);
    let e = call("format", vec![text("{}")]);
    assert_eq!(value(&mut interp, e).unwrap_err(), EvalError::ArityOrArgumentError);
    let e = call("format", vec![num(1), list(vec![])]);
    assert_eq!(value(&mut interp, e).unwrap_err(), EvalError::TypeMismatch);
    let e = call("format", vec![text("{}"), num(2)]);
    assert_eq!(value(&mut interp, e).unwrap_err(), EvalError::ArityOrArgumentError);
    let e = call("format", vec![]);
    assert_eq!(value(&mut interp, e).unwrap_err(), EvalError::ArityOrArgumentError);
}

#[test]
fn format_ignores_extra_items_and_keeps_other_text() {
    let mut interp = Interpreter::new();
    let e = call("format", vec![text("<{}>{"), list(vec![num(-42), num(5)])]);
    assert_eq!(string(value(&mut interp, e)), "<-42>{");
}

#[test]
fn puts_prints_display_forms() {
    let mut interp = Interpreter::new();
    let e = call("puts", vec![num(-12), text("\"hi\""), list(vec![num(1)])]);
    assert_eq!(integer(value(&mut interp, e)), 0);
    assert_eq!(interp.output(), &vec!["-12".to_string(), "hi".to_string(), "".to_string()]);
}

#[test]
fn vector_index_through_the_evaluator() {
    let mut interp = Interpreter::new();
    let v = || list(vec![num(1), num(2), num(3)]);
    assert_eq!(integer(interp.eval_expr(Expression::vector_index(v(), num(1)))), 2);
    assert_eq!(interp.eval_expr(Expression::vector_index(v(), num(3))).unwrap_err(), EvalError::IndexOutOfBounds);
    assert_eq!(interp.eval_expr(Expression::vector_index(v(), num(-1))).unwrap_err(), EvalError::IndexOutOfBounds);
    assert_eq!(interp.eval_expr(Expression::vector_index(num(5), num(0))).unwrap_err(), EvalError::TypeMismatch);
}

#[test]
fn error_kinds() {
    let mut interp = Interpreter::new();
    assert_eq!(interp.eval_expr(*var("nowhere")).unwrap_err(), EvalError::UndefinedIdentifier);
    assert_eq!(value(&mut interp, call("nothing", vec![])).unwrap_err(), EvalError::UndefinedIdentifier);
    assert_eq!(interp.eval_expr(Expression::assign(num(1), num(2))).unwrap_err(), EvalError::InvalidAssignmentTarget);
    assert_eq!(interp.eval_expr(Expression::pre_increment(call("puts", vec![]))).unwrap_err(), EvalError::InvalidAssignmentTarget);
    assert_eq!(interp.eval_stmt(Statement::Label(name("l"))).unwrap_err(), EvalError::Unimplemented);
    assert_eq!(interp.eval_stmt(Statement::Goto(name("l"))).unwrap_err(), EvalError::Unimplemented);
}

#[test]
fn function_call_with_argument() {
    let mut interp = Interpreter::new();
    let program = vec![
        define("main", &[], vec![run(Box::new(Expression::assign(var("a"), num(10)))), ret(call("sub", vec![var("a")]))]),
        define("sub", &["x"], vec![ret(Box::new(Expression::subtract(var("x"), num(5))))]),
    ];
    assert_eq!(interp.interpret_program(program), Ok(5));
}

#[test]
fn recursive_fibonacci() {
    let mut interp = Interpreter::new();
    let fib = define(
        "fib",
        &["n"],
        vec![
            Statement::Conditional {
                condition: Expression::less(var("n"), num(2)),
                body: Box::new(ret(var("n"))),
                e: None,
            },
            ret(Box::new(Expression::add(
                call("fib", vec![Box::new(Expression::subtract(var("n"), num(1)))]),
                call("fib", vec![Box::new(Expression::subtract(var("n"), num(2)))]),
            ))),
        ],
    );
    let main = define("main", &[], vec![ret(call("fib", vec![num(10)]))]);
    assert_eq!(interp.interpret_program(vec![fib, main]), Ok(55));
}

#[test]
fn recursive_factorial() {
    let mut interp = Interpreter::new();
    let fact = define(
        "fact",
        &["n"],
        vec![Statement::Conditional {
            condition: Expression::less_equal(var("n"), num(1)),
            body: Box::new(ret(num(1))),
            e: Some(Box::new(ret(Box::new(Expression::multiply(
                var("n"),
                call("fact", vec![Box::new(Expression::subtract(var("n"), num(1)))]),
            ))))),
        }],
    );
    interp.eval(vec![fact]).unwrap();
    assert_eq!(integer(interp.call_function(&name("fact"), vec![num(5)])), 120);
    assert_eq!(integer(interp.call_function(&name("fact"), vec![num(0)])), 1);
}

#[test]
fn local_shadows_global_and_global_survives() {
    let mut interp = Interpreter::new();
    interp.eval_stmt(local(&["g"])).unwrap();
    interp.eval_expr(Expression::assign(var("g"), num(1))).unwrap();
    let program = vec![
        define("shadow", &[], vec![
            local(&["g"]),
            run(Box::new(Expression::assign(var("g"), num(7)))),
            ret(var("g")),
        ]),
        define("write", &[], vec![run(Box::new(Expression::assign(var("g"), num(9)))), ret(var("g"))]),
        define("read", &[], vec![ret(var("g"))]),
    ];
    interp.eval(program).unwrap();
    assert_eq!(integer(interp.call_function(&name("shadow"), vec![])), 7);
    assert_eq!(integer(interp.call_function(&name("write"), vec![])), 9);
    assert_eq!(integer(interp.call_function(&name("read"), vec![])), 1);
    assert_eq!(integer(interp.eval_expr(*var("g"))), 1);
}

#[test]
fn uninitialized_local_reads_the_global() {
    let mut interp = Interpreter::new();
    interp.eval_expr(Expression::assign(var("g"), num(3))).unwrap();
    interp.eval(vec![define("f", &[], vec![local(&["g"]), ret(var("g"))])]).unwrap();
    assert_eq!(integer(interp.call_function(&name("f"), vec![])), 3);
}

#[test]
fn extra_and_missing_arguments_are_ignored() {
    let mut interp = Interpreter::new();
    interp.eval(vec![define("first", &["a", "b"], vec![ret(var("a"))])]).unwrap();
    assert_eq!(integer(interp.call_function(&name("first"), vec![num(4), num(5), num(6)])), 4);
    assert_eq!(integer(interp.call_function(&name("first"), vec![num(8)])), 8);
    assert_eq!(interp.call_function(&name("first"), vec![]).unwrap_err(), EvalError::UndefinedIdentifier);
}

#[test]
fn function_without_return_gives_zero() {
    let mut interp = Interpreter::new();
    interp.eval(vec![define("nothing", &[], vec![Statement::Null, Statement::Break])]).unwrap();
    assert_eq!(integer(interp.call_function(&name("nothing"), vec![])), 0);
}

#[test]
fn loop_counts_and_returns() {
    let mut interp = Interpreter::new();
    let body = vec![
        run(Box::new(Expression::assign(var("i"), num(0)))),
        run(Box::new(Expression::assign(var("s"), num(0)))),
        Statement::Loop {
            condition: Expression::less(var("i"), num(5)),
            body: Box::new(Statement::Compound(vec![
                run(Box::new(Expression::assign_add(var("s"), var("i")))),
                run(Box::new(Expression::post_increment(var("i")))),
            ])),
        },
        ret(var("s")),
    ];
    let main = define("main", &[], body);
    assert_eq!(interp.interpret_program(vec![main]), Ok(10));
}

#[test]
fn loop_return_leaves_early() {
    let mut interp = Interpreter::new();
    let body = vec![Statement::Loop { condition: *num(1), body: Box::new(ret(num(42))) }];
    assert_eq!(interp.interpret_program(vec![define("main", &[], body)]), Ok(42));
}

#[test]
fn budget_bounds_endless_loops() {
    let mut interp = Interpreter::new();
    interp.set_budget(1000);
    let stmt = Statement::Loop { condition: *num(1), body: Box::new(Statement::Null) };
    assert_eq!(interp.eval_stmt(stmt).unwrap_err(), EvalError::BudgetExhausted);
}

#[test]
fn budget_bounds_endless_recursion() {
    let mut interp = Interpreter::new();
    interp.set_budget(50);
    interp.eval(vec![define("down", &[], vec![ret(call("down", vec![]))])]).unwrap();
    assert_eq!(interp.call_function(&name("down"), vec![]).unwrap_err(), EvalError::BudgetExhausted);
}

#[test]
fn main_returning_a_string_gives_zero() {
    let mut interp = Interpreter::new();
    assert_eq!(interp.interpret_program(vec![define("main", &[], vec![ret(text("s"))])]), Ok(0));
    let mut interp = Interpreter::new();
    assert_eq!(interp.interpret_program(vec![]).unwrap_err(), EvalError::UndefinedIdentifier);
}

#[test]
fn pure_expression_twice_gives_same_value() {
    let mut interp = Interpreter::new();
    interp.eval_expr(Expression::assign(var("a"), num(6))).unwrap();
    let make = || Expression::ternary(
        Box::new(Expression::more(var("a"), num(2))),
        Box::new(Expression::vector_index(list(vec![var("a"), num(1)]), num(0))),
        num(0),
    );
    let first = integer(interp.eval_expr(make()));
    let second = integer(interp.eval_expr(make()));
    assert_eq!(first, 6);
    assert_eq!(first, second);
}

#[test]
fn scopes_and_builtins() {
    let mut interp = Interpreter::new();
    assert!(interp.get_func(&name("puts")).is_some());
    assert!(interp.get_func(&name("format")).is_some());
    assert!(interp.get_func(&name("main")).is_none());
    assert!(interp.get_var(&name("x")).is_none());
    interp.add_var(&name("x"), Some(&Expression::add(num(1), num(2)))).unwrap();
    assert!(matches!(interp.get_var(&name("x")), Some(Const::Integer(3))));
    interp.add_var(&name("y"), None).unwrap();
    assert!(interp.current_scope().has_var(&name("y")));
    assert!(interp.global_scope().get_var(&name("y")).is_none());
    interp.add_extern(&name("z"));
    assert!(!interp.global_scope().has_var(&name("z")));
    interp.eval_stmt(Statement::Declaration { scope: VariableScope::Extern, idents: vec![name("w")] }).unwrap();
    assert!(!interp.global_scope().has_var(&name("w")));
}
