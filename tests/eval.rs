use ein::{BinaryOp, Context, Env, EvalError, Expr, Stmt, UnaryOp, Value};
use std::rc::Rc;

fn num(n: i64) -> Expr {
    Expr::NumberLiteral(n)
}

fn string(s: &str) -> Expr {
    Expr::StringLiteral(s.to_string())
}

fn ident(name: &str) -> Expr {
    Expr::Identifier(name.to_string())
}

fn bin(op: BinaryOp, l: Expr, r: Expr) -> Expr {
    Expr::BinaryOp(op, Box::new(l), Box::new(r))
}

fn assign(name: &str, e: Expr) -> Expr {
    Expr::Assign(name.to_string(), Box::new(e))
}

fn call(callee: Expr, args: Vec<Expr>) -> Expr {
    Expr::Call(Box::new(callee), args)
}

fn func(params: &[&str], body: Vec<Stmt>) -> Expr {
    Expr::Function(
        Rc::new(params.iter().map(|p| p.to_string()).collect()),
        Rc::new(body),
    )
}

fn let_(name: &str, e: Expr) -> Stmt {
    Stmt::Declaration(name.to_string(), e)
}

fn run(ctx: &mut Context, program: Vec<Stmt>) {
    let r = ctx.eval_block(&program);
    assert!(matches!(r, Ok(None)), "{:?}", r);
}

fn eval(ctx: &mut Context, e: Expr) -> Result<Value, EvalError> {
    ctx.eval_expr(&e)
}

fn adder_decl() -> Stmt {
    let_(
        "adder",
        func(
            &["x", "y"],
            vec![Stmt::Return(bin(BinaryOp::Add, ident("x"), ident("y")))],
        ),
    )
}

#[test]
fn adder_program_gives_three() {
    let mut ctx = Context::new();
    run(&mut ctx, vec![adder_decl()]);
    let r = eval(&mut ctx, call(ident("adder"), vec![num(1), num(2)]));
    assert!(matches!(r, Ok(Value::Number(3))), "{:?}", r);
}

#[test]
fn reassignment_program_gives_eleven() {
    let mut ctx = Context::new();
    run(
        &mut ctx,
        vec![
            let_("x", num(10)),
            Stmt::ExprStmt(assign("x", bin(BinaryOp::Add, ident("x"), num(1)))),
        ],
    );
    assert!(matches!(eval(&mut ctx, ident("x")), Ok(Value::Number(11))));
}

#[test]
fn while_program_counts_to_three() {
    let mut ctx = Context::new();
    run(
        &mut ctx,
        vec![
            let_("i", num(0)),
            Stmt::While(
                bin(BinaryOp::LessThan, ident("i"), num(3)),
                vec![Stmt::ExprStmt(assign(
                    "i",
                    bin(BinaryOp::Add, ident("i"), num(1)),
                ))],
            ),
        ],
    );
    assert!(matches!(eval(&mut ctx, ident("i")), Ok(Value::Number(3))));
}

#[test]
fn assignment_in_function_updates_outer_binding() {
    let mut ctx = Context::new();
    run(
        &mut ctx,
        vec![
            let_("x", num(1)),
            let_("f", func(&[], vec![Stmt::ExprStmt(assign("x", num(5)))])),
            Stmt::ExprStmt(call(ident("f"), vec![])),
        ],
    );
    assert!(matches!(eval(&mut ctx, ident("x")), Ok(Value::Number(5))));
}

#[test]
fn closure_observes_reassignment_made_elsewhere() {
    let mut ctx = Context::new();
    run(
        &mut ctx,
        vec![
            let_("y", num(1)),
            let_("get", func(&[], vec![Stmt::Return(ident("y"))])),
            let_("set", func(&[], vec![Stmt::ExprStmt(assign("y", num(2)))])),
            Stmt::ExprStmt(call(ident("set"), vec![])),
        ],
    );
    let r = eval(&mut ctx, call(ident("get"), vec![]));
    assert!(matches!(r, Ok(Value::Number(2))), "{:?}", r);
}

#[test]
fn closure_keeps_its_defining_frame() {
    // make_counter returns a closure over its own frame's `n`
    let mut ctx = Context::new();
    let inc = func(
        &[],
        vec![
            Stmt::ExprStmt(assign("n", bin(BinaryOp::Add, ident("n"), num(1)))),
            Stmt::Return(ident("n")),
        ],
    );
    run(
        &mut ctx,
        vec![
            let_(
                "make_counter",
                func(&[], vec![let_("n", num(0)), Stmt::Return(inc)]),
            ),
            let_("c", call(ident("make_counter"), vec![])),
            Stmt::ExprStmt(call(ident("c"), vec![])),
        ],
    );
    let r = eval(&mut ctx, call(ident("c"), vec![]));
    assert!(matches!(r, Ok(Value::Number(2))), "{:?}", r);
    // `n` is not visible at the top level
    assert!(matches!(eval(&mut ctx, ident("n")), Ok(Value::Nil)));
}

#[test]
fn parameter_shadows_outer_only_during_call() {
    let mut ctx = Context::new();
    run(
        &mut ctx,
        vec![
            let_("x", num(1)),
            let_(
                "f",
                func(
                    &["x"],
                    vec![
                        Stmt::ExprStmt(assign("x", num(99))),
                        Stmt::Return(ident("x")),
                    ],
                ),
            ),
        ],
    );
    let r = eval(&mut ctx, call(ident("f"), vec![num(7)]));
    assert!(matches!(r, Ok(Value::Number(99))));
    assert!(matches!(eval(&mut ctx, ident("x")), Ok(Value::Number(1))));
}

#[test]
fn truthiness_of_values() {
    assert!(!Value::Nil.is_truthy());
    assert!(!Value::Boolean(false).is_truthy());
    assert!(Value::Boolean(true).is_truthy());
    assert!(Value::Number(0).is_truthy());
    assert!(Value::String(String::new()).is_truthy());
    assert!(Value::Nil.is_falsey());
}

#[test]
fn truthiness_through_not_if_and_while() {
    let mut ctx = Context::new();
    let not = |e: Expr| Expr::UnaryOp(UnaryOp::Not, Box::new(e));
    assert!(matches!(eval(&mut ctx, not(num(0))), Ok(Value::Boolean(false))));
    assert!(matches!(eval(&mut ctx, not(string(""))), Ok(Value::Boolean(false))));
    assert!(matches!(eval(&mut ctx, not(Expr::Nil)), Ok(Value::Boolean(true))));
    assert!(matches!(
        eval(&mut ctx, not(Expr::BooleanLiteral(false))),
        Ok(Value::Boolean(true))
    ));
    let choose = |c: Expr| {
        Stmt::If(
            c,
            vec![Stmt::Return(string("then"))],
            vec![Stmt::Return(string("else"))],
        )
    };
    let r = ctx.eval_stmt(&choose(num(0)));
    assert!(matches!(r, Ok(Some(Value::String(ref s))) if s == "then"));
    let r = ctx.eval_stmt(&choose(string("")));
    assert!(matches!(r, Ok(Some(Value::String(ref s))) if s == "then"));
    let r = ctx.eval_stmt(&choose(Expr::Nil));
    assert!(matches!(r, Ok(Some(Value::String(ref s))) if s == "else"));
    let r = ctx.eval_stmt(&Stmt::While(Expr::Nil, vec![Stmt::Return(num(1))]));
    assert!(matches!(r, Ok(None)));
}

#[test]
fn and_short_circuits_without_side_effects() {
    let mut ctx = Context::new();
    let e = bin(
        BinaryOp::And,
        Expr::BooleanLiteral(false),
        call(ident("print"), vec![num(1)]),
    );
    assert!(matches!(eval(&mut ctx, e), Ok(Value::Boolean(false))));
    assert_eq!(ctx.output(), "");
    let e = bin(BinaryOp::And, Expr::Nil, assign("undefined", num(1)));
    assert!(matches!(eval(&mut ctx, e), Ok(Value::Nil)));
    let e = bin(BinaryOp::And, num(1), string("right"));
    assert!(matches!(eval(&mut ctx, e), Ok(Value::String(ref s)) if s == "right"));
}

#[test]
fn or_yields_deciding_operand() {
    let mut ctx = Context::new();
    let e = bin(BinaryOp::Or, Expr::Nil, num(5));
    assert!(matches!(eval(&mut ctx, e), Ok(Value::Number(5))));
    let e = bin(BinaryOp::Or, num(0), call(ident("print"), vec![]));
    assert!(matches!(eval(&mut ctx, e), Ok(Value::Number(0))));
    assert_eq!(ctx.output(), "");
}

#[test]
fn arithmetic_and_equality() {
    let mut ctx = Context::new();
    assert!(matches!(
        eval(&mut ctx, bin(BinaryOp::Add, num(1), num(1))),
        Ok(Value::Number(2))
    ));
    let r = eval(&mut ctx, bin(BinaryOp::Add, string("a"), string("b")));
    assert!(matches!(r, Ok(Value::String(ref s)) if s == "ab"));
    assert!(matches!(
        eval(&mut ctx, bin(BinaryOp::Equals, num(1), num(1))),
        Ok(Value::Boolean(true))
    ));
    assert!(matches!(
        eval(&mut ctx, bin(BinaryOp::NotEquals, string("a"), string("a"))),
        Ok(Value::Boolean(false))
    ));
    assert!(matches!(
        eval(&mut ctx, bin(BinaryOp::Equals, Expr::Nil, Expr::Nil)),
        Ok(Value::Boolean(true))
    ));
    assert!(matches!(
        eval(&mut ctx, bin(BinaryOp::Equals, num(1), string("1"))),
        Ok(Value::Boolean(false))
    ));
    assert!(matches!(
        eval(&mut ctx, bin(BinaryOp::Subtract, num(5), num(8))),
        Ok(Value::Number(-3))
    ));
    assert!(matches!(
        eval(&mut ctx, bin(BinaryOp::Multiply, num(6), num(7))),
        Ok(Value::Number(42))
    ));
    assert!(matches!(
        eval(&mut ctx, bin(BinaryOp::Divide, num(7), num(2))),
        Ok(Value::Number(3))
    ));
    assert!(matches!(
        eval(&mut ctx, bin(BinaryOp::Divide, num(-7), num(2))),
        Ok(Value::Number(-3))
    ));
    assert!(matches!(
        eval(&mut ctx, Expr::UnaryOp(UnaryOp::UnaryMinus, Box::new(num(4)))),
        Ok(Value::Number(-4))
    ));
}

#[test]
fn comparisons() {
    let mut ctx = Context::new();
    let cases = [
        (BinaryOp::GreaterThan, 10, 5, true),
        (BinaryOp::GreaterEquals, 5, 5, true),
        (BinaryOp::LessThan, 10, 5, false),
        (BinaryOp::LessEquals, 5, 10, true),
        (BinaryOp::LessEquals, 11, 10, false),
    ];
    for (op, a, b, expected) in cases {
        let r = eval(&mut ctx, bin(op, num(a), num(b)));
        assert!(matches!(r, Ok(Value::Boolean(v)) if v == expected), "{:?}", r);
    }
}

#[test]
fn function_values_are_never_equal() {
    let mut ctx = Context::new();
    let r = eval(
        &mut ctx,
        bin(BinaryOp::Equals, func(&[], vec![]), func(&[], vec![])),
    );
    assert!(matches!(r, Ok(Value::Boolean(false))));
    run(&mut ctx, vec![let_("f", func(&[], vec![]))]);
    let r = eval(&mut ctx, bin(BinaryOp::Equals, ident("f"), ident("f")));
    assert!(matches!(r, Ok(Value::Boolean(false))));
    let r = eval(&mut ctx, bin(BinaryOp::NotEquals, ident("f"), ident("f")));
    assert!(matches!(r, Ok(Value::Boolean(true))));
}

#[test]
fn arity_is_enforced() {
    let mut ctx = Context::new();
    run(&mut ctx, vec![adder_decl()]);
    let r = eval(&mut ctx, call(ident("adder"), vec![num(1)]));
    assert!(matches!(
        r,
        Err(EvalError::ArgumentCount {
            expected: 2,
            found: 1
        })
    ));
    let r = eval(&mut ctx, call(ident("adder"), vec![num(1), num(2), num(3)]));
    assert!(matches!(
        r,
        Err(EvalError::ArgumentCount {
            expected: 2,
            found: 3
        })
    ));
    let r = eval(&mut ctx, call(ident("adder"), vec![num(1), num(2)]));
    assert!(matches!(r, Ok(Value::Number(3))));
}

#[test]
fn function_without_return_gives_nil() {
    let mut ctx = Context::new();
    let r = eval(&mut ctx, call(func(&[], vec![]), vec![]));
    assert!(matches!(r, Ok(Value::Nil)));
}

#[test]
fn return_leaves_loop_and_function() {
    let mut ctx = Context::new();
    let body = vec![
        let_("i", num(0)),
        Stmt::While(
            Expr::BooleanLiteral(true),
            vec![
                Stmt::ExprStmt(assign("i", bin(BinaryOp::Add, ident("i"), num(1)))),
                Stmt::If(
                    bin(BinaryOp::Equals, ident("i"), num(4)),
                    vec![Stmt::Return(ident("i"))],
                    vec![],
                ),
            ],
        ),
        Stmt::Return(num(-1)),
    ];
    let r = eval(&mut ctx, call(func(&[], body), vec![]));
    assert!(matches!(r, Ok(Value::Number(4))), "{:?}", r);
}

#[test]
fn declarations_in_branches_stay_in_enclosing_frame() {
    let mut ctx = Context::new();
    run(
        &mut ctx,
        vec![Stmt::If(
            Expr::BooleanLiteral(true),
            vec![let_("z", num(3))],
            vec![],
        )],
    );
    assert!(matches!(eval(&mut ctx, ident("z")), Ok(Value::Number(3))));
}

#[test]
fn undefined_identifier_reads_as_nil() {
    let mut ctx = Context::new();
    assert!(matches!(eval(&mut ctx, ident("missing")), Ok(Value::Nil)));
}

#[test]
fn chained_assignment() {
    let mut ctx = Context::new();
    run(&mut ctx, vec![let_("x", Expr::Nil), let_("y", Expr::Nil)]);
    let r = eval(&mut ctx, assign("x", assign("y", num(10))));
    assert!(matches!(r, Ok(Value::Number(10))));
    assert!(matches!(eval(&mut ctx, ident("x")), Ok(Value::Number(10))));
    assert!(matches!(eval(&mut ctx, ident("y")), Ok(Value::Number(10))));
}

#[test]
fn assignment_to_undefined_fails() {
    let mut ctx = Context::new();
    let r = eval(&mut ctx, assign("nope", num(1)));
    assert!(matches!(r, Err(EvalError::UndefinedVariable(ref n)) if n == "nope"));
}

#[test]
fn type_errors() {
    let mut ctx = Context::new();
    let r = eval(
        &mut ctx,
        Expr::UnaryOp(UnaryOp::UnaryMinus, Box::new(string("a"))),
    );
    assert!(matches!(r, Err(EvalError::CannotNegate(Value::String(_)))));
    let r = eval(&mut ctx, bin(BinaryOp::Add, num(1), Expr::BooleanLiteral(true)));
    assert!(matches!(
        r,
        Err(EvalError::InvalidOperands(BinaryOp::Add, Value::Number(1), Value::Boolean(true)))
    ));
    let r = eval(&mut ctx, bin(BinaryOp::Subtract, string("a"), string("b")));
    assert!(matches!(r, Err(EvalError::InvalidOperands(BinaryOp::Subtract, _, _))));
    let r = eval(&mut ctx, bin(BinaryOp::LessThan, num(1), string("a")));
    assert!(matches!(r, Err(EvalError::InvalidOperands(BinaryOp::LessThan, _, _))));
    let r = eval(&mut ctx, call(num(5), vec![]));
    assert!(matches!(r, Err(EvalError::NotCallable(Value::Number(5)))));
}

#[test]
fn integer_limits() {
    let mut ctx = Context::new();
    let r = eval(&mut ctx, bin(BinaryOp::Add, num(i64::MAX), num(1)));
    assert!(matches!(r, Err(EvalError::NumberOverflow)));
    let r = eval(
        &mut ctx,
        Expr::UnaryOp(UnaryOp::UnaryMinus, Box::new(num(i64::MIN))),
    );
    assert!(matches!(r, Err(EvalError::NumberOverflow)));
    let r = eval(&mut ctx, bin(BinaryOp::Divide, num(1), num(0)));
    assert!(matches!(r, Err(EvalError::DivisionByZero)));
    let r = eval(&mut ctx, bin(BinaryOp::Divide, num(i64::MIN), num(-1)));
    assert!(matches!(r, Err(EvalError::NumberOverflow)));
}

#[test]
fn fuel_bounds_evaluation() {
    let mut ctx = Context::new();
    let r = ctx.eval_expr_with(&bin(BinaryOp::Add, num(1), num(2)), 1);
    assert!(matches!(r, Err(EvalError::StepLimit)));
    let r = ctx.eval_expr_with(&bin(BinaryOp::Add, num(1), num(2)), 2);
    assert!(matches!(r, Ok(Value::Number(3))));
    let r = ctx.eval_stmt_with(
        &Stmt::While(Expr::BooleanLiteral(true), vec![]),
        1000,
    );
    assert!(matches!(r, Err(EvalError::StepLimit)));
}

#[test]
fn print_writes_display_forms() {
    let mut ctx = Context::new();
    let r = eval(&mut ctx, call(ident("print"), vec![]));
    assert!(matches!(r, Ok(Value::Nil)));
    assert_eq!(ctx.output(), "\n");
    eval(&mut ctx, call(ident("print"), vec![num(-12)])).unwrap();
    assert_eq!(ctx.output(), "\n-12\n");
    eval(
        &mut ctx,
        call(
            ident("print"),
            vec![
                num(1),
                string("a b"),
                Expr::Nil,
                Expr::BooleanLiteral(true),
                func(&[], vec![]),
                ident("print"),
            ],
        ),
    )
    .unwrap();
    assert_eq!(ctx.output(), "\n-12\n1 a b nil true <fn> <native fn>\n");
}

#[test]
fn print_failure_keeps_earlier_output() {
    let mut ctx = Context::new();
    let r = eval(
        &mut ctx,
        call(ident("print"), vec![num(1), assign("nope", num(2)), num(3)]),
    );
    assert!(matches!(r, Err(EvalError::UndefinedVariable(_))));
    assert_eq!(ctx.output(), "1");
}

#[test]
fn arguments_run_in_caller_frame_left_to_right() {
    let mut ctx = Context::new();
    run(
        &mut ctx,
        vec![
            let_("log", string("")),
            let_(
                "note",
                func(
                    &["s"],
                    vec![
                        Stmt::ExprStmt(assign("log", bin(BinaryOp::Add, ident("log"), ident("s")))),
                        Stmt::Return(ident("s")),
                    ],
                ),
            ),
            let_("pair", func(&["a", "b"], vec![Stmt::Return(bin(BinaryOp::Add, ident("a"), ident("b")))])),
        ],
    );
    let r = eval(
        &mut ctx,
        call(
            ident("pair"),
            vec![
                call(ident("note"), vec![string("x")]),
                call(ident("note"), vec![string("y")]),
            ],
        ),
    );
    assert!(matches!(r, Ok(Value::String(ref s)) if s == "xy"));
    let r = eval(&mut ctx, ident("log"));
    assert!(matches!(r, Ok(Value::String(ref s)) if s == "xy"));
}

#[test]
fn render_of_values() {
    assert_eq!(Value::Number(-42).render(), "-42");
    assert_eq!(Value::Number(0).render(), "0");
    assert_eq!(Value::Number(1234567).render(), "1234567");
    assert_eq!(Value::Nil.render(), "nil");
    assert_eq!(Value::Boolean(false).render(), "false");
    assert_eq!(Value::String("hi".to_string()).render(), "hi");
}

#[test]
fn value_equality_and_copy() {
    assert!(Value::Number(3).equals(&Value::Number(3)));
    assert!(!Value::Number(3).equals(&Value::Number(4)));
    assert!(Value::String("a".to_string()).equals(&Value::String("a".to_string())));
    assert!(!Value::Nil.equals(&Value::Boolean(false)));
    let v = Value::String("s".to_string());
    assert!(v.copy().equals(&v));
}

#[test]
fn env_chain_operations() {
    let mut env = Env::root();
    assert_eq!(env.len(), 1);
    env.declare(0, "a".to_string(), Value::Number(1));
    let c = env.child(0);
    assert_eq!(c, 1);
    assert!(matches!(env.get(c, "a"), Some(Value::Number(1))));
    assert!(env.get(c, "b").is_none());
    env.declare(c, "a".to_string(), Value::Number(2));
    assert!(matches!(env.get(c, "a"), Some(Value::Number(2))));
    assert!(matches!(env.get(0, "a"), Some(Value::Number(1))));
    let g = env.child(c);
    assert!(env.assign(g, "a".to_string(), Value::Number(3)).is_ok());
    assert!(matches!(env.get(c, "a"), Some(Value::Number(3))));
    assert!(matches!(env.get(0, "a"), Some(Value::Number(1))));
    let r = env.assign(g, "b".to_string(), Value::Nil);
    assert!(matches!(r, Err(EvalError::UndefinedVariable(ref n)) if n == "b"));
}

#[test]
fn context_stack_operations() {
    let mut ctx = Context::new();
    assert_eq!(ctx.current_env(), 0);
    ctx.push_env(0);
    assert_eq!(ctx.current_env(), 0);
    assert_eq!(ctx.pop_env(), 0);
    assert!(matches!(ctx.env().get(0, "print"), Some(Value::NativeFunction(_))));
}

#[test]
fn identifier_characters() {
    assert!(ein::is_id_start('_'));
    assert!(ein::is_id_start('a'));
    assert!(ein::is_id_start('Z'));
    assert!(!ein::is_id_start('1'));
    assert!(ein::is_id_continue('1'));
    assert!(ein::is_id_continue('_'));
    assert!(!ein::is_id_continue('-'));
}

#[test]
fn error_messages() {
    let mut ctx = Context::new();
    run(&mut ctx, vec![adder_decl()]);
    let e = eval(&mut ctx, call(ident("adder"), vec![num(1)])).unwrap_err();
    assert_eq!(e.message(), "Expected 2 arguments, found 1");
    let e = eval(&mut ctx, assign("nope", num(1))).unwrap_err();
    assert_eq!(e.message(), "Variable nope has not been defined");
    let e = eval(&mut ctx, call(num(5), vec![])).unwrap_err();
    assert_eq!(e.message(), "5 is not a callable object");
    let e = eval(
        &mut ctx,
        Expr::UnaryOp(UnaryOp::UnaryMinus, Box::new(string("a"))),
    )
    .unwrap_err();
    assert_eq!(e.message(), "a cannot be negated");
    let e = eval(&mut ctx, bin(BinaryOp::Add, num(1), Expr::Nil)).unwrap_err();
    assert_eq!(e.message(), "1 and nil cannot be added");
    let e = eval(&mut ctx, bin(BinaryOp::Subtract, Expr::Nil, num(1))).unwrap_err();
    assert_eq!(e.message(), "nil and 1 cannot be subtracted");
    let e = eval(&mut ctx, bin(BinaryOp::Multiply, Expr::BooleanLiteral(true), num(1))).unwrap_err();
    assert_eq!(e.message(), "true and 1 cannot be multiplied");
    let e = eval(&mut ctx, bin(BinaryOp::Divide, string("x"), num(1))).unwrap_err();
    assert_eq!(e.message(), "x and 1 cannot be divided");
    let e = eval(&mut ctx, bin(BinaryOp::GreaterEquals, func(&[], vec![]), num(1))).unwrap_err();
    assert_eq!(e.message(), "<fn> and 1 cannot be compared");
    let e = eval(&mut ctx, bin(BinaryOp::Divide, num(1), num(0))).unwrap_err();
    assert_eq!(e.message(), "division by zero");
    let e = eval(&mut ctx, bin(BinaryOp::Multiply, num(i64::MAX), num(2))).unwrap_err();
    assert_eq!(e.message(), "number out of range");
    let e = ctx.eval_expr_with(&num(1), 0).unwrap_err();
    assert_eq!(e.message(), "evaluation step limit reached");
}

#[test]
fn block_in_frame_restores_stack() {
    let mut ctx = Context::new();
    run(&mut ctx, vec![let_("a", num(1))]);
    let frame = ctx.env().len();
    let r = eval(&mut ctx, call(func(&[], vec![]), vec![]));
    assert!(matches!(r, Ok(Value::Nil)));
    assert_eq!(ctx.env().len(), frame + 1);
    let r = ctx.eval_block_in(&vec![let_("b", num(2)), Stmt::Return(ident("a"))], frame, 100);
    assert!(matches!(r, Ok(Some(Value::Number(1)))));
    assert_eq!(ctx.current_env(), 0);
    assert!(matches!(ctx.env().get(frame, "b"), Some(Value::Number(2))));
    assert!(matches!(eval(&mut ctx, ident("b")), Ok(Value::Nil)));
}
