//! The meaning of programs: evaluation as spec functions over the frames and
//! the text written so far.
//!
//! Every function takes a `fuel` bound. Evaluating a statement or an
//! expression uses one unit for its sub-evaluations, and each round of a
//! `while` loop uses one more; when none is left the result is `StepLimit`.
//! With enough fuel the bound is never reached, and the functions give the
//! language's results.
use crate::ast::{BinaryOp, Expr, Stmt};
use crate::env::{EnvRef, EnvView};
use crate::error::{ErrorView, EvalError};
use crate::value::{binary_result, render, truthy, unary_result, NativeFn, Value, ValueView};
use vstd::prelude::*;

verus! {

/// The state that evaluation reads and changes: the frames, and the text
/// that `print` has written.
pub struct Heap {
    pub env: EnvView,
    pub out: Seq<char>,
}

/// The outcome of a statement or block: `Some(v)` when a `return` with
/// value `v` ends it, `None` when it runs to its end.
pub type BlockResult = Result<Option<ValueView>, ErrorView>;

/// The outcome of an expression.
pub type ExprResult = Result<ValueView, ErrorView>;

/// The view of a block's result.
pub open spec fn block_view(r: Result<Option<Value>, EvalError>) -> BlockResult {
    match r {
        Ok(Some(v)) => Ok(Some(v@)),
        Ok(None) => Ok(None),
        Err(e) => Err(e@),
    }
}

/// The view of a result that carries no value.
pub open spec fn unit_view(r: Result<(), EvalError>) -> Result<(), ErrorView> {
    match r {
        Ok(_) => Ok(()),
        Err(e) => Err(e@),
    }
}

/// `h` with the frames replaced.
pub open spec fn with_env(h: Heap, env: EnvView) -> Heap {
    Heap { env, out: h.out }
}

/// Evaluates `e` in frame `env`.
pub open spec fn eval_expr(fuel: nat, h: Heap, env: EnvRef, e: Expr) -> (Heap, ExprResult)
    decreases fuel, 0nat,
{
    if fuel == 0 {
        (h, Err(ErrorView::StepLimit))
    } else {
        let f = (fuel - 1) as nat;
        match e {
            Expr::Nil => (h, Ok(ValueView::Nil)),
            Expr::Identifier(n) => (
                h,
                Ok(
                    match h.env.lookup(env, n@) {
                        Some(v) => v,
                        None => ValueView::Nil,
                    },
                ),
            ),
            Expr::NumberLiteral(n) => (h, Ok(ValueView::Number(n))),
            Expr::StringLiteral(s) => (h, Ok(ValueView::Str(s@))),
            Expr::BooleanLiteral(b) => (h, Ok(ValueView::Boolean(b))),
            Expr::Assign(n, x) => {
                let (h1, r) = eval_expr(f, h, env, *x);
                match r {
                    Err(err) => (h1, Err(err)),
                    Ok(v) => match h1.env.assigned(env, n@, v) {
                        Some(ev) => (with_env(h1, ev), Ok(v)),
                        None => (h1, Err(ErrorView::UndefinedVariable(n@))),
                    },
                }
            },
            Expr::Function(ps, body) => (h, Ok(ValueView::Function(ps, body, env))),
            Expr::Call(callee, args) => {
                let (h1, r) = eval_expr(f, h, env, *callee);
                match r {
                    Err(err) => (h1, Err(err)),
                    Ok(ValueView::Function(ps, body, cenv)) => if args@.len() != ps@.len() {
                        (
                            h1,
                            Err(
                                ErrorView::ArgumentCount {
                                    expected: ps@.len() as usize,
                                    found: args@.len() as usize,
                                },
                            ),
                        )
                    } else {
                        let child = h1.env.len() as EnvRef;
                        let h2 = with_env(h1, h1.env.with_child(cenv));
                        let (h3, ar) = eval_args(f, h2, env, child, args@, ps@);
                        match ar {
                            Err(err) => (h3, Err(err)),
                            Ok(_) => {
                                let (h4, br) = eval_block(f, h3, child, body@);
                                match br {
                                    Err(err) => (h4, Err(err)),
                                    Ok(Some(v)) => (h4, Ok(v)),
                                    Ok(None) => (h4, Ok(ValueView::Nil)),
                                }
                            },
                        }
                    },
                    Ok(ValueView::NativeFunction(NativeFn::Print)) => eval_print(
                        f,
                        h1,
                        env,
                        args@,
                        true,
                    ),
                    Ok(other) => (h1, Err(ErrorView::NotCallable(other))),
                }
            },
            Expr::UnaryOp(op, x) => {
                let (h1, r) = eval_expr(f, h, env, *x);
                match r {
                    Err(err) => (h1, Err(err)),
                    Ok(v) => (h1, unary_result(op, v)),
                }
            },
            Expr::BinaryOp(op, l, r) => {
                let (h1, lr) = eval_expr(f, h, env, *l);
                match lr {
                    Err(err) => (h1, Err(err)),
                    Ok(lv) => if op == BinaryOp::And {
                        if !truthy(lv) {
                            (h1, Ok(lv))
                        } else {
                            eval_expr(f, h1, env, *r)
                        }
                    } else if op == BinaryOp::Or {
                        if truthy(lv) {
                            (h1, Ok(lv))
                        } else {
                            eval_expr(f, h1, env, *r)
                        }
                    } else {
                        let (h2, rr) = eval_expr(f, h1, env, *r);
                        match rr {
                            Err(err) => (h2, Err(err)),
                            Ok(rv) => (h2, binary_result(op, lv, rv)),
                        }
                    },
                }
            },
        }
    }
}

/// Evaluates the arguments of a call left to right in frame `env`, and binds
/// each value to the parameter at the same position in frame `child`.
pub open spec fn eval_args(
    fuel: nat,
    h: Heap,
    env: EnvRef,
    child: EnvRef,
    args: Seq<Expr>,
    params: Seq<String>,
) -> (Heap, Result<(), ErrorView>)
    decreases fuel, args.len(),
{
    if args.len() == 0 || params.len() == 0 {
        (h, Ok(()))
    } else {
        let (h1, r) = eval_expr(fuel, h, env, args[0]);
        match r {
            Err(err) => (h1, Err(err)),
            Ok(v) => eval_args(
                fuel,
                with_env(h1, h1.env.declared(child, params[0]@, v)),
                env,
                child,
                args.drop_first(),
                params.drop_first(),
            ),
        }
    }
}

/// The built-in `print`: evaluates the arguments left to right, writing the
/// display form of each as soon as it has it (after a space unless it is
/// the first), then a newline. Its value is `Nil`.
pub open spec fn eval_print(fuel: nat, h: Heap, env: EnvRef, args: Seq<Expr>, first: bool) -> (
    Heap,
    ExprResult,
)
    decreases fuel, args.len(),
{
    if args.len() == 0 {
        (Heap { env: h.env, out: h.out + "\n"@ }, Ok(ValueView::Nil))
    } else {
        let (h1, r) = eval_expr(fuel, h, env, args[0]);
        match r {
            Err(err) => (h1, Err(err)),
            Ok(v) => {
                let out = if first {
                    h1.out + render(v)
                } else {
                    h1.out + " "@ + render(v)
                };
                eval_print(fuel, Heap { env: h1.env, out }, env, args.drop_first(), false)
            },
        }
    }
}

/// Runs the statements of a block in order in frame `env`, stopping at the
/// first that returns.
pub open spec fn eval_block(fuel: nat, h: Heap, env: EnvRef, stmts: Seq<Stmt>) -> (
    Heap,
    BlockResult,
)
    decreases fuel, stmts.len(),
{
    if stmts.len() == 0 {
        (h, Ok(None))
    } else {
        let (h1, r) = eval_stmt(fuel, h, env, stmts[0]);
        match r {
            Err(err) => (h1, Err(err)),
            Ok(Some(v)) => (h1, Ok(Some(v))),
            Ok(None) => eval_block(fuel, h1, env, stmts.drop_first()),
        }
    }
}

/// Runs one statement in frame `env`. Branches and loop bodies run in the
/// same frame: blocks open no scope of their own.
pub open spec fn eval_stmt(fuel: nat, h: Heap, env: EnvRef, s: Stmt) -> (Heap, BlockResult)
    decreases fuel, 0nat,
{
    if fuel == 0 {
        (h, Err(ErrorView::StepLimit))
    } else {
        let f = (fuel - 1) as nat;
        match s {
            Stmt::Return(e) => {
                let (h1, r) = eval_expr(f, h, env, e);
                match r {
                    Err(err) => (h1, Err(err)),
                    Ok(v) => (h1, Ok(Some(v))),
                }
            },
            Stmt::ExprStmt(e) => {
                let (h1, r) = eval_expr(f, h, env, e);
                match r {
                    Err(err) => (h1, Err(err)),
                    Ok(_) => (h1, Ok(None)),
                }
            },
            Stmt::Declaration(n, e) => {
                let (h1, r) = eval_expr(f, h, env, e);
                match r {
                    Err(err) => (h1, Err(err)),
                    Ok(v) => (with_env(h1, h1.env.declared(env, n@, v)), Ok(None)),
                }
            },
            Stmt::If(c, t, e) => {
                let (h1, r) = eval_expr(f, h, env, c);
                match r {
                    Err(err) => (h1, Err(err)),
                    Ok(v) => if truthy(v) {
                        eval_block(f, h1, env, t@)
                    } else {
                        eval_block(f, h1, env, e@)
                    },
                }
            },
            Stmt::While(c, body) => eval_while(f, h, env, c, body@),
        }
    }
}

/// Runs a `while` loop in frame `env`. Each round uses one unit of fuel.
pub open spec fn eval_while(fuel: nat, h: Heap, env: EnvRef, cond: Expr, body: Seq<Stmt>) -> (
    Heap,
    BlockResult,
)
    decreases fuel, 0nat,
{
    if fuel == 0 {
        (h, Err(ErrorView::StepLimit))
    } else {
        let f = (fuel - 1) as nat;
        let (h1, r) = eval_expr(f, h, env, cond);
        match r {
            Err(err) => (h1, Err(err)),
            Ok(v) => if !truthy(v) {
                (h1, Ok(None))
            } else {
                let (h2, br) = eval_block(f, h1, env, body);
                match br {
                    Err(err) => (h2, Err(err)),
                    Ok(Some(rv)) => (h2, Ok(Some(rv))),
                    Ok(None) => eval_while(f, h2, env, cond, body),
                }
            },
        }
    }
}

} // verus!
