//! The evaluation context and the evaluator.
use crate::ast::{BinaryOp, Expr, Stmt};
use crate::env::{no_bindings, Env, EnvRef, EnvView};
use crate::error::{result_view, EvalError};
use crate::semantics::{
    block_view, eval_args, eval_block, eval_expr, eval_print, eval_stmt, eval_while, unit_view, Heap,
};
use crate::value::{apply_binary, apply_unary, NativeFn, Value, ValueView};
use vstd::prelude::*;

verus! {

/// The fuel that the evaluation entry points without a fuel argument use:
/// as much as a `u64` holds.
pub const UNLIMITED: u64 = 18446744073709551615;

/// The frames as the root frame holds them before any program runs: `print`
/// bound to the built-in print function.
pub open spec fn initial_env() -> EnvView {
    EnvView {
        parents: seq![Option::<EnvRef>::None],
        vars: no_bindings().insert((0, "print"@), ValueView::NativeFunction(NativeFn::Print)),
    }
}

/// An evaluation context: the arena of frames, the stack of frames being
/// evaluated in (innermost last, the root first), and the text that `print`
/// has written.
pub struct Context {
    env: Env,
    stack: Vec<EnvRef>,
    output: String,
}

impl Context {
    /// The frames and the output.
    pub closed spec fn heap(&self) -> Heap {
        Heap { env: self.env@, out: self.output@ }
    }

    /// The stack of active frames, innermost last.
    pub closed spec fn stack(&self) -> Seq<EnvRef> {
        self.stack@
    }

    /// The innermost active frame.
    pub open spec fn current(&self) -> EnvRef {
        self.stack().last()
    }

    /// The stack is never empty, it names existing frames only, and every
    /// binding belongs to an existing frame.
    pub open spec fn inv(&self) -> bool {
        &&& self.stack().len() > 0
        &&& self.heap().env.wf()
        &&& forall|i: int| 0 <= i < self.stack().len() ==> #[trigger] self.stack()[i] < self.heap().env.len()
    }

    /// A context with a root frame that binds `print`, the root as the only
    /// active frame, and no output.
    pub fn new() -> (r: Context)
        ensures
            r.inv(),
            r.heap().env == initial_env(),
            r.heap().out == Seq::<char>::empty(),
            r.stack() == seq![0usize],
    {
        let mut env = Env::root();
        env.declare(0, String::from_str("print"), Value::NativeFunction(NativeFn::Print));
        let mut stack: Vec<EnvRef> = Vec::new();
        stack.push(0);
        let r = Context { env, stack, output: String::new() };
        assert(r.heap().env =~= initial_env());
        assert(r.stack() =~= seq![0usize]);
        r
    }

    /// The innermost active frame.
    pub fn current_env(&self) -> (r: EnvRef)
        requires
            self.inv(),
        ensures
            r == self.current(),
    {
        self.stack[self.stack.len() - 1]
    }

    /// Makes `env` the innermost active frame.
    pub fn push_env(&mut self, env: EnvRef)
        requires
            old(self).inv(),
            env < old(self).heap().env.len(),
        ensures
            final(self).inv(),
            final(self).heap() == old(self).heap(),
            final(self).stack() == old(self).stack().push(env),
    {
        self.stack.push(env);
    }

    /// Leaves the innermost active frame and returns it. The root frame is
    /// never left.
    pub fn pop_env(&mut self) -> (r: EnvRef)
        requires
            old(self).inv(),
            old(self).stack().len() > 1,
        ensures
            final(self).inv(),
            final(self).heap() == old(self).heap(),
            final(self).stack() == old(self).stack().drop_last(),
            r == old(self).current(),
    {
        let r: EnvRef = self.stack.pop().unwrap();
        r
    }

    /// The frames.
    pub fn env(&self) -> (r: &Env)
        ensures
            r@ == self.heap().env,
    {
        &self.env
    }

    /// The text that `print` has written.
    pub fn output(&self) -> (r: &str)
        ensures
            r@ == self.heap().out,
    {
        self.output.as_str()
    }

    /// Evaluates an expression in the innermost active frame.
    pub fn eval_expr(&mut self, e: &Expr) -> (r: Result<Value, EvalError>)
        requires
            old(self).inv(),
        ensures
            final(self).inv(),
            final(self).stack() == old(self).stack(),
            final(self).heap() == eval_expr(UNLIMITED as nat, old(self).heap(), old(self).current(), *e).0,
            result_view(r) == eval_expr(UNLIMITED as nat, old(self).heap(), old(self).current(), *e).1,
    {
        self.eval_expr_with(e, UNLIMITED)
    }

    /// Runs a statement in the innermost active frame.
    pub fn eval_stmt(&mut self, s: &Stmt) -> (r: Result<Option<Value>, EvalError>)
        requires
            old(self).inv(),
        ensures
            final(self).inv(),
            final(self).stack() == old(self).stack(),
            final(self).heap() == eval_stmt(UNLIMITED as nat, old(self).heap(), old(self).current(), *s).0,
            block_view(r) == eval_stmt(UNLIMITED as nat, old(self).heap(), old(self).current(), *s).1,
    {
        self.eval_stmt_with(s, UNLIMITED)
    }

    /// Runs a block (a whole program, say) in the innermost active frame.
    pub fn eval_block(&mut self, stmts: &Vec<Stmt>) -> (r: Result<Option<Value>, EvalError>)
        requires
            old(self).inv(),
        ensures
            final(self).inv(),
            final(self).stack() == old(self).stack(),
            final(self).heap() == eval_block(UNLIMITED as nat, old(self).heap(), old(self).current(), stmts@).0,
            block_view(r) == eval_block(UNLIMITED as nat, old(self).heap(), old(self).current(), stmts@).1,
    {
        self.eval_block_with(stmts, UNLIMITED)
    }

    /// Evaluates an expression in the innermost active frame with the given
    /// fuel.
    pub fn eval_expr_with(&mut self, e: &Expr, fuel: u64) -> (r: Result<Value, EvalError>)
        requires
            old(self).inv(),
        ensures
            final(self).inv(),
            final(self).stack() == old(self).stack(),
            final(self).heap().env.len() >= old(self).heap().env.len(),
            final(self).heap() == eval_expr(fuel as nat, old(self).heap(), old(self).current(), *e).0,
            result_view(r) == eval_expr(fuel as nat, old(self).heap(), old(self).current(), *e).1,
        decreases fuel, 0nat,
    {
        if fuel == 0 {
            return Err(EvalError::StepLimit);
        }
        let f: u64 = fuel - 1;
        let cur: EnvRef = self.current_env();
        match e {
            Expr::Nil => Ok(Value::Nil),
            Expr::Identifier(n) => match self.env.get(cur, n.as_str()) {
                Some(v) => Ok(v),
                None => Ok(Value::Nil),
            },
            Expr::NumberLiteral(n) => Ok(Value::Number(*n)),
            Expr::StringLiteral(s) => Ok(Value::String(s.clone())),
            Expr::BooleanLiteral(b) => Ok(Value::Boolean(*b)),
            Expr::Assign(n, x) => {
                let v = self.eval_expr_with(x, f)?;
                let kept = v.copy();
                self.env.assign(cur, n.clone(), v)?;
                Ok(kept)
            },
            Expr::Function(ps, body) => Ok(Value::Function(ps.clone(), body.clone(), cur)),
            Expr::Call(callee, args) => {
                let c = self.eval_expr_with(callee, f)?;
                match c {
                    Value::Function(ps, body, cenv) => {
                        if args.len() != ps.len() {
                            return Err(
                                EvalError::ArgumentCount { expected: ps.len(), found: args.len() },
                            );
                        }
                        let child: EnvRef = self.env.child(cenv);
                        self.eval_args_with(args, &ps, child, f)?;
                        let br = self.eval_block_in(&body, child, f);
                        match br {
                            Err(err) => Err(err),
                            Ok(Some(v)) => Ok(v),
                            Ok(None) => Ok(Value::Nil),
                        }
                    },
                    Value::NativeFunction(NativeFn::Print) => self.print_with(args, f),
                    other => Err(EvalError::NotCallable(other)),
                }
            },
            Expr::UnaryOp(op, x) => {
                let v = self.eval_expr_with(x, f)?;
                apply_unary(*op, v)
            },
            Expr::BinaryOp(op, l, r) => {
                let lv = self.eval_expr_with(l, f)?;
                if *op == BinaryOp::And {
                    if lv.is_falsey() {
                        Ok(lv)
                    } else {
                        self.eval_expr_with(r, f)
                    }
                } else if *op == BinaryOp::Or {
                    if lv.is_truthy() {
                        Ok(lv)
                    } else {
                        self.eval_expr_with(r, f)
                    }
                } else {
                    let rv = self.eval_expr_with(r, f)?;
                    apply_binary(*op, lv, rv)
                }
            },
        }
    }

    /// Evaluates call arguments in the innermost active frame and binds them
    /// to the parameters in frame `child`.
    fn eval_args_with(
        &mut self,
        args: &Vec<Expr>,
        params: &Vec<String>,
        child: EnvRef,
        fuel: u64,
    ) -> (r: Result<(), EvalError>)
        requires
            old(self).inv(),
            child < old(self).heap().env.len(),
            args.len() == params.len(),
        ensures
            final(self).inv(),
            final(self).stack() == old(self).stack(),
            final(self).heap().env.len() >= old(self).heap().env.len(),
            final(self).heap() == eval_args(
                fuel as nat,
                old(self).heap(),
                old(self).current(),
                child,
                args@,
                params@,
            ).0,
            unit_view(r) == eval_args(
                fuel as nat,
                old(self).heap(),
                old(self).current(),
                child,
                args@,
                params@,
            ).1,
        decreases fuel, 1nat,
    {
        let ghost h0 = self.heap();
        let ghost cur = self.current();
        let n: usize = args.len();
        let mut i: usize = 0;
        assert(args@.subrange(0, n as int) =~= args@);
        assert(params@.subrange(0, n as int) =~= params@);
        while i < n
            invariant
                self.inv(),
                self.stack() == old(self).stack(),
                self.heap().env.len() >= old(self).heap().env.len(),
                child < old(self).heap().env.len(),
                cur == self.current(),
                cur == old(self).current(),
                h0 == old(self).heap(),
                n == args.len(),
                n == params.len(),
                0 <= i <= n,
                eval_args(fuel as nat, h0, cur, child, args@, params@) == eval_args(
                    fuel as nat,
                    self.heap(),
                    cur,
                    child,
                    args@.subrange(i as int, n as int),
                    params@.subrange(i as int, n as int),
                ),
            decreases n - i,
        {
            proof {
                assert(args@.subrange(i as int, n as int)[0] == args@[i as int]);
                assert(params@.subrange(i as int, n as int)[0] == params@[i as int]);
                assert(args@.subrange(i as int, n as int).drop_first() =~= args@.subrange(
                    i + 1,
                    n as int,
                ));
                assert(params@.subrange(i as int, n as int).drop_first() =~= params@.subrange(
                    i + 1,
                    n as int,
                ));
            }
            let v = self.eval_expr_with(&args[i], fuel)?;
            let name = params[i].clone();
            self.env.declare(child, name, v);
            i += 1;
        }
        proof {
            assert(args@.subrange(n as int, n as int).len() == 0);
        }
        Ok(())
    }

    /// The built-in `print`, on unevaluated arguments.
    fn print_with(&mut self, args: &Vec<Expr>, fuel: u64) -> (r: Result<Value, EvalError>)
        requires
            old(self).inv(),
        ensures
            final(self).inv(),
            final(self).stack() == old(self).stack(),
            final(self).heap().env.len() >= old(self).heap().env.len(),
            final(self).heap() == eval_print(
                fuel as nat,
                old(self).heap(),
                old(self).current(),
                args@,
                true,
            ).0,
            result_view(r) == eval_print(
                fuel as nat,
                old(self).heap(),
                old(self).current(),
                args@,
                true,
            ).1,
        decreases fuel, 1nat,
    {
        let ghost h0 = self.heap();
        let ghost cur = self.current();
        let n: usize = args.len();
        let mut i: usize = 0;
        assert(args@.subrange(0, n as int) =~= args@);
        while i < n
            invariant
                self.inv(),
                self.stack() == old(self).stack(),
                self.heap().env.len() >= old(self).heap().env.len(),
                cur == self.current(),
                cur == old(self).current(),
                h0 == old(self).heap(),
                n == args.len(),
                0 <= i <= n,
                eval_print(fuel as nat, h0, cur, args@, true) == eval_print(
                    fuel as nat,
                    self.heap(),
                    cur,
                    args@.subrange(i as int, n as int),
                    i == 0,
                ),
            decreases n - i,
        {
            proof {
                assert(args@.subrange(i as int, n as int)[0] == args@[i as int]);
                assert(args@.subrange(i as int, n as int).drop_first() =~= args@.subrange(
                    i + 1,
                    n as int,
                ));
            }
            let v = self.eval_expr_with(&args[i], fuel)?;
            if i > 0 {
                self.output.append(" ");
            }
            let text = v.render();
            self.output.append(text.as_str());
            i += 1;
        }
        proof {
            assert(args@.subrange(n as int, n as int).len() == 0);
        }
        self.output.append("\n");
        Ok(Value::Nil)
    }

    /// Runs a block in the innermost active frame with the given fuel.
    pub fn eval_block_with(&mut self, stmts: &Vec<Stmt>, fuel: u64) -> (r: Result<
        Option<Value>,
        EvalError,
    >)
        requires
            old(self).inv(),
        ensures
            final(self).inv(),
            final(self).stack() == old(self).stack(),
            final(self).heap().env.len() >= old(self).heap().env.len(),
            final(self).heap() == eval_block(fuel as nat, old(self).heap(), old(self).current(), stmts@).0,
            block_view(r) == eval_block(fuel as nat, old(self).heap(), old(self).current(), stmts@).1,
        decreases fuel, 1nat,
    {
        let ghost h0 = self.heap();
        let ghost cur = self.current();
        let n: usize = stmts.len();
        let mut i: usize = 0;
        assert(stmts@.subrange(0, n as int) =~= stmts@);
        while i < n
            invariant
                self.inv(),
                self.stack() == old(self).stack(),
                self.heap().env.len() >= old(self).heap().env.len(),
                cur == self.current(),
                cur == old(self).current(),
                h0 == old(self).heap(),
                n == stmts.len(),
                0 <= i <= n,
                eval_block(fuel as nat, h0, cur, stmts@) == eval_block(
                    fuel as nat,
                    self.heap(),
                    cur,
                    stmts@.subrange(i as int, n as int),
                ),
            decreases n - i,
        {
            proof {
                assert(stmts@.subrange(i as int, n as int)[0] == stmts@[i as int]);
                assert(stmts@.subrange(i as int, n as int).drop_first() =~= stmts@.subrange(
                    i + 1,
                    n as int,
                ));
            }
            match self.eval_stmt_with(&stmts[i], fuel) {
                Err(err) => {
                    return Err(err);
                },
                Ok(Some(v)) => {
                    return Ok(Some(v));
                },
                Ok(None) => {},
            }
            i += 1;
        }
        proof {
            assert(stmts@.subrange(n as int, n as int).len() == 0);
        }
        Ok(None)
    }

    /// Runs a block with `env` as the innermost active frame, then leaves
    /// `env` again, whatever the outcome.
    pub fn eval_block_in(&mut self, stmts: &Vec<Stmt>, env: EnvRef, fuel: u64) -> (r: Result<
        Option<Value>,
        EvalError,
    >)
        requires
            old(self).inv(),
            env < old(self).heap().env.len(),
        ensures
            final(self).inv(),
            final(self).stack() == old(self).stack(),
            final(self).heap().env.len() >= old(self).heap().env.len(),
            final(self).heap() == eval_block(fuel as nat, old(self).heap(), env, stmts@).0,
            block_view(r) == eval_block(fuel as nat, old(self).heap(), env, stmts@).1,
        decreases fuel, 2nat,
    {
        self.push_env(env);
        let r = self.eval_block_with(stmts, fuel);
        self.pop_env();
        proof {
            assert(self.stack() =~= old(self).stack());
        }
        r
    }

    /// Runs a statement in the innermost active frame with the given fuel.
    pub fn eval_stmt_with(&mut self, s: &Stmt, fuel: u64) -> (r: Result<Option<Value>, EvalError>)
        requires
            old(self).inv(),
        ensures
            final(self).inv(),
            final(self).stack() == old(self).stack(),
            final(self).heap().env.len() >= old(self).heap().env.len(),
            final(self).heap() == eval_stmt(fuel as nat, old(self).heap(), old(self).current(), *s).0,
            block_view(r) == eval_stmt(fuel as nat, old(self).heap(), old(self).current(), *s).1,
        decreases fuel, 0nat,
    {
        if fuel == 0 {
            return Err(EvalError::StepLimit);
        }
        let f: u64 = fuel - 1;
        match s {
            Stmt::Return(e) => {
                let v = self.eval_expr_with(e, f)?;
                Ok(Some(v))
            },
            Stmt::ExprStmt(e) => {
                self.eval_expr_with(e, f)?;
                Ok(None)
            },
            Stmt::Declaration(n, e) => {
                let v = self.eval_expr_with(e, f)?;
                let cur: EnvRef = self.current_env();
                self.env.declare(cur, n.clone(), v);
                Ok(None)
            },
            Stmt::If(c, t, e) => {
                let v = self.eval_expr_with(c, f)?;
                if v.is_truthy() {
                    self.eval_block_with(t, f)
                } else {
                    self.eval_block_with(e, f)
                }
            },
            Stmt::While(c, body) => self.eval_while_with(c, body, f),
        }
    }

    /// Runs a `while` loop in the innermost active frame with the given fuel.
    fn eval_while_with(&mut self, cond: &Expr, body: &Vec<Stmt>, fuel: u64) -> (r: Result<
        Option<Value>,
        EvalError,
    >)
        requires
            old(self).inv(),
        ensures
            final(self).inv(),
            final(self).stack() == old(self).stack(),
            final(self).heap().env.len() >= old(self).heap().env.len(),
            final(self).heap() == eval_while(
                fuel as nat,
                old(self).heap(),
                old(self).current(),
                *cond,
                body@,
            ).0,
            block_view(r) == eval_while(
                fuel as nat,
                old(self).heap(),
                old(self).current(),
                *cond,
                body@,
            ).1,
        decreases fuel, 1nat,
    {
        let ghost h0 = self.heap();
        let ghost cur = self.current();
        let mut k = fuel;
        loop
            invariant
                self.inv(),
                self.stack() == old(self).stack(),
                self.heap().env.len() >= old(self).heap().env.len(),
                cur == self.current(),
                cur == old(self).current(),
                h0 == old(self).heap(),
                k <= fuel,
                eval_while(fuel as nat, h0, cur, *cond, body@) == eval_while(
                    k as nat,
                    self.heap(),
                    cur,
                    *cond,
                    body@,
                ),
            decreases k,
        {
            if k == 0 {
                return Err(EvalError::StepLimit);
            }
            let f: u64 = k - 1;
            let c = self.eval_expr_with(cond, f)?;
            if !c.is_truthy() {
                return Ok(None);
            }
            match self.eval_block_with(body, f) {
                Err(err) => {
                    return Err(err);
                },
                Ok(Some(v)) => {
                    return Ok(Some(v));
                },
                Ok(None) => {},
            }
            k = f;
        }
    }
}

} // verus!
