//! Laws of scoping and evaluation, proved from the definitions that the
//! evaluator is verified against.
use crate::ast::{BinaryOp, Expr, Stmt, UnaryOp};
use crate::env::{EnvRef, EnvView};
use crate::error::ErrorView;
use crate::semantics::{eval_args, eval_block, eval_expr, eval_stmt, eval_while, with_env, Heap};
use crate::value::{binary_result, truthy, ValueView};
use std::rc::Rc;
use vstd::prelude::*;

verus! {

/// Binding `name` in the frame that owns it keeps that frame its owner.
proof fn lemma_owner_after_declare(ev: EnvView, env: EnvRef, name: Seq<char>, o: EnvRef, v: ValueView)
    requires
        ev.owner(env, name) == Some(o),
    ensures
        ev.declared(o, name, v).owner(env, name) == Some(o),
    decreases env,
{
    let ev2 = ev.declared(o, name, v);
    if env != o {
        assert(!ev.binds(env, name));
        assert(!ev2.binds(env, name));
        if let Some(p) = ev.parents[env as int] {
            if p < env {
                lemma_owner_after_declare(ev, p, name, o, v);
            }
        }
    }
}

/// Adding a frame and binding names in it changes nothing seen from the
/// frames that were there before.
proof fn lemma_lookup_below_new_frame(
    ev: EnvView,
    ev2: EnvView,
    env: EnvRef,
    name: Seq<char>,
)
    requires
        ev.wf(),
        ev2.len() >= ev.len(),
        forall|i: int| 0 <= i < ev.len() ==> #[trigger] ev2.parents[i] == ev.parents[i],
        forall|k: (EnvRef, Seq<char>)|
            k.0 < ev.len() ==> (#[trigger] ev2.vars.contains_key(k) == ev.vars.contains_key(k) && (
            ev.vars.contains_key(k) ==> ev2.vars[k] == ev.vars[k])),
        env < ev.len(),
    ensures
        ev2.owner(env, name) == ev.owner(env, name),
        ev2.lookup(env, name) == ev.lookup(env, name),
    decreases env,
{
    assert(ev2.vars.contains_key((env, name)) == ev.vars.contains_key((env, name)));
    if !ev.binds(env, name) {
        assert(ev2.parents[env as int] == ev.parents[env as int]);
        if let Some(p) = ev.parents[env as int] {
            if p < env {
                lemma_lookup_below_new_frame(ev, ev2, p, name);
            }
        }
    }
    crate::env::lemma_owner_binds(ev, env, name);
    if let Some(o) = ev.owner(env, name) {
        assert(ev2.vars.contains_key((o, name)) == ev.vars.contains_key((o, name)));
    }
}

/// Assignment walks up the chain of frames: assigning `name` from a frame
/// that does not bind it sets the binding that its parent sees, so that
/// after the assignment the parent sees the new value.
pub proof fn law_assignment_updates_outer_binding(
    ev: EnvView,
    inner: EnvRef,
    outer: EnvRef,
    name: Seq<char>,
    v: ValueView,
)
    requires
        inner < ev.len(),
        ev.parents[inner as int] == Some(outer),
        outer < inner,
        !ev.binds(inner, name),
        ev.lookup(outer, name) is Some,
    ensures
        ev.assigned(inner, name, v) is Some,
        ev.assigned(inner, name, v).unwrap().lookup(outer, name) == Some(v),
        ev.assigned(inner, name, v).unwrap().lookup(inner, name) == Some(v),
{
    let o = ev.owner(outer, name).unwrap();
    assert(ev.owner(inner, name) == Some(o));
    lemma_owner_after_declare(ev, outer, name, o, v);
    lemma_owner_after_declare(ev, inner, name, o, v);
}

/// A frame made for a call of a closure (a new frame whose parent is the
/// captured frame) sees the captured binding as it is at call time: an
/// assignment made after the closure was created, from any frame whose
/// chain leads to the captured binding, is observed.
pub proof fn law_closure_sees_later_assignment(
    ev: EnvView,
    captured: EnvRef,
    from: EnvRef,
    name: Seq<char>,
    v: ValueView,
)
    requires
        ev.wf(),
        ev.len() < usize::MAX,
        ev.owner(from, name) == Some(captured),
    ensures
        ev.assigned(from, name, v) is Some,
        ev.assigned(from, name, v).unwrap().with_child(captured).lookup(ev.len() as EnvRef, name)
            == Some(v),
{
    crate::env::lemma_owner_binds(ev, from, name);
    let ev2 = ev.assigned(from, name, v).unwrap();
    let ev3 = ev2.with_child(captured);
    let c = ev.len() as EnvRef;
    assert(ev2 == ev.declared(captured, name, v));
    assert(captured < c);
    if ev3.binds(c, name) {
        assert(ev.vars.contains_key((c, name)));
    }
    assert(!ev3.binds(c, name));
    assert(ev3.parents[c as int] == Some(captured));
    assert(ev3.binds(captured, name));
    assert(ev3.owner(captured, name) == Some(captured));
    assert(ev3.owner(c, name) == Some(captured));
}

/// Binding a name in a new frame, as a call does for each parameter,
/// hides an outer binding of that name only within the new frame: what any
/// earlier frame sees, of that name or any other, is unchanged.
pub proof fn law_parameter_shadows_only_its_frame(
    ev: EnvView,
    parent: EnvRef,
    name: Seq<char>,
    v: ValueView,
    env: EnvRef,
    other: Seq<char>,
)
    requires
        ev.wf(),
        ev.len() < usize::MAX,
        env < ev.len(),
    ensures
        ev.with_child(parent).declared(ev.len() as EnvRef, name, v).lookup(ev.len() as EnvRef, name)
            == Some(v),
        ev.with_child(parent).declared(ev.len() as EnvRef, name, v).lookup(env, other)
            == ev.lookup(env, other),
{
    let c = ev.len() as EnvRef;
    let ev2 = ev.with_child(parent).declared(c, name, v);
    assert(ev2.binds(c, name));
    assert forall|k: (EnvRef, Seq<char>)| k.0 < ev.len() implies (#[trigger] ev2.vars.contains_key(k)
        == ev.vars.contains_key(k) && (ev.vars.contains_key(k) ==> ev2.vars[k] == ev.vars[k])) by {
        assert(k != (c, name));
    }
    lemma_lookup_below_new_frame(ev, ev2, env, other);
}

/// A frame added at the end of a well-formed arena binds nothing yet.
proof fn lemma_new_frame_binds_nothing(ev: EnvView, parent: EnvRef, name: Seq<char>)
    requires
        ev.wf(),
        ev.len() < usize::MAX,
    ensures
        !ev.with_child(parent).binds(ev.len() as EnvRef, name),
{
    if ev.vars.contains_key((ev.len() as EnvRef, name)) {
        assert((ev.len() as EnvRef) < ev.len());
    }
}

/// A program that declares `x`, then declares a function whose body
/// assigns `x = b`, then calls it, leaves `x` bound to `b` in the frame it
/// ran in: the assignment inside the call's frame walks up to the outer
/// binding.
pub proof fn law_function_assigns_outer_variable(
    fuel: nat,
    h: Heap,
    env: EnvRef,
    x: String,
    f: String,
    a: i64,
    b: i64,
    params: Rc<Vec<String>>,
    body: Rc<Vec<Stmt>>,
    args: Vec<Expr>,
)
    requires
        fuel >= 5,
        h.env.wf(),
        env < h.env.len(),
        h.env.len() < usize::MAX,
        x@ != f@,
        params@.len() == 0,
        args@.len() == 0,
        body@ == seq![Stmt::ExprStmt(Expr::Assign(x, Box::new(Expr::NumberLiteral(b))))],
    ensures
        ({
            let prog = seq![
                Stmt::Declaration(x, Expr::NumberLiteral(a)),
                Stmt::Declaration(f, Expr::Function(params, body)),
                Stmt::ExprStmt(Expr::Call(Box::new(Expr::Identifier(f)), args)),
            ];
            &&& eval_block(fuel, h, env, prog).1 == Ok::<Option<ValueView>, ErrorView>(None)
            &&& eval_block(fuel, h, env, prog).0.env.lookup(env, x@) == Some(ValueView::Number(b))
        }),
{
    let s0 = Stmt::Declaration(x, Expr::NumberLiteral(a));
    let s1 = Stmt::Declaration(f, Expr::Function(params, body));
    let call = Expr::Call(Box::new(Expr::Identifier(f)), args);
    let s2 = Stmt::ExprStmt(call);
    let prog = seq![s0, s1, s2];
    let f1 = (fuel - 1) as nat;
    let f2 = (fuel - 2) as nat;
    let f3 = (fuel - 3) as nat;
    let f4 = (fuel - 4) as nat;
    let h1 = with_env(h, h.env.declared(env, x@, ValueView::Number(a)));
    assert(eval_stmt(fuel, h, env, s0) == (h1, Ok::<Option<ValueView>, ErrorView>(None)));
    let fv = ValueView::Function(params, body, env);
    let h2 = with_env(h1, h1.env.declared(env, f@, fv));
    assert(eval_stmt(fuel, h1, env, s1) == (h2, Ok::<Option<ValueView>, ErrorView>(None)));
    assert(h2.env.binds(env, f@));
    assert(h2.env.lookup(env, f@) == Some(fv));
    assert(eval_expr(f2, h2, env, Expr::Identifier(f)) == (h2, Ok::<ValueView, ErrorView>(fv)));
    let child = h2.env.len() as EnvRef;
    let h3 = with_env(h2, h2.env.with_child(env));
    assert(eval_args(f2, h3, env, child, args@, params@) == (h3, Ok::<(), ErrorView>(())));
    lemma_new_frame_binds_nothing(h.env, env, x@);
    assert(!h3.env.binds(child, x@));
    assert(h3.env.parents[child as int] == Some(env));
    assert(h3.env.binds(env, x@));
    assert(h3.env.owner(env, x@) == Some(env));
    assert(h3.env.owner(child, x@) == Some(env));
    let h4 = with_env(h3, h3.env.declared(env, x@, ValueView::Number(b)));
    let assign = Expr::Assign(x, Box::new(Expr::NumberLiteral(b)));
    assert(eval_expr(f4, h3, child, Expr::NumberLiteral(b)) == (h3, Ok::<ValueView, ErrorView>(
        ValueView::Number(b),
    )));
    assert(eval_expr(f3, h3, child, assign) == (h4, Ok::<ValueView, ErrorView>(
        ValueView::Number(b),
    )));
    assert(eval_stmt(f2, h3, child, body@[0]) == (h4, Ok::<Option<ValueView>, ErrorView>(None)));
    assert(body@.drop_first() =~= Seq::<Stmt>::empty());
    assert(eval_block(f2, h4, child, Seq::<Stmt>::empty()) == (h4, Ok::<Option<ValueView>, ErrorView>(None)));
    assert(eval_block(f2, h3, child, body@) == (h4, Ok::<Option<ValueView>, ErrorView>(None)));
    assert(eval_expr(f1, h2, env, call) == (h4, Ok::<ValueView, ErrorView>(ValueView::Nil)));
    assert(eval_stmt(fuel, h2, env, s2) == (h4, Ok::<Option<ValueView>, ErrorView>(None)));
    assert(prog.drop_first() =~= seq![s1, s2]);
    assert(seq![s1, s2].drop_first() =~= seq![s2]);
    assert(seq![s2].drop_first() =~= Seq::<Stmt>::empty());
    assert(eval_block(fuel, h4, env, Seq::<Stmt>::empty()) == (h4, Ok::<Option<ValueView>, ErrorView>(None)));
    assert(eval_block(fuel, h2, env, seq![s2]) == (h4, Ok::<Option<ValueView>, ErrorView>(None)));
    assert(eval_block(fuel, h1, env, seq![s1, s2]) == (h4, Ok::<Option<ValueView>, ErrorView>(
        None,
    )));
    assert(eval_block(fuel, h, env, prog) == (h4, Ok::<Option<ValueView>, ErrorView>(None)));
    assert(h4.env.binds(env, x@));
}

/// Calling a closure whose body returns `y` gives the value that `y` has,
/// seen from the captured frame, at the time of the call: functions capture
/// their frame by reference, not a snapshot of its bindings.
pub proof fn law_closure_reads_captured_frame_at_call_time(
    fuel: nat,
    h: Heap,
    env: EnvRef,
    g: String,
    y: String,
    params: Rc<Vec<String>>,
    body: Rc<Vec<Stmt>>,
    captured: EnvRef,
    args: Vec<Expr>,
)
    requires
        fuel >= 4,
        h.env.wf(),
        captured < h.env.len(),
        h.env.len() < usize::MAX,
        params@.len() == 0,
        args@.len() == 0,
        body@ == seq![Stmt::Return(Expr::Identifier(y))],
        h.env.lookup(env, g@) == Some(ValueView::Function(params, body, captured)),
    ensures
        eval_expr(fuel, h, env, Expr::Call(Box::new(Expr::Identifier(g)), args)).1 == Ok::<
            ValueView,
            ErrorView,
        >(
            match h.env.lookup(captured, y@) {
                Some(v) => v,
                None => ValueView::Nil,
            },
        ),
{
    let f1 = (fuel - 1) as nat;
    let f2 = (fuel - 2) as nat;
    let fv = ValueView::Function(params, body, captured);
    assert(eval_expr(f1, h, env, Expr::Identifier(g)) == (h, Ok::<ValueView, ErrorView>(fv)));
    let child = h.env.len() as EnvRef;
    let h1 = with_env(h, h.env.with_child(captured));
    assert(eval_args(f1, h1, env, child, args@, params@) == (h1, Ok::<(), ErrorView>(())));
    lemma_new_frame_binds_nothing(h.env, captured, y@);
    assert(h1.env.parents[child as int] == Some(captured));
    assert(h1.env.owner(child, y@) == h1.env.owner(captured, y@));
    assert forall|i: int| 0 <= i < h.env.len() implies #[trigger] h1.env.parents[i]
        == h.env.parents[i] by {}
    lemma_lookup_below_new_frame(h.env, h1.env, captured, y@);
    let v = match h.env.lookup(captured, y@) {
        Some(v) => v,
        None => ValueView::Nil,
    };
    assert(eval_expr(f2, h1, child, Expr::Identifier(y)) == (h1, Ok::<ValueView, ErrorView>(v)));
    assert(eval_stmt(f1, h1, child, body@[0]) == (h1, Ok::<Option<ValueView>, ErrorView>(
        Some(v),
    )));
    assert(eval_block(f1, h1, child, body@) == (h1, Ok::<Option<ValueView>, ErrorView>(Some(v))));
}

/// A program that declares `x`, then declares a function with a parameter
/// also named `x` whose body assigns `x = c`, then calls it with argument
/// `b`, leaves the outer `x` bound to `a`: the parameter hides the outer
/// binding only within the call's frame.
pub proof fn law_parameter_leaves_outer_variable(
    fuel: nat,
    h: Heap,
    env: EnvRef,
    x: String,
    f: String,
    a: i64,
    b: i64,
    c: i64,
    params: Rc<Vec<String>>,
    body: Rc<Vec<Stmt>>,
    args: Vec<Expr>,
)
    requires
        fuel >= 5,
        h.env.wf(),
        env < h.env.len(),
        h.env.len() < usize::MAX,
        x@ != f@,
        params@ == seq![x],
        args@ == seq![Expr::NumberLiteral(b)],
        body@ == seq![Stmt::ExprStmt(Expr::Assign(x, Box::new(Expr::NumberLiteral(c))))],
    ensures
        ({
            let prog = seq![
                Stmt::Declaration(x, Expr::NumberLiteral(a)),
                Stmt::Declaration(f, Expr::Function(params, body)),
                Stmt::ExprStmt(Expr::Call(Box::new(Expr::Identifier(f)), args)),
            ];
            &&& eval_block(fuel, h, env, prog).1 == Ok::<Option<ValueView>, ErrorView>(None)
            &&& eval_block(fuel, h, env, prog).0.env.lookup(env, x@) == Some(ValueView::Number(a))
        }),
{
    let s0 = Stmt::Declaration(x, Expr::NumberLiteral(a));
    let s1 = Stmt::Declaration(f, Expr::Function(params, body));
    let call = Expr::Call(Box::new(Expr::Identifier(f)), args);
    let s2 = Stmt::ExprStmt(call);
    let prog = seq![s0, s1, s2];
    let f1 = (fuel - 1) as nat;
    let f2 = (fuel - 2) as nat;
    let f3 = (fuel - 3) as nat;
    let f4 = (fuel - 4) as nat;
    let h1 = with_env(h, h.env.declared(env, x@, ValueView::Number(a)));
    assert(eval_stmt(fuel, h, env, s0) == (h1, Ok::<Option<ValueView>, ErrorView>(None)));
    let fv = ValueView::Function(params, body, env);
    let h2 = with_env(h1, h1.env.declared(env, f@, fv));
    assert(eval_stmt(fuel, h1, env, s1) == (h2, Ok::<Option<ValueView>, ErrorView>(None)));
    assert(h2.env.binds(env, f@));
    assert(h2.env.lookup(env, f@) == Some(fv));
    assert(eval_expr(f2, h2, env, Expr::Identifier(f)) == (h2, Ok::<ValueView, ErrorView>(fv)));
    let child = h2.env.len() as EnvRef;
    let h3 = with_env(h2, h2.env.with_child(env));
    let h3b = with_env(h3, h3.env.declared(child, x@, ValueView::Number(b)));
    assert(eval_expr(f2, h3, env, Expr::NumberLiteral(b)) == (h3, Ok::<ValueView, ErrorView>(
        ValueView::Number(b),
    )));
    assert(args@.drop_first() =~= Seq::<Expr>::empty());
    assert(params@.drop_first() =~= Seq::<String>::empty());
    assert(eval_args(f2, h3b, env, child, Seq::<Expr>::empty(), Seq::<String>::empty()) == (h3b, Ok::<(), ErrorView>(())));
    assert(eval_args(f2, h3, env, child, args@, params@) == (h3b, Ok::<(), ErrorView>(())));
    assert(h3b.env.binds(child, x@));
    assert(h3b.env.owner(child, x@) == Some(child));
    let h4 = with_env(h3b, h3b.env.declared(child, x@, ValueView::Number(c)));
    let assign = Expr::Assign(x, Box::new(Expr::NumberLiteral(c)));
    assert(eval_expr(f4, h3b, child, Expr::NumberLiteral(c)) == (h3b, Ok::<ValueView, ErrorView>(
        ValueView::Number(c),
    )));
    assert(eval_expr(f3, h3b, child, assign) == (h4, Ok::<ValueView, ErrorView>(
        ValueView::Number(c),
    )));
    assert(eval_stmt(f2, h3b, child, body@[0]) == (h4, Ok::<Option<ValueView>, ErrorView>(None)));
    assert(body@.drop_first() =~= Seq::<Stmt>::empty());
    assert(eval_block(f2, h4, child, Seq::<Stmt>::empty()) == (h4, Ok::<Option<ValueView>, ErrorView>(None)));
    assert(eval_block(f2, h3b, child, body@) == (h4, Ok::<Option<ValueView>, ErrorView>(None)));
    assert(eval_expr(f1, h2, env, call) == (h4, Ok::<ValueView, ErrorView>(ValueView::Nil)));
    assert(eval_stmt(fuel, h2, env, s2) == (h4, Ok::<Option<ValueView>, ErrorView>(None)));
    assert(prog.drop_first() =~= seq![s1, s2]);
    assert(seq![s1, s2].drop_first() =~= seq![s2]);
    assert(seq![s2].drop_first() =~= Seq::<Stmt>::empty());
    assert(eval_block(fuel, h4, env, Seq::<Stmt>::empty()) == (h4, Ok::<Option<ValueView>, ErrorView>(None)));
    assert(eval_block(fuel, h2, env, seq![s2]) == (h4, Ok::<Option<ValueView>, ErrorView>(None)));
    assert(eval_block(fuel, h1, env, seq![s1, s2]) == (h4, Ok::<Option<ValueView>, ErrorView>(
        None,
    )));
    assert(eval_block(fuel, h, env, prog) == (h4, Ok::<Option<ValueView>, ErrorView>(None)));
    assert((h.env.len() as EnvRef) != env);
    assert(h4.env.binds(env, x@));
    assert(h4.env.vars[(env, x@)] == ValueView::Number(a));
}

/// `Nil` and `false` are the only falsey values. `if` runs its `then`
/// block exactly for truthy conditions, and `!` gives `true` exactly for
/// falsey operands.
pub proof fn law_truthiness(fuel: nat, h: Heap, env: EnvRef, c: Expr, t: Vec<Stmt>, e: Vec<Stmt>)
    requires
        fuel > 0,
    ensures
        forall|v: ValueView| !truthy(v) <==> (v == ValueView::Nil || v == ValueView::Boolean(false)),
        eval_expr((fuel - 1) as nat, h, env, c).1 matches Ok(v) ==> eval_stmt(
            fuel,
            h,
            env,
            Stmt::If(c, t, e),
        ) == eval_block(
            (fuel - 1) as nat,
            eval_expr((fuel - 1) as nat, h, env, c).0,
            env,
            if truthy(v) {
                t@
            } else {
                e@
            },
        ),
        eval_expr((fuel - 1) as nat, h, env, c).1 matches Ok(v) ==> eval_expr(
            fuel,
            h,
            env,
            Expr::UnaryOp(UnaryOp::Not, Box::new(c)),
        ) == (eval_expr((fuel - 1) as nat, h, env, c).0, Ok::<ValueView, ErrorView>(
            ValueView::Boolean(!truthy(v)),
        )),
{
}

/// A `while` loop runs its body exactly when its condition is truthy: on
/// a falsey condition it ends at once, as the condition left the state; on
/// a truthy one it runs the body, then goes round again unless the body
/// returned or failed.
pub proof fn law_while_runs_body_exactly_when_truthy(
    fuel: nat,
    h: Heap,
    env: EnvRef,
    c: Expr,
    body: Vec<Stmt>,
)
    requires
        fuel >= 2,
    ensures
        eval_expr((fuel - 2) as nat, h, env, c).1 matches Ok(v) ==> eval_stmt(
            fuel,
            h,
            env,
            Stmt::While(c, body),
        ) == if truthy(v) {
            match eval_block((fuel - 2) as nat, eval_expr((fuel - 2) as nat, h, env, c).0, env, body@) {
                (h2, Ok(None)) => eval_while((fuel - 2) as nat, h2, env, c, body@),
                other => other,
            }
        } else {
            (eval_expr((fuel - 2) as nat, h, env, c).0, Ok::<Option<ValueView>, ErrorView>(None))
        },
{
}

/// `And` and `Or` yield the value of the operand that decides them, which
/// need not be a boolean. When the left operand decides, the right one is
/// not evaluated: the state is exactly as the left operand left it.
pub proof fn law_short_circuit(fuel: nat, h: Heap, env: EnvRef, op: BinaryOp, l: Expr, r: Expr)
    requires
        fuel > 0,
        op == BinaryOp::And || op == BinaryOp::Or,
    ensures
        eval_expr((fuel - 1) as nat, h, env, l).1 matches Ok(lv) ==> eval_expr(
            fuel,
            h,
            env,
            Expr::BinaryOp(op, Box::new(l), Box::new(r)),
        ) == if (op == BinaryOp::And && !truthy(lv)) || (op == BinaryOp::Or && truthy(lv)) {
            (eval_expr((fuel - 1) as nat, h, env, l).0, Ok::<ValueView, ErrorView>(lv))
        } else {
            eval_expr((fuel - 1) as nat, eval_expr((fuel - 1) as nat, h, env, l).0, env, r)
        },
        eval_expr((fuel - 1) as nat, h, env, l).1 is Err ==> eval_expr(
            fuel,
            h,
            env,
            Expr::BinaryOp(op, Box::new(l), Box::new(r)),
        ) == eval_expr((fuel - 1) as nat, h, env, l),
{
}

/// Numbers add (within the range of `i64`), strings concatenate, numbers
/// are equal when they are the same number, and a function value is equal
/// to no value, not even to an identical function.
pub proof fn law_arithmetic_and_equality(
    a: i64,
    b: i64,
    x: Seq<char>,
    y: Seq<char>,
    f: ValueView,
    g: ValueView,
)
    requires
        f is Function,
    ensures
        i64::MIN <= a + b <= i64::MAX ==> binary_result(
            BinaryOp::Add,
            ValueView::Number(a),
            ValueView::Number(b),
        ) == Ok::<ValueView, ErrorView>(ValueView::Number((a + b) as i64)),
        binary_result(BinaryOp::Add, ValueView::Str(x), ValueView::Str(y)) == Ok::<
            ValueView,
            ErrorView,
        >(ValueView::Str(x + y)),
        binary_result(BinaryOp::Equals, ValueView::Number(a), ValueView::Number(b)) == Ok::<
            ValueView,
            ErrorView,
        >(ValueView::Boolean(a == b)),
        binary_result(BinaryOp::Equals, f, g) == Ok::<ValueView, ErrorView>(
            ValueView::Boolean(false),
        ),
        binary_result(BinaryOp::Equals, g, f) == Ok::<ValueView, ErrorView>(
            ValueView::Boolean(false),
        ),
        binary_result(BinaryOp::NotEquals, f, g) == Ok::<ValueView, ErrorView>(
            ValueView::Boolean(true),
        ),
{
}

/// Two function literals compared with `==` are unequal, even with the same
/// parameters and body; evaluating them changes nothing.
pub proof fn law_function_literals_never_equal(
    fuel: nat,
    h: Heap,
    env: EnvRef,
    p: Rc<Vec<String>>,
    body: Rc<Vec<Stmt>>,
)
    requires
        fuel >= 2,
    ensures
        eval_expr(
            fuel,
            h,
            env,
            Expr::BinaryOp(
                BinaryOp::Equals,
                Box::new(Expr::Function(p, body)),
                Box::new(Expr::Function(p, body)),
            ),
        ) == (h, Ok::<ValueView, ErrorView>(ValueView::Boolean(false))),
{
    let f = (fuel - 1) as nat;
    assert(eval_expr(f, h, env, Expr::Function(p, body)) == (h, Ok::<ValueView, ErrorView>(
        ValueView::Function(p, body, env),
    )));
}

/// Calling a two-parameter function whose body returns the sum of its
/// parameters, with exactly two number arguments, gives their sum (within
/// the range of `i64`): `fn adder(x, y) { return x + y; } adder(1, 2)` is 3.
pub proof fn law_two_parameter_call_succeeds(
    fuel: nat,
    h: Heap,
    env: EnvRef,
    adder: String,
    x: String,
    y: String,
    params: Rc<Vec<String>>,
    body: Rc<Vec<Stmt>>,
    captured: EnvRef,
    args: Vec<Expr>,
    a: i64,
    b: i64,
)
    requires
        fuel >= 5,
        h.env.wf(),
        h.env.len() < usize::MAX,
        x@ != y@,
        i64::MIN <= a + b <= i64::MAX,
        params@ == seq![x, y],
        args@ == seq![Expr::NumberLiteral(a), Expr::NumberLiteral(b)],
        body@ == seq![
            Stmt::Return(
                Expr::BinaryOp(
                    BinaryOp::Add,
                    Box::new(Expr::Identifier(x)),
                    Box::new(Expr::Identifier(y)),
                ),
            ),
        ],
        h.env.lookup(env, adder@) == Some(ValueView::Function(params, body, captured)),
    ensures
        eval_expr(fuel, h, env, Expr::Call(Box::new(Expr::Identifier(adder)), args)).1 == Ok::<
            ValueView,
            ErrorView,
        >(ValueView::Number((a + b) as i64)),
{
    let f1 = (fuel - 1) as nat;
    let f2 = (fuel - 2) as nat;
    let f3 = (fuel - 3) as nat;
    let fv = ValueView::Function(params, body, captured);
    assert(eval_expr(f1, h, env, Expr::Identifier(adder)) == (h, Ok::<ValueView, ErrorView>(fv)));
    let child = h.env.len() as EnvRef;
    let h1 = with_env(h, h.env.with_child(captured));
    let h2 = with_env(h1, h1.env.declared(child, x@, ValueView::Number(a)));
    let h3 = with_env(h2, h2.env.declared(child, y@, ValueView::Number(b)));
    assert(eval_expr(f1, h1, env, Expr::NumberLiteral(a)) == (h1, Ok::<ValueView, ErrorView>(
        ValueView::Number(a),
    )));
    assert(eval_expr(f1, h2, env, Expr::NumberLiteral(b)) == (h2, Ok::<ValueView, ErrorView>(
        ValueView::Number(b),
    )));
    assert(args@.drop_first() =~= seq![Expr::NumberLiteral(b)]);
    assert(params@.drop_first() =~= seq![y]);
    assert(args@.drop_first().drop_first() =~= Seq::<Expr>::empty());
    assert(params@.drop_first().drop_first() =~= Seq::<String>::empty());
    assert(eval_args(f1, h3, env, child, Seq::<Expr>::empty(), Seq::<String>::empty()) == (
        h3,
        Ok::<(), ErrorView>(()),
    ));
    assert(eval_args(f1, h2, env, child, seq![Expr::NumberLiteral(b)], seq![y]) == (
        h3,
        Ok::<(), ErrorView>(()),
    ));
    assert(eval_args(f1, h1, env, child, args@, params@) == (h3, Ok::<(), ErrorView>(())));
    assert(h3.env.binds(child, x@));
    assert(h3.env.binds(child, y@));
    assert(h3.env.lookup(child, x@) == Some(ValueView::Number(a)));
    assert(h3.env.lookup(child, y@) == Some(ValueView::Number(b)));
    assert(eval_expr(f3, h3, child, Expr::Identifier(x)) == (h3, Ok::<ValueView, ErrorView>(
        ValueView::Number(a),
    )));
    assert(eval_expr(f3, h3, child, Expr::Identifier(y)) == (h3, Ok::<ValueView, ErrorView>(
        ValueView::Number(b),
    )));
    let sum = ValueView::Number((a + b) as i64);
    let e = Expr::BinaryOp(BinaryOp::Add, Box::new(Expr::Identifier(x)), Box::new(Expr::Identifier(y)));
    assert(eval_expr(f2, h3, child, e) == (h3, Ok::<ValueView, ErrorView>(sum)));
    assert(eval_stmt(f1, h3, child, body@[0]) == (h3, Ok::<Option<ValueView>, ErrorView>(Some(sum))));
    assert(eval_block(f1, h3, child, body@) == (h3, Ok::<Option<ValueView>, ErrorView>(Some(sum))));
}

/// A call whose argument count differs from the callee's parameter count
/// fails with an arity error that gives both counts, once the callee has
/// been evaluated, and before any argument is.
pub proof fn law_arity_mismatch_fails(fuel: nat, h: Heap, env: EnvRef, callee: Expr, args: Vec<Expr>)
    requires
        fuel > 0,
        eval_expr((fuel - 1) as nat, h, env, callee).1 matches Ok(ValueView::Function(ps, _, _))
            && ps@.len() != args@.len(),
    ensures
        eval_expr((fuel - 1) as nat, h, env, callee).1 matches Ok(ValueView::Function(ps, _, _))
            && eval_expr(fuel, h, env, Expr::Call(Box::new(callee), args)) == (
            eval_expr((fuel - 1) as nat, h, env, callee).0,
            Err::<ValueView, ErrorView>(
                ErrorView::ArgumentCount {
                    expected: ps@.len() as usize,
                    found: args@.len() as usize,
                },
            ),
        ),
{
}

} // verus!
