//! Runtime values: truthiness, equality, display and the operators.
use crate::ast::{BinaryOp, Stmt, UnaryOp};
use crate::env::EnvRef;
use crate::error::{result_view, ErrorView, EvalError};
use std::rc::Rc;
use vstd::prelude::*;

verus! {

/// The built-in callables.
#[derive(Clone, Copy, Debug, PartialEq, Eq, Structural)]
pub enum NativeFn {
    /// Evaluates its arguments left to right and writes their display forms,
    /// separated by single spaces, then a newline.
    Print,
}

/// A runtime value.
#[derive(Debug)]
pub enum Value {
    Nil,
    Boolean(bool),
    Number(i64),
    String(String),
    /// Parameters, body, and the frame that was current where the function
    /// literal was evaluated.
    Function(Rc<Vec<String>>, Rc<Vec<Stmt>>, EnvRef),
    NativeFunction(NativeFn),
}

/// The mathematical content of a [`Value`].
pub enum ValueView {
    Nil,
    Boolean(bool),
    Number(i64),
    Str(Seq<char>),
    Function(Rc<Vec<String>>, Rc<Vec<Stmt>>, EnvRef),
    NativeFunction(NativeFn),
}

impl View for Value {
    type V = ValueView;

    open spec fn view(&self) -> ValueView {
        match self {
            Value::Nil => ValueView::Nil,
            Value::Boolean(b) => ValueView::Boolean(*b),
            Value::Number(n) => ValueView::Number(*n),
            Value::String(s) => ValueView::Str(s@),
            Value::Function(p, b, e) => ValueView::Function(*p, *b, *e),
            Value::NativeFunction(f) => ValueView::NativeFunction(*f),
        }
    }
}

/// `Nil` and `false` are falsey; every other value is truthy.
pub open spec fn truthy(v: ValueView) -> bool {
    match v {
        ValueView::Nil => false,
        ValueView::Boolean(b) => b,
        _ => true,
    }
}

/// Structural equality of `Nil`, booleans, numbers and strings. A function
/// value equals nothing, not even itself.
pub open spec fn values_equal(a: ValueView, b: ValueView) -> bool {
    match (a, b) {
        (ValueView::Nil, ValueView::Nil) => true,
        (ValueView::Boolean(x), ValueView::Boolean(y)) => x == y,
        (ValueView::Number(x), ValueView::Number(y)) => x == y,
        (ValueView::Str(x), ValueView::Str(y)) => x == y,
        _ => false,
    }
}

pub open spec fn digit(d: nat) -> char {
    seq!['0', '1', '2', '3', '4', '5', '6', '7', '8', '9'][d as int]
}

/// The decimal digits of `n`, most significant first, without leading zeros.
pub open spec fn decimal(n: nat) -> Seq<char>
    decreases n,
{
    if n < 10 {
        seq![digit(n)]
    } else {
        decimal(n / 10).push(digit(n % 10))
    }
}

/// An integer in decimal, with a leading `-` when it is negative.
pub open spec fn int_text(i: int) -> Seq<char> {
    if i < 0 {
        seq!['-'] + decimal((-i) as nat)
    } else {
        decimal(i as nat)
    }
}

/// The display form of a value, used by `print` and in error messages.
pub open spec fn render(v: ValueView) -> Seq<char> {
    match v {
        ValueView::Nil => "nil"@,
        ValueView::Boolean(b) => if b { "true"@ } else { "false"@ },
        ValueView::Number(n) => int_text(n as int),
        ValueView::Str(s) => s,
        ValueView::Function(_, _, _) => "<fn>"@,
        ValueView::NativeFunction(_) => "<native fn>"@,
    }
}

/// Relies on `<i64 as Display>` (through `to_string`): an integer is
/// written in decimal, with a leading `-` when negative.
#[verifier::external_body]
fn integer_text(n: i64) -> (r: String)
    ensures
        r@ == int_text(n as int),
{
    n.to_string()
}

impl Value {
    pub fn is_truthy(&self) -> (r: bool)
        ensures
            r == truthy(self@),
    {
        match self {
            Value::Nil => false,
            Value::Boolean(b) => *b,
            _ => true,
        }
    }

    pub fn is_falsey(&self) -> (r: bool)
        ensures
            r == !truthy(self@),
    {
        !self.is_truthy()
    }

    /// An independent copy; strings are copied, function parts are shared.
    pub fn copy(&self) -> (r: Value)
        ensures
            r == *self,
    {
        match self {
            Value::Nil => Value::Nil,
            Value::Boolean(b) => Value::Boolean(*b),
            Value::Number(n) => Value::Number(*n),
            Value::String(s) => Value::String(s.clone()),
            Value::Function(p, b, e) => Value::Function(p.clone(), b.clone(), *e),
            Value::NativeFunction(f) => Value::NativeFunction(*f),
        }
    }

    /// The `==` of the language.
    pub fn equals(&self, other: &Value) -> (r: bool)
        ensures
            r == values_equal(self@, other@),
    {
        match (self, other) {
            (Value::Nil, Value::Nil) => true,
            (Value::Boolean(x), Value::Boolean(y)) => *x == *y,
            (Value::Number(x), Value::Number(y)) => *x == *y,
            (Value::String(x), Value::String(y)) => x.eq(y),
            _ => false,
        }
    }

    /// The display form.
    pub fn render(&self) -> (r: String)
        ensures
            r@ == render(self@),
    {
        match self {
            Value::Nil => String::from_str("nil"),
            Value::Boolean(b) => if *b {
                String::from_str("true")
            } else {
                String::from_str("false")
            },
            Value::Number(n) => integer_text(*n),
            Value::String(s) => s.clone(),
            Value::Function(_, _, _) => String::from_str("<fn>"),
            Value::NativeFunction(_) => String::from_str("<native fn>"),
        }
    }
}

/// `And` and `Or`, the operators that may leave their right operand unevaluated.
pub open spec fn is_logic(op: BinaryOp) -> bool {
    op == BinaryOp::And || op == BinaryOp::Or
}

/// A number as a value, or `NumberOverflow` when there is none.
pub open spec fn number_or_overflow(n: Option<i64>) -> Result<ValueView, ErrorView> {
    match n {
        Some(k) => Ok(ValueView::Number(k)),
        None => Err(ErrorView::NumberOverflow),
    }
}

/// The result of a unary operator on a value.
pub open spec fn unary_result(op: UnaryOp, v: ValueView) -> Result<ValueView, ErrorView> {
    match op {
        UnaryOp::Not => Ok(ValueView::Boolean(!truthy(v))),
        UnaryOp::UnaryMinus => match v {
            ValueView::Number(n) => number_or_overflow(0i64.checked_sub(n)),
            _ => Err(ErrorView::CannotNegate(v)),
        },
    }
}

/// The result of an arithmetic or ordering operator on two numbers.
/// Division truncates toward zero.
pub open spec fn number_result(op: BinaryOp, a: i64, b: i64) -> Result<ValueView, ErrorView> {
    match op {
        BinaryOp::Add => number_or_overflow(a.checked_add(b)),
        BinaryOp::Subtract => number_or_overflow(a.checked_sub(b)),
        BinaryOp::Multiply => number_or_overflow(a.checked_mul(b)),
        BinaryOp::Divide => if b == 0 {
            Err(ErrorView::DivisionByZero)
        } else {
            number_or_overflow(a.checked_div(b))
        },
        BinaryOp::GreaterThan => Ok(ValueView::Boolean(a > b)),
        BinaryOp::GreaterEquals => Ok(ValueView::Boolean(a >= b)),
        BinaryOp::LessThan => Ok(ValueView::Boolean(a < b)),
        _ => Ok(ValueView::Boolean(a <= b)),
    }
}

/// The result of a binary operator other than `And` and `Or` on the values
/// of its two operands.
pub open spec fn binary_result(op: BinaryOp, l: ValueView, r: ValueView) -> Result<
    ValueView,
    ErrorView,
> {
    match op {
        BinaryOp::Equals => Ok(ValueView::Boolean(values_equal(l, r))),
        BinaryOp::NotEquals => Ok(ValueView::Boolean(!values_equal(l, r))),
        _ => match (l, r) {
            (ValueView::Number(a), ValueView::Number(b)) => number_result(op, a, b),
            (ValueView::Str(x), ValueView::Str(y)) => if op == BinaryOp::Add {
                Ok(ValueView::Str(x + y))
            } else {
                Err(ErrorView::InvalidOperands(op, l, r))
            },
            _ => Err(ErrorView::InvalidOperands(op, l, r)),
        },
    }
}

fn number_value(n: Option<i64>) -> (r: Result<Value, EvalError>)
    ensures
        result_view(r) == number_or_overflow(n),
{
    match n {
        Some(k) => Ok(Value::Number(k)),
        None => Err(EvalError::NumberOverflow),
    }
}

/// Applies a unary operator to a value.
pub fn apply_unary(op: UnaryOp, v: Value) -> (r: Result<Value, EvalError>)
    ensures
        result_view(r) == unary_result(op, v@),
{
    match op {
        UnaryOp::Not => Ok(Value::Boolean(!v.is_truthy())),
        UnaryOp::UnaryMinus => match v {
            Value::Number(n) => number_value(0i64.checked_sub(n)),
            other => Err(EvalError::CannotNegate(other)),
        },
    }
}

fn apply_numbers(op: BinaryOp, a: i64, b: i64) -> (r: Result<Value, EvalError>)
    ensures
        result_view(r) == number_result(op, a, b),
{
    match op {
        BinaryOp::Add => number_value(a.checked_add(b)),
        BinaryOp::Subtract => number_value(a.checked_sub(b)),
        BinaryOp::Multiply => number_value(a.checked_mul(b)),
        BinaryOp::Divide => if b == 0 {
            Err(EvalError::DivisionByZero)
        } else {
            number_value(a.checked_div(b))
        },
        BinaryOp::GreaterThan => Ok(Value::Boolean(a > b)),
        BinaryOp::GreaterEquals => Ok(Value::Boolean(a >= b)),
        BinaryOp::LessThan => Ok(Value::Boolean(a < b)),
        _ => Ok(Value::Boolean(a <= b)),
    }
}

/// Applies a binary operator other than `And` and `Or` to the values of its
/// operands.
pub fn apply_binary(op: BinaryOp, l: Value, r: Value) -> (res: Result<Value, EvalError>)
    ensures
        result_view(res) == binary_result(op, l@, r@),
{
    match op {
        BinaryOp::Equals => Ok(Value::Boolean(l.equals(&r))),
        BinaryOp::NotEquals => Ok(Value::Boolean(!l.equals(&r))),
        _ => match (l, r) {
            (Value::Number(a), Value::Number(b)) => apply_numbers(op, a, b),
            (Value::String(x), Value::String(y)) => if op == BinaryOp::Add {
                let mut s = x;
                s.append(y.as_str());
                Ok(Value::String(s))
            } else {
                Err(EvalError::InvalidOperands(op, Value::String(x), Value::String(y)))
            },
            (l, r) => Err(EvalError::InvalidOperands(op, l, r)),
        },
    }
}

} // verus!
