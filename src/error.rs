//! Errors that evaluation can end with.
use crate::ast::BinaryOp;
use crate::value::{int_text, render, Value, ValueView};
use vstd::prelude::*;

verus! {

/// Why an evaluation failed. The first failure ends the evaluation of the
/// whole tree being walked.
#[derive(Debug)]
pub enum EvalError {
    /// Assignment to a name that no frame of the chain binds.
    UndefinedVariable(String),
    /// A call whose argument count differs from the parameter count.
    ArgumentCount { expected: usize, found: usize },
    /// A call of a value that is neither a function nor a native function.
    NotCallable(Value),
    /// Unary minus on a value that is not a number.
    CannotNegate(Value),
    /// An arithmetic or ordering operator on operands of the wrong kinds.
    InvalidOperands(BinaryOp, Value, Value),
    /// An integer result outside the range of `i64`.
    NumberOverflow,
    /// Division by zero.
    DivisionByZero,
    /// The evaluation needed more nesting or loop rounds than it was given.
    StepLimit,
}

/// What an [`EvalError`] says, with values taken by their views.
pub enum ErrorView {
    UndefinedVariable(Seq<char>),
    ArgumentCount { expected: usize, found: usize },
    NotCallable(ValueView),
    CannotNegate(ValueView),
    InvalidOperands(BinaryOp, ValueView, ValueView),
    NumberOverflow,
    DivisionByZero,
    StepLimit,
}

impl View for EvalError {
    type V = ErrorView;

    open spec fn view(&self) -> ErrorView {
        match self {
            EvalError::UndefinedVariable(n) => ErrorView::UndefinedVariable(n@),
            EvalError::ArgumentCount { expected, found } => ErrorView::ArgumentCount {
                expected: *expected,
                found: *found,
            },
            EvalError::NotCallable(v) => ErrorView::NotCallable(v@),
            EvalError::CannotNegate(v) => ErrorView::CannotNegate(v@),
            EvalError::InvalidOperands(op, l, r) => ErrorView::InvalidOperands(*op, l@, r@),
            EvalError::NumberOverflow => ErrorView::NumberOverflow,
            EvalError::DivisionByZero => ErrorView::DivisionByZero,
            EvalError::StepLimit => ErrorView::StepLimit,
        }
    }
}

/// How an operator is named in the message for operands of the wrong kinds.
pub open spec fn operation_name(op: BinaryOp) -> Seq<char> {
    match op {
        BinaryOp::Add => "added"@,
        BinaryOp::Subtract => "subtracted"@,
        BinaryOp::Multiply => "multiplied"@,
        BinaryOp::Divide => "divided"@,
        _ => "compared"@,
    }
}

/// The message that an error is reported with.
pub open spec fn error_text(e: ErrorView) -> Seq<char> {
    match e {
        ErrorView::UndefinedVariable(n) => "Variable "@ + n + " has not been defined"@,
        ErrorView::ArgumentCount { expected, found } => "Expected "@ + int_text(expected as int)
            + " arguments, found "@ + int_text(found as int),
        ErrorView::NotCallable(v) => render(v) + " is not a callable object"@,
        ErrorView::CannotNegate(v) => render(v) + " cannot be negated"@,
        ErrorView::InvalidOperands(op, l, r) => render(l) + " and "@ + render(r) + " cannot be "@
            + operation_name(op),
        ErrorView::NumberOverflow => "number out of range"@,
        ErrorView::DivisionByZero => "division by zero"@,
        ErrorView::StepLimit => "evaluation step limit reached"@,
    }
}

/// Relies on `<usize as Display>` (through `to_string`): a count is
/// written in decimal.
#[verifier::external_body]
fn count_text(n: usize) -> (r: String)
    ensures
        r@ == int_text(n as int),
{
    n.to_string()
}

fn operation_text(op: BinaryOp) -> (r: &'static str)
    ensures
        r@ == operation_name(op),
{
    match op {
        BinaryOp::Add => "added",
        BinaryOp::Subtract => "subtracted",
        BinaryOp::Multiply => "multiplied",
        BinaryOp::Divide => "divided",
        _ => "compared",
    }
}

impl EvalError {
    /// The message that the error is reported with.
    pub fn message(&self) -> (r: String)
        ensures
            r@ == error_text(self@),
    {
        match self {
            EvalError::UndefinedVariable(n) => {
                let mut s = String::from_str("Variable ");
                s.append(n.as_str());
                s.append(" has not been defined");
                s
            },
            EvalError::ArgumentCount { expected, found } => {
                let mut s = String::from_str("Expected ");
                s.append(count_text(*expected).as_str());
                s.append(" arguments, found ");
                s.append(count_text(*found).as_str());
                s
            },
            EvalError::NotCallable(v) => {
                let mut s = v.render();
                s.append(" is not a callable object");
                s
            },
            EvalError::CannotNegate(v) => {
                let mut s = v.render();
                s.append(" cannot be negated");
                s
            },
            EvalError::InvalidOperands(op, l, r) => {
                let mut s = l.render();
                s.append(" and ");
                s.append(r.render().as_str());
                s.append(" cannot be ");
                s.append(operation_text(*op));
                s
            },
            EvalError::NumberOverflow => String::from_str("number out of range"),
            EvalError::DivisionByZero => String::from_str("division by zero"),
            EvalError::StepLimit => String::from_str("evaluation step limit reached"),
        }
    }
}

/// The view of an evaluation result.
pub open spec fn result_view(r: Result<Value, EvalError>) -> Result<ValueView, ErrorView> {
    match r {
        Ok(v) => Ok(v@),
        Err(e) => Err(e@),
    }
}

} // verus!
