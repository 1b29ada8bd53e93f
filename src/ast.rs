//! The syntax tree that the evaluator walks.
//!
//! Trees are built by a front end (or by hand) and are never changed by
//! evaluation. Function bodies and parameter lists sit behind `Rc`, so a
//! closure value shares them with the literal it was made from: they are
//! immutable, so sharing them is indistinguishable from copying them.
use std::rc::Rc;
use vstd::prelude::*;

verus! {

/// Operators with two operands.
#[derive(Clone, Copy, Debug, PartialEq, Eq, Structural)]
pub enum BinaryOp {
    And,
    Or,
    Equals,
    NotEquals,
    GreaterThan,
    GreaterEquals,
    LessThan,
    LessEquals,
    Add,
    Subtract,
    Multiply,
    Divide,
}

/// Operators with one operand.
#[derive(Clone, Copy, Debug, PartialEq, Eq, Structural)]
pub enum UnaryOp {
    Not,
    UnaryMinus,
}

/// An expression. Numbers are 64-bit signed integers.
#[derive(Debug)]
pub enum Expr {
    Nil,
    Identifier(String),
    NumberLiteral(i64),
    StringLiteral(String),
    BooleanLiteral(bool),
    Assign(String, Box<Expr>),
    Function(Rc<Vec<String>>, Rc<Vec<Stmt>>),
    Call(Box<Expr>, Vec<Expr>),
    UnaryOp(UnaryOp, Box<Expr>),
    BinaryOp(BinaryOp, Box<Expr>, Box<Expr>),
}

/// A statement. A block is a `Vec<Stmt>`.
#[derive(Debug)]
pub enum Stmt {
    Return(Expr),
    ExprStmt(Expr),
    Declaration(String, Expr),
    If(Expr, Vec<Stmt>, Vec<Stmt>),
    While(Expr, Vec<Stmt>),
}

} // verus!
