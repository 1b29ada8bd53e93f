//! A tree-walking evaluator for a small dynamically typed scripting language.
//!
//! A program is a tree of [`Stmt`] and [`Expr`]; a [`Context`] runs it over an
//! arena of scope frames ([`Env`]), where function values capture the frame
//! they were created in. Numbers are 64-bit signed integers, and `print`
//! writes to a text buffer held by the context.
//!
//! What evaluation does is stated by the spec functions of [`semantics`];
//! each entry point of [`Context`] is verified to agree with them, and
//! [`laws`] proves properties of scoping and evaluation from them.
pub mod ast;
pub mod env;
pub mod error;
pub mod interp;
pub mod laws;
pub mod lexical;
pub mod semantics;
pub mod value;

pub use crate::ast::{BinaryOp, Expr, Stmt, UnaryOp};
pub use crate::env::{Env, EnvRef};
pub use crate::error::EvalError;
pub use crate::interp::Context;
pub use crate::lexical::{is_id_continue, is_id_start};
pub use crate::value::{NativeFn, Value};
