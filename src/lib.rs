//! Syntax trees of a small expression language and their canonical,
//! fully parenthesised rendering back to source text.
pub mod ast;
pub mod decimal;
pub mod token;

pub use ast::{Expr, Program, Stmt};
pub use token::Token;
