//! Parsing infrastructure for the Relix language.
//!
//! This module implements a Pratt parser (top-down operator precedence) that
//! consumes tokens from the [`lexer`](crate::lexer) module and produces an
//! abstract syntax tree defined in the [`ast`](crate::ast) module.
//!
//! # Entry point
//!
//! The main entry point is the [`parse`] function, which accepts a source
//! string and returns a [`BlockStmt`](crate::ast::BlockStmt) representing the
//! entire program.
//!
//! # Architecture
//!
//! - [`Parser`] — the parser state and its token cursor
//! - [`expr`] — expression parsing (Pratt driver, binary ops, calls, etc.)
//! - [`stmt`] — statement parsing (declarations, control flow, etc.)
//! - [`types`] — type annotation parsing
//! - [`lookups`] — binding powers and handler registration
//! - [`grammar`] — the outcome of every parsing routine, as spec functions

pub mod expr;
pub mod grammar;
pub mod lookups;
#[allow(clippy::module_inception)]
mod parser;
pub mod stmt;
pub mod types;

pub(crate) use parser::kind_error;
pub use parser::{law_parse_reads_whole_program, outcome_of, parse, spec_parse, Parser};
