//! # Relix
//!
//! A Pratt parser library for a custom language with first-class support for
//! expressions, statements, and type annotations.
//!
//! The library is organised into three layers:
//!
//! | Layer   | Module               | Purpose                               |
//! |---------|----------------------|---------------------------------------|
//! | Lexer   | [`lexer`]            | Regex-based tokenization              |
//! | AST     | [`ast`]              | Expression, statement, and type nodes |
//! | Parser  | [`parser`]           | Pratt-parser driver and handlers      |

pub mod ast;
pub mod error;
pub mod lexer;
pub mod parser;

pub use error::RelixError;
pub use parser::expr as exprs;
pub use parser::lookups;
pub use parser::stmt as stmts;
pub use parser::types;
