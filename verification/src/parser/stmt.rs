//! Statement parsing for the Relix language.
//!
//! This module implements handlers for all statement forms: variable
//! declarations, function declarations, control flow (`if`, `foreach`),
//! imports, class declarations, and block statements.
//!
//! The main entry point is [`parse_stmt`], which dispatches to the appropriate
//! handler based on the current token kind using the statement handler table
//! from [`Lookups`].

use crate::ast::{
    stmts_model, BlockStmt, ClassDeclarationStmt, ExpressionStmt, ForeachStmt,
    FunctionDeclarationStmt, IfStmt, ImportStmt, ReturnStmt, Stmt, StmtModel, VarDeclarationStmt,
};
use crate::error::RelixError;
use crate::exprs::{parse_expr, parse_fn_params_and_body};
use crate::lexer::TokenKind;
use crate::lookups::{BindingPower, Lookups, StmtHandler};
use crate::parser::grammar::{
    block_at, block_items_at, class_at, expression_stmt_at, fn_decl_at, foreach_at, if_at,
    import_at, return_at, stmt_at, stmt_handler_at, var_decl_at,
};
use crate::parser::{outcome_of, Parser};
use crate::types::parse_type;
use vstd::prelude::*;

verus! {

/// Statement dispatcher.
///
/// Examines the current token kind and dispatches to the appropriate statement
/// handler from the `lu.stmt` table. If no handler is registered for the
/// current token, falls back to [`parse_expression_stmt`].
///
/// Requires a parser whose token stream ends with the end-of-file token,
/// as [`tokenize`](crate::lexer::tokenize) produces it, with the cursor on
/// one of its tokens, and tables that treat the end-of-file token safely,
/// as the standard tables do.
pub fn parse_stmt(p: &mut Parser, lu: &Lookups) -> (r: Result<Stmt, RelixError>)
    requires
        old(p).ready(lu),
    ensures
        old(p).steps_to(final(p)),
        r is Ok ==> old(p).pos < final(p).pos,
        stmt_at(old(p).token_stream(), lu@, old(p).pos as int) == outcome_of(r, final(p).pos),
    decreases old(p).tokens@.len() - old(p).pos, 6int,
{
    match lu.stmt_handler(p.current_token_kind()) {
        Some(h) => run_stmt(h, p, lu),
        None => parse_expression_stmt(p, lu),
    }
}

/// Runs the statement handler `h`.
fn run_stmt(h: StmtHandler, p: &mut Parser, lu: &Lookups) -> (r: Result<Stmt, RelixError>)
    requires
        old(p).ready(lu),
        h != StmtHandler::Block ==> old(p).on_token(),
    ensures
        old(p).steps_to(final(p)),
        r is Ok ==> old(p).pos < final(p).pos,
        stmt_handler_at(h, old(p).token_stream(), lu@, old(p).pos as int) == outcome_of(
            r,
            final(p).pos,
        ),
    decreases old(p).tokens@.len() - old(p).pos, 5int,
{
    match h {
        StmtHandler::Block => parse_block_stmt(p, lu),
        StmtHandler::VarDecl => parse_var_decl_stmt(p, lu),
        StmtHandler::FunctionDecl => parse_fn_declaration(p, lu),
        StmtHandler::If => parse_if_stmt(p, lu),
        StmtHandler::Import => parse_import_stmt(p, lu),
        StmtHandler::Foreach => parse_foreach_stmt(p, lu),
        StmtHandler::ClassDecl => parse_class_declaration_stmt(p, lu),
        StmtHandler::Return => parse_return_stmt(p, lu),
    }
}

/// Parses a `return` statement.
///
/// # Syntax
///
/// ```text
/// return a + b;
/// return;
/// ```
///
/// Requires a parser whose token stream ends with the end-of-file token,
/// as [`tokenize`](crate::lexer::tokenize) produces it, with the cursor on
/// one of its tokens, and tables that treat the end-of-file token safely,
/// as the standard tables do.
/// The cursor must not be on the end-of-file token.
pub fn parse_return_stmt(p: &mut Parser, lu: &Lookups) -> (r: Result<Stmt, RelixError>)
    requires
        old(p).ready(lu),
        old(p).on_token(),
    ensures
        old(p).steps_to(final(p)),
        r is Ok ==> old(p).pos < final(p).pos,
        return_at(old(p).token_stream(), lu@, old(p).pos as int) == outcome_of(r, final(p).pos),
    decreases old(p).tokens@.len() - old(p).pos, 4int,
{
    p.advance();
    if p.current_token_kind() == TokenKind::SemiColon {
        p.advance();
        return Ok(Stmt::Return(ReturnStmt { value: None }));
    }
    let value = match parse_expr(p, lu, BindingPower::Default) {
        Ok(e) => e,
        Err(e) => {
            return Err(e);
        },
    };
    match p.expect(TokenKind::SemiColon) {
        Ok(_) => {},
        Err(e) => {
            return Err(e);
        },
    }
    Ok(Stmt::Return(ReturnStmt { value: Some(value) }))
}

/// Parses an expression statement.
///
/// An expression statement is an expression followed by a semicolon (e.g.,
/// `foo();`).
///
/// Requires a parser whose token stream ends with the end-of-file token,
/// as [`tokenize`](crate::lexer::tokenize) produces it, with the cursor on
/// one of its tokens, and tables that treat the end-of-file token safely,
/// as the standard tables do.
pub fn parse_expression_stmt(p: &mut Parser, lu: &Lookups) -> (r: Result<Stmt, RelixError>)
    requires
        old(p).ready(lu),
    ensures
        old(p).steps_to(final(p)),
        r is Ok ==> old(p).pos < final(p).pos,
        expression_stmt_at(old(p).token_stream(), lu@, old(p).pos as int) == outcome_of(
            r,
            final(p).pos,
        ),
    decreases old(p).tokens@.len() - old(p).pos, 5int,
{
    let expression = match parse_expr(p, lu, BindingPower::Default) {
        Ok(e) => e,
        Err(e) => {
            return Err(e);
        },
    };
    match p.expect(TokenKind::SemiColon) {
        Ok(_) => {},
        Err(e) => {
            return Err(e);
        },
    }
    Ok(Stmt::Expression(ExpressionStmt { expression }))
}

/// Parses a block statement.
///
/// A block statement is a sequence of statements enclosed in braces (e.g.,
/// `{ let x = 1; let y = 2; }`). Expects the cursor to be positioned at the
/// opening `{`.
///
/// Requires a parser whose token stream ends with the end-of-file token,
/// as [`tokenize`](crate::lexer::tokenize) produces it, with the cursor on
/// one of its tokens, and tables that treat the end-of-file token safely,
/// as the standard tables do.
pub fn parse_block_stmt(p: &mut Parser, lu: &Lookups) -> (r: Result<Stmt, RelixError>)
    requires
        old(p).ready(lu),
    ensures
        old(p).steps_to(final(p)),
        r is Ok ==> old(p).pos < final(p).pos,
        block_at(old(p).token_stream(), lu@, old(p).pos as int) == outcome_of(r, final(p).pos),
    decreases old(p).tokens@.len() - old(p).pos, 4int,
{
    let ghost toks = p.token_stream();
    let ghost start = p.pos as int;
    match p.expect(TokenKind::OpenCurly) {
        Ok(_) => {},
        Err(e) => {
            return Err(e);
        },
    }
    let mut body: Vec<Stmt> = Vec::new();
    proof {
        assert(stmts_model(body@) =~= Seq::empty());
    }
    while p.has_tokens() && p.current_token_kind() != TokenKind::CloseCurly
        invariant
            p.ready(lu),
            p.tokens@ == old(p).tokens@,
            toks == old(p).token_stream(),
            start == old(p).pos,
            start < p.pos,
            toks[start].kind == TokenKind::OpenCurly,
            block_items_at(toks, lu@, start + 1, Seq::empty()) == block_items_at(
                toks,
                lu@,
                p.pos as int,
                stmts_model(body@),
            ),
        decreases p.tokens@.len() - p.pos,
    {
        let ghost before = body@;
        let ghost here = p.pos as int;
        let s = match parse_stmt(p, lu) {
            Ok(s) => s,
            Err(e) => {
                assert(block_items_at(toks, lu@, here, stmts_model(before)) == Err::<(Seq<StmtModel>, int), (Seq<char>, int)>((e@, p.pos as int)));
                return Err(e);
            },
        };
        body.push(s);
        proof {
            assert(body@.drop_last() =~= before);
        }
    }
    match p.expect(TokenKind::CloseCurly) {
        Ok(_) => {},
        Err(e) => {
            return Err(e);
        },
    }
    Ok(Stmt::Block(BlockStmt { body }))
}

/// Parses a variable declaration statement.
///
/// Handles both `let` and `const` declarations. Supports optional type
/// annotations and initial values.
///
/// # Errors
///
/// - Returns an error if the variable name is missing.
/// - Returns an error if neither an explicit type nor an initial value is provided.
/// - Returns an error if a `const` declaration has no initial value.
///
/// Requires a parser whose token stream ends with the end-of-file token,
/// as [`tokenize`](crate::lexer::tokenize) produces it, with the cursor on
/// one of its tokens, and tables that treat the end-of-file token safely,
/// as the standard tables do.
/// The cursor must not be on the end-of-file token.
pub fn parse_var_decl_stmt(p: &mut Parser, lu: &Lookups) -> (r: Result<Stmt, RelixError>)
    requires
        old(p).ready(lu),
        old(p).on_token(),
    ensures
        old(p).steps_to(final(p)),
        r is Ok ==> old(p).pos < final(p).pos,
        var_decl_at(old(p).token_stream(), lu@, old(p).pos as int) == outcome_of(r, final(p).pos),
    decreases old(p).tokens@.len() - old(p).pos, 4int,
{
    let start_token = p.advance();
    let is_constant = start_token.kind == TokenKind::Const;
    let mut message = String::from_str("Following ");
    message.append(start_token.kind.as_str());
    message.append(" expected variable name however instead received ");
    message.append(p.current_token_kind().as_str());
    message.append(" instead\n");
    let symbol_name = match p.expect_error(TokenKind::Identifier, Some(message)) {
        Ok(t) => t,
        Err(e) => {
            return Err(e);
        },
    };
    let explicit_type = if p.current_token_kind() == TokenKind::Colon {
        match p.expect(TokenKind::Colon) {
            Ok(_) => {},
            Err(e) => {
                return Err(e);
            },
        }
        match parse_type(p, lu, BindingPower::Default) {
            Ok(t) => Some(t),
            Err(e) => {
                return Err(e);
            },
        }
    } else {
        None
    };
    let assigned_value = if p.current_token_kind() != TokenKind::SemiColon {
        match p.expect(TokenKind::Assignment) {
            Ok(_) => {},
            Err(e) => {
                return Err(e);
            },
        }
        match parse_expr(p, lu, BindingPower::Assignment) {
            Ok(e) => Some(e),
            Err(e) => {
                return Err(e);
            },
        }
    } else {
        if explicit_type.is_none() {
            return Err(RelixError::new("Missing explicit type for variable declaration."));
        }
        None
    };
    match p.expect(TokenKind::SemiColon) {
        Ok(_) => {},
        Err(e) => {
            return Err(e);
        },
    }
    if is_constant && assigned_value.is_none() {
        return Err(
            RelixError::new("Cannot define constant variable without providing default value."),
        );
    }
    Ok(
        Stmt::VarDecl(
            VarDeclarationStmt {
                constant: is_constant,
                identifier: symbol_name.value,
                assigned_value,
                explicit_type,
            },
        ),
    )
}

/// Parses a function declaration statement.
///
/// Requires a parser whose token stream ends with the end-of-file token,
/// as [`tokenize`](crate::lexer::tokenize) produces it, with the cursor on
/// one of its tokens, and tables that treat the end-of-file token safely,
/// as the standard tables do.
/// The cursor must not be on the end-of-file token.
pub fn parse_fn_declaration(p: &mut Parser, lu: &Lookups) -> (r: Result<Stmt, RelixError>)
    requires
        old(p).ready(lu),
        old(p).on_token(),
    ensures
        old(p).steps_to(final(p)),
        r is Ok ==> old(p).pos < final(p).pos,
        fn_decl_at(old(p).token_stream(), lu@, old(p).pos as int) == outcome_of(r, final(p).pos),
    decreases old(p).tokens@.len() - old(p).pos, 4int,
{
    p.advance();
    let function_name = match p.expect(TokenKind::Identifier) {
        Ok(t) => t.value,
        Err(e) => {
            return Err(e);
        },
    };
    let (params, return_type, body) = match parse_fn_params_and_body(p, lu) {
        Ok(parts) => parts,
        Err(e) => {
            return Err(e);
        },
    };
    Ok(
        Stmt::FunctionDecl(
            FunctionDeclarationStmt { name: function_name, parameters: params, body, return_type },
        ),
    )
}

/// Parses an `if` / `else` statement.
///
/// Supports `else if` chains by recursively parsing nested `if` statements in
/// the alternate branch.
///
/// Requires a parser whose token stream ends with the end-of-file token,
/// as [`tokenize`](crate::lexer::tokenize) produces it, with the cursor on
/// one of its tokens, and tables that treat the end-of-file token safely,
/// as the standard tables do.
/// The cursor must not be on the end-of-file token.
pub fn parse_if_stmt(p: &mut Parser, lu: &Lookups) -> (r: Result<Stmt, RelixError>)
    requires
        old(p).ready(lu),
        old(p).on_token(),
    ensures
        old(p).steps_to(final(p)),
        r is Ok ==> old(p).pos < final(p).pos,
        if_at(old(p).token_stream(), lu@, old(p).pos as int) == outcome_of(r, final(p).pos),
    decreases old(p).tokens@.len() - old(p).pos, 4int,
{
    p.advance();
    let condition = match parse_expr(p, lu, BindingPower::Assignment) {
        Ok(e) => e,
        Err(e) => {
            return Err(e);
        },
    };
    let consequent = match parse_block_stmt(p, lu) {
        Ok(s) => s,
        Err(e) => {
            return Err(e);
        },
    };
    let alternate = if p.current_token_kind() == TokenKind::Else {
        p.advance();
        if p.current_token_kind() == TokenKind::If {
            match parse_if_stmt(p, lu) {
                Ok(s) => Some(Box::new(s)),
                Err(e) => {
                    return Err(e);
                },
            }
        } else {
            match parse_block_stmt(p, lu) {
                Ok(s) => Some(Box::new(s)),
                Err(e) => {
                    return Err(e);
                },
            }
        }
    } else {
        None
    };
    Ok(Stmt::If(IfStmt { condition, consequent: Box::new(consequent), alternate }))
}

/// Parses an `import` statement.
///
/// When the `from` clause is omitted, the `from` field is set to the same
/// value as the `name` field.
///
/// The cursor must not be on the end-of-file token.
pub fn parse_import_stmt(p: &mut Parser, _lu: &Lookups) -> (r: Result<Stmt, RelixError>)
    requires
        old(p).well_formed(),
        old(p).on_token(),
    ensures
        old(p).steps_to(final(p)),
        r is Ok ==> old(p).pos < final(p).pos,
        import_at(old(p).token_stream(), old(p).pos as int) == outcome_of(r, final(p).pos),
{
    p.advance();
    let import_name = match p.expect(TokenKind::Identifier) {
        Ok(t) => t.value,
        Err(e) => {
            return Err(e);
        },
    };
    let import_from = if p.current_token_kind() == TokenKind::From {
        p.advance();
        match p.expect(TokenKind::String) {
            Ok(t) => t.value,
            Err(e) => {
                return Err(e);
            },
        }
    } else {
        import_name.clone()
    };
    match p.expect(TokenKind::SemiColon) {
        Ok(_) => {},
        Err(e) => {
            return Err(e);
        },
    }
    Ok(Stmt::Import(ImportStmt { name: import_name, from: import_from }))
}

/// Parses a `foreach` loop statement.
///
/// Supports an optional index variable (separated by a comma from the value
/// variable).
///
/// Requires a parser whose token stream ends with the end-of-file token,
/// as [`tokenize`](crate::lexer::tokenize) produces it, with the cursor on
/// one of its tokens, and tables that treat the end-of-file token safely,
/// as the standard tables do.
/// The cursor must not be on the end-of-file token.
pub fn parse_foreach_stmt(p: &mut Parser, lu: &Lookups) -> (r: Result<Stmt, RelixError>)
    requires
        old(p).ready(lu),
        old(p).on_token(),
    ensures
        old(p).steps_to(final(p)),
        r is Ok ==> old(p).pos < final(p).pos,
        foreach_at(old(p).token_stream(), lu@, old(p).pos as int) == outcome_of(r, final(p).pos),
    decreases old(p).tokens@.len() - old(p).pos, 4int,
{
    p.advance();
    let value_name = match p.expect(TokenKind::Identifier) {
        Ok(t) => t.value,
        Err(e) => {
            return Err(e);
        },
    };
    let has_index = if p.current_token_kind() == TokenKind::Comma {
        match p.expect(TokenKind::Comma) {
            Ok(_) => {},
            Err(e) => {
                return Err(e);
            },
        }
        match p.expect(TokenKind::Identifier) {
            Ok(_) => {},
            Err(e) => {
                return Err(e);
            },
        }
        true
    } else {
        false
    };
    match p.expect(TokenKind::In) {
        Ok(_) => {},
        Err(e) => {
            return Err(e);
        },
    }
    let iterable = match parse_expr(p, lu, BindingPower::Default) {
        Ok(e) => e,
        Err(e) => {
            return Err(e);
        },
    };
    let body = match parse_block_stmt(p, lu) {
        Ok(Stmt::Block(b)) => b.body,
        Ok(_) => {
            return Err(RelixError::new("Expected block statement in foreach body"));
        },
        Err(e) => {
            return Err(e);
        },
    };
    Ok(Stmt::Foreach(ForeachStmt { value: value_name, index: has_index, iterable, body }))
}

/// Parses a class declaration statement.
///
/// Requires a parser whose token stream ends with the end-of-file token,
/// as [`tokenize`](crate::lexer::tokenize) produces it, with the cursor on
/// one of its tokens, and tables that treat the end-of-file token safely,
/// as the standard tables do.
/// The cursor must not be on the end-of-file token.
pub fn parse_class_declaration_stmt(p: &mut Parser, lu: &Lookups) -> (r: Result<Stmt, RelixError>)
    requires
        old(p).ready(lu),
        old(p).on_token(),
    ensures
        old(p).steps_to(final(p)),
        r is Ok ==> old(p).pos < final(p).pos,
        class_at(old(p).token_stream(), lu@, old(p).pos as int) == outcome_of(r, final(p).pos),
    decreases old(p).tokens@.len() - old(p).pos, 4int,
{
    p.advance();
    let class_name = match p.expect(TokenKind::Identifier) {
        Ok(t) => t.value,
        Err(e) => {
            return Err(e);
        },
    };
    let body = match parse_block_stmt(p, lu) {
        Ok(Stmt::Block(b)) => b.body,
        Ok(_) => {
            return Err(RelixError::new("Expected block statement for class body"));
        },
        Err(e) => {
            return Err(e);
        },
    };
    Ok(Stmt::ClassDecl(ClassDeclarationStmt { name: class_name, body }))
}

} // verus!
