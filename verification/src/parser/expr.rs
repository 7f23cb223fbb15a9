//! Expression parsing for the Relix language.
//!
//! This module implements the Pratt parsing driver for expressions, along with
//! all NUD and LED handlers for individual expression forms (literals, binary
//! operators, calls, member access, etc.).
//!
//! The core entry point is [`parse_expr`], which drives the Pratt parsing loop
//! using binding powers and handler tables from [`Lookups`].

use crate::ast::{
    exprs_model, opt_type_model, params_model, stmts_model, ArrayLiteral, AssignmentExpr,
    BinaryExpr, CallExpr, ComputedExpr, Expr, FunctionExpr, MemberExpr, NewExpr, NumberExpr,
    Parameter, ParameterModel, PrefixExpr, RangeExpr, Stmt, StringExpr, SymbolExpr, Type,
};
use crate::error::RelixError;
use crate::lexer::TokenKind;
use crate::lookups::{BindingPower, LedHandler, Lookups, NudHandler};
use crate::parser::grammar::{
    array_at, assignment_at, binary_at, call_at, expr_at, fn_expr_at, fn_parts_at, grouping_at,
    led_at, led_loop_at, list_items_at, member_at, new_at, nud_at, params_at, prefix_at,
    primary_at, range_at,
};
use crate::parser::{kind_error, outcome_of, Parser};
use crate::stmts::parse_block_stmt;
use crate::types::parse_type;
use vstd::prelude::*;

verus! {

/// The parameters, the optional return type and the body of a function.
pub type FnParamsAndBody = (Vec<Parameter>, Option<Type>, Vec<Stmt>);

/// The core Pratt expression parsing driver.
///
/// Parses an expression starting at the current token position, using the NUD
/// and LED handler tables from `lu` to handle each token. The `bp` parameter
/// controls the binding power threshold: the parser will stop consuming tokens
/// when it encounters a token with binding power less than or equal to `bp`.
///
/// # Algorithm
///
/// 1. Look up the NUD handler for the current token and call it to produce the
///    initial left-hand expression.
/// 2. While the current token's binding power (from the `bp` table) is greater
///    than `bp`, look up the LED handler and call it with the left-hand
///    expression to produce a new left-hand expression.
/// 3. Return the final left-hand expression.
///
/// Requires a parser whose token stream ends with the end-of-file token,
/// as [`tokenize`](crate::lexer::tokenize) produces it, with the cursor on
/// one of its tokens, and tables that treat the end-of-file token safely,
/// as the standard tables do.
pub fn parse_expr(p: &mut Parser, lu: &Lookups, bp: BindingPower) -> (r: Result<Expr, RelixError>)
    requires
        old(p).ready(lu),
    ensures
        old(p).steps_to(final(p)),
        r is Ok ==> old(p).pos < final(p).pos,
        expr_at(old(p).token_stream(), lu@, old(p).pos as int, bp) == outcome_of(r, final(p).pos),
    decreases old(p).tokens@.len() - old(p).pos, 3int,
{
    let ghost toks = p.token_stream();
    let ghost start = p.pos as int;
    let token_kind = p.current_token_kind();
    let nud = match lu.nud_handler(token_kind) {
        Some(h) => h,
        None => {
            return Err(kind_error("NUD Handler expected for token ", token_kind));
        },
    };
    let mut left = match run_nud(nud, p, lu) {
        Ok(e) => e,
        Err(e) => {
            return Err(e);
        },
    };
    loop
        invariant
            p.ready(lu),
            p.tokens@ == old(p).tokens@,
            toks == old(p).token_stream(),
            start == old(p).pos,
            start < p.pos,
            expr_at(toks, lu@, start, bp) == led_loop_at(toks, lu@, p.pos as int, left@, bp),
        decreases p.tokens@.len() - p.pos,
    {
        let kind = p.current_token_kind();
        let power = match lu.binding_power(kind) {
            Some(b) => b,
            None => BindingPower::Default,
        };
        if !power.binds_tighter_than(bp) {
            return Ok(left);
        }
        let led = match lu.led_handler(kind) {
            Some(h) => h,
            None => {
                return Err(kind_error("LED Handler expected for token ", kind));
            },
        };
        left = match run_led(led, p, lu, left, bp) {
            Ok(e) => e,
            Err(e) => {
                return Err(e);
            },
        };
    }
}

/// Runs the NUD handler `h`.
fn run_nud(h: NudHandler, p: &mut Parser, lu: &Lookups) -> (r: Result<Expr, RelixError>)
    requires
        old(p).ready(lu),
        h == NudHandler::Prefix || h == NudHandler::New ==> old(p).on_token(),
    ensures
        old(p).steps_to(final(p)),
        r is Ok ==> old(p).pos < final(p).pos,
        nud_at(h, old(p).token_stream(), lu@, old(p).pos as int) == outcome_of(r, final(p).pos),
    decreases old(p).tokens@.len() - old(p).pos, 2int,
{
    match h {
        NudHandler::Primary => parse_primary_expr(p, lu),
        NudHandler::Prefix => parse_prefix_expr(p, lu),
        NudHandler::ArrayLiteral => parse_array_literal_expr(p, lu),
        NudHandler::Grouping => parse_grouping_expr(p, lu),
        NudHandler::Function => parse_fn_expr(p, lu),
        NudHandler::New => parse_new_expr(p, lu),
    }
}

/// Runs the LED handler `h`.
fn run_led(h: LedHandler, p: &mut Parser, lu: &Lookups, left: Expr, bp: BindingPower) -> (r: Result<
    Expr,
    RelixError,
>)
    requires
        old(p).ready(lu),
        old(p).on_token(),
    ensures
        old(p).steps_to(final(p)),
        r is Ok ==> old(p).pos < final(p).pos,
        led_at(h, old(p).token_stream(), lu@, old(p).pos as int, left@, bp) == outcome_of(
            r,
            final(p).pos,
        ),
    decreases old(p).tokens@.len() - old(p).pos, 2int,
{
    match h {
        LedHandler::Assignment => parse_assignment_expr(p, lu, left, bp),
        LedHandler::Binary => parse_binary_expr(p, lu, left, bp),
        LedHandler::Range => parse_range_expr(p, lu, left, bp),
        LedHandler::Member => parse_member_expr(p, lu, left, bp),
        LedHandler::Call => parse_call_expr(p, lu, left, bp),
    }
}

/// NUD handler for prefix / unary expressions.
///
/// Handles tokens like `-`, `!`, and `typeof` that appear at the start of an
/// expression and take a single operand on the right.
///
/// Requires a parser whose token stream ends with the end-of-file token,
/// as [`tokenize`](crate::lexer::tokenize) produces it, with the cursor on
/// one of its tokens, and tables that treat the end-of-file token safely,
/// as the standard tables do.
/// The cursor must not be on the end-of-file token.
pub fn parse_prefix_expr(p: &mut Parser, lu: &Lookups) -> (r: Result<Expr, RelixError>)
    requires
        old(p).ready(lu),
        old(p).on_token(),
    ensures
        old(p).steps_to(final(p)),
        r is Ok ==> old(p).pos < final(p).pos,
        prefix_at(old(p).token_stream(), lu@, old(p).pos as int) == outcome_of(r, final(p).pos),
    decreases old(p).tokens@.len() - old(p).pos, 1int,
{
    let operator = p.advance();
    let right = match parse_expr(p, lu, BindingPower::Unary) {
        Ok(e) => e,
        Err(e) => {
            return Err(e);
        },
    };
    Ok(Expr::Prefix(PrefixExpr { operator, right: Box::new(right) }))
}

/// LED handler for assignment expressions.
///
/// Handles `=`, `+=`, `-=`, and similar operators. Parses the right-hand side
/// with the same binding power, allowing right-associative chaining.
///
/// Requires a parser whose token stream ends with the end-of-file token,
/// as [`tokenize`](crate::lexer::tokenize) produces it, with the cursor on
/// one of its tokens, and tables that treat the end-of-file token safely,
/// as the standard tables do.
/// The cursor must not be on the end-of-file token.
pub fn parse_assignment_expr(p: &mut Parser, lu: &Lookups, left: Expr, bp: BindingPower) -> (r:
    Result<Expr, RelixError>)
    requires
        old(p).ready(lu),
        old(p).on_token(),
    ensures
        old(p).steps_to(final(p)),
        r is Ok ==> old(p).pos < final(p).pos,
        assignment_at(old(p).token_stream(), lu@, old(p).pos as int, left@, bp) == outcome_of(
            r,
            final(p).pos,
        ),
    decreases old(p).tokens@.len() - old(p).pos, 1int,
{
    p.advance();
    let rhs = match parse_expr(p, lu, bp) {
        Ok(e) => e,
        Err(e) => {
            return Err(e);
        },
    };
    Ok(Expr::Assignment(AssignmentExpr { assignee: Box::new(left), assigned_value: Box::new(rhs) }))
}

/// LED handler for range expressions.
///
/// Handles the `..` operator (e.g., `1..10`).
///
/// Requires a parser whose token stream ends with the end-of-file token,
/// as [`tokenize`](crate::lexer::tokenize) produces it, with the cursor on
/// one of its tokens, and tables that treat the end-of-file token safely,
/// as the standard tables do.
/// The cursor must not be on the end-of-file token.
pub fn parse_range_expr(p: &mut Parser, lu: &Lookups, left: Expr, bp: BindingPower) -> (r: Result<
    Expr,
    RelixError,
>)
    requires
        old(p).ready(lu),
        old(p).on_token(),
    ensures
        old(p).steps_to(final(p)),
        r is Ok ==> old(p).pos < final(p).pos,
        range_at(old(p).token_stream(), lu@, old(p).pos as int, left@, bp) == outcome_of(
            r,
            final(p).pos,
        ),
    decreases old(p).tokens@.len() - old(p).pos, 1int,
{
    p.advance();
    let upper = match parse_expr(p, lu, bp) {
        Ok(e) => e,
        Err(e) => {
            return Err(e);
        },
    };
    Ok(Expr::Range(RangeExpr { lower: Box::new(left), upper: Box::new(upper) }))
}

/// LED handler for binary / infix expressions.
///
/// Handles arithmetic (`+`, `-`, `*`, `/`, `%`), comparison (`<`, `==`, etc.),
/// and logical (`&&`, `||`) operators. The right operand is parsed at the
/// operator's own binding power, so a tighter operator groups first and
/// operators of equal power group to the left.
///
/// Requires a parser whose token stream ends with the end-of-file token,
/// as [`tokenize`](crate::lexer::tokenize) produces it, with the cursor on
/// one of its tokens, and tables that treat the end-of-file token safely,
/// as the standard tables do.
/// The cursor must not be on the end-of-file token.
pub fn parse_binary_expr(p: &mut Parser, lu: &Lookups, left: Expr, _bp: BindingPower) -> (r: Result<
    Expr,
    RelixError,
>)
    requires
        old(p).ready(lu),
        old(p).on_token(),
    ensures
        old(p).steps_to(final(p)),
        r is Ok ==> old(p).pos < final(p).pos,
        binary_at(old(p).token_stream(), lu@, old(p).pos as int, left@) == outcome_of(
            r,
            final(p).pos,
        ),
    decreases old(p).tokens@.len() - old(p).pos, 1int,
{
    let operator = p.advance();
    let power = match lu.binding_power(operator.kind) {
        Some(b) => b,
        None => BindingPower::Default,
    };
    let right = match parse_expr(p, lu, power) {
        Ok(e) => e,
        Err(e) => {
            return Err(e);
        },
    };
    Ok(Expr::Binary(BinaryExpr { left: Box::new(left), operator, right: Box::new(right) }))
}

/// NUD handler for primary literal expressions.
///
/// Handles numeric literals, string literals, and identifiers. A numeric
/// literal keeps its source text.
///
/// Requires the cursor to be on a token of the stream.
pub fn parse_primary_expr(p: &mut Parser, _lu: &Lookups) -> (r: Result<Expr, RelixError>)
    requires
        old(p).pos < old(p).tokens@.len(),
    ensures
        final(p).tokens@ == old(p).tokens@,
        r is Ok ==> final(p).pos == old(p).pos + 1,
        r is Err ==> final(p).pos == old(p).pos,
        old(p).well_formed() ==> final(p).well_formed(),
        primary_at(old(p).token_stream(), old(p).pos as int) == outcome_of(r, final(p).pos),
{
    match p.current_token_kind() {
        TokenKind::Number => Ok(Expr::Number(NumberExpr { value: p.advance().value })),
        TokenKind::String => Ok(Expr::String(StringExpr { value: p.advance().value })),
        TokenKind::Identifier => Ok(Expr::Symbol(SymbolExpr { value: p.advance().value })),
        other => Err(kind_error("Cannot create primary_expr from ", other)),
    }
}

/// LED handler for member access and computed access expressions.
///
/// Handles `.` (member access, e.g., `obj.field`) and `[` (computed access,
/// e.g., `arr[0]`).
///
/// Requires a parser whose token stream ends with the end-of-file token,
/// as [`tokenize`](crate::lexer::tokenize) produces it, with the cursor on
/// one of its tokens, and tables that treat the end-of-file token safely,
/// as the standard tables do.
/// The cursor must not be on the end-of-file token.
pub fn parse_member_expr(p: &mut Parser, lu: &Lookups, left: Expr, bp: BindingPower) -> (r: Result<
    Expr,
    RelixError,
>)
    requires
        old(p).ready(lu),
        old(p).on_token(),
    ensures
        old(p).steps_to(final(p)),
        r is Ok ==> old(p).pos < final(p).pos,
        member_at(old(p).token_stream(), lu@, old(p).pos as int, left@, bp) == outcome_of(
            r,
            final(p).pos,
        ),
    decreases old(p).tokens@.len() - old(p).pos, 1int,
{
    let is_computed = p.advance().kind == TokenKind::OpenBracket;
    if is_computed {
        let rhs = match parse_expr(p, lu, bp) {
            Ok(e) => e,
            Err(e) => {
                return Err(e);
            },
        };
        match p.expect(TokenKind::CloseBracket) {
            Ok(_) => {},
            Err(e) => {
                return Err(e);
            },
        }
        Ok(Expr::Computed(ComputedExpr { member: Box::new(left), property: Box::new(rhs) }))
    } else {
        let property = match p.expect(TokenKind::Identifier) {
            Ok(t) => t.value,
            Err(e) => {
                return Err(e);
            },
        };
        Ok(Expr::Member(MemberExpr { member: Box::new(left), property }))
    }
}

/// Comma-separated expressions parsed at `bp` until `close` (or the end of the
/// input); the closing token is left for the caller.
fn parse_expr_list(p: &mut Parser, lu: &Lookups, bp: BindingPower, close: TokenKind) -> (r: Result<
    Vec<Expr>,
    RelixError,
>)
    requires
        old(p).ready(lu),
    ensures
        old(p).steps_to(final(p)),
        r is Ok ==> old(p).pos <= final(p).pos,
        list_items_at(old(p).token_stream(), lu@, old(p).pos as int, bp, close, Seq::empty())
            == match r {
            Ok(items) => Ok((exprs_model(items@), final(p).pos as int)),
            Err(e) => Err((e@, final(p).pos as int)),
        },
    decreases old(p).tokens@.len() - old(p).pos, 4int,
{
    let ghost toks = p.token_stream();
    let ghost start = p.pos as int;
    let mut items: Vec<Expr> = Vec::new();
    proof {
        assert(exprs_model(items@) =~= Seq::empty());
    }
    while p.has_tokens() && p.current_token_kind() != close
        invariant
            p.ready(lu),
            p.tokens@ == old(p).tokens@,
            toks == old(p).token_stream(),
            start == old(p).pos,
            start <= p.pos,
            list_items_at(toks, lu@, start, bp, close, Seq::empty()) == list_items_at(
                toks,
                lu@,
                p.pos as int,
                bp,
                close,
                exprs_model(items@),
            ),
        decreases p.tokens@.len() - p.pos,
    {
        let ghost before = items@;
        let ghost here = p.pos as int;
        let item = match parse_expr(p, lu, bp) {
            Ok(e) => e,
            Err(e) => {
                return Err(e);
            },
        };
        items.push(item);
        proof {
            assert(items@.drop_last() =~= before);
        }
        let stop = [TokenKind::Eof, close];
        if !p.current_token().is_one_of_many(&stop) {
            match p.expect(TokenKind::Comma) {
                Ok(_) => {},
                Err(e) => {
                    return Err(e);
                },
            }
        }
    }
    Ok(items)
}

/// NUD handler for array literal expressions.
///
/// Handles `[` followed by a comma-separated list of expressions and `]`.
///
/// Requires a parser whose token stream ends with the end-of-file token,
/// as [`tokenize`](crate::lexer::tokenize) produces it, with the cursor on
/// one of its tokens, and tables that treat the end-of-file token safely,
/// as the standard tables do.
pub fn parse_array_literal_expr(p: &mut Parser, lu: &Lookups) -> (r: Result<Expr, RelixError>)
    requires
        old(p).ready(lu),
    ensures
        old(p).steps_to(final(p)),
        r is Ok ==> old(p).pos < final(p).pos,
        array_at(old(p).token_stream(), lu@, old(p).pos as int) == outcome_of(r, final(p).pos),
    decreases old(p).tokens@.len() - old(p).pos, 1int,
{
    match p.expect(TokenKind::OpenBracket) {
        Ok(_) => {},
        Err(e) => {
            return Err(e);
        },
    }
    let contents = match parse_expr_list(p, lu, BindingPower::Logical, TokenKind::CloseBracket) {
        Ok(items) => items,
        Err(e) => {
            return Err(e);
        },
    };
    match p.expect(TokenKind::CloseBracket) {
        Ok(_) => {},
        Err(e) => {
            return Err(e);
        },
    }
    Ok(Expr::Array(ArrayLiteral { contents }))
}

/// NUD handler for grouping expressions.
///
/// Handles `(` followed by an expression and `)`, used for overriding operator
/// precedence.
///
/// Requires a parser whose token stream ends with the end-of-file token,
/// as [`tokenize`](crate::lexer::tokenize) produces it, with the cursor on
/// one of its tokens, and tables that treat the end-of-file token safely,
/// as the standard tables do.
pub fn parse_grouping_expr(p: &mut Parser, lu: &Lookups) -> (r: Result<Expr, RelixError>)
    requires
        old(p).ready(lu),
    ensures
        old(p).steps_to(final(p)),
        r is Ok ==> old(p).pos < final(p).pos,
        grouping_at(old(p).token_stream(), lu@, old(p).pos as int) == outcome_of(r, final(p).pos),
    decreases old(p).tokens@.len() - old(p).pos, 1int,
{
    match p.expect(TokenKind::OpenParen) {
        Ok(_) => {},
        Err(e) => {
            return Err(e);
        },
    }
    let expr = match parse_expr(p, lu, BindingPower::Default) {
        Ok(e) => e,
        Err(e) => {
            return Err(e);
        },
    };
    match p.expect(TokenKind::CloseParen) {
        Ok(_) => {},
        Err(e) => {
            return Err(e);
        },
    }
    Ok(expr)
}

/// LED handler for function call expressions.
///
/// Handles `(` followed by a comma-separated list of argument expressions and
/// `)`.
///
/// Requires a parser whose token stream ends with the end-of-file token,
/// as [`tokenize`](crate::lexer::tokenize) produces it, with the cursor on
/// one of its tokens, and tables that treat the end-of-file token safely,
/// as the standard tables do.
/// The cursor must not be on the end-of-file token.
pub fn parse_call_expr(p: &mut Parser, lu: &Lookups, left: Expr, _bp: BindingPower) -> (r: Result<
    Expr,
    RelixError,
>)
    requires
        old(p).ready(lu),
        old(p).on_token(),
    ensures
        old(p).steps_to(final(p)),
        r is Ok ==> old(p).pos < final(p).pos,
        call_at(old(p).token_stream(), lu@, old(p).pos as int, left@) == outcome_of(
            r,
            final(p).pos,
        ),
    decreases old(p).tokens@.len() - old(p).pos, 1int,
{
    p.advance();
    let arguments = match parse_expr_list(p, lu, BindingPower::Assignment, TokenKind::CloseParen) {
        Ok(items) => items,
        Err(e) => {
            return Err(e);
        },
    };
    match p.expect(TokenKind::CloseParen) {
        Ok(_) => {},
        Err(e) => {
            return Err(e);
        },
    }
    Ok(Expr::Call(CallExpr { method: Box::new(left), arguments }))
}

/// NUD handler for anonymous function expressions.
///
/// Handles `fn` followed by a parameter list, optional return type, and body.
///
/// Requires a parser whose token stream ends with the end-of-file token,
/// as [`tokenize`](crate::lexer::tokenize) produces it, with the cursor on
/// one of its tokens, and tables that treat the end-of-file token safely,
/// as the standard tables do.
pub fn parse_fn_expr(p: &mut Parser, lu: &Lookups) -> (r: Result<Expr, RelixError>)
    requires
        old(p).ready(lu),
    ensures
        old(p).steps_to(final(p)),
        r is Ok ==> old(p).pos < final(p).pos,
        fn_expr_at(old(p).token_stream(), lu@, old(p).pos as int) == outcome_of(r, final(p).pos),
    decreases old(p).tokens@.len() - old(p).pos, 1int,
{
    match p.expect(TokenKind::Fn) {
        Ok(_) => {},
        Err(e) => {
            return Err(e);
        },
    }
    let (parameters, return_type, body) = match parse_fn_params_and_body(p, lu) {
        Ok(parts) => parts,
        Err(e) => {
            return Err(e);
        },
    };
    Ok(Expr::Function(FunctionExpr { parameters, body, return_type }))
}

/// NUD handler for `new` instantiation expressions.
///
/// Handles `new` followed by a call expression (e.g., `new Point()`).
///
/// Requires a parser whose token stream ends with the end-of-file token,
/// as [`tokenize`](crate::lexer::tokenize) produces it, with the cursor on
/// one of its tokens, and tables that treat the end-of-file token safely,
/// as the standard tables do.
/// The cursor must not be on the end-of-file token.
pub fn parse_new_expr(p: &mut Parser, lu: &Lookups) -> (r: Result<Expr, RelixError>)
    requires
        old(p).ready(lu),
        old(p).on_token(),
    ensures
        old(p).steps_to(final(p)),
        r is Ok ==> old(p).pos < final(p).pos,
        new_at(old(p).token_stream(), lu@, old(p).pos as int) == outcome_of(r, final(p).pos),
    decreases old(p).tokens@.len() - old(p).pos, 1int,
{
    p.advance();
    let instantiation = match parse_expr(p, lu, BindingPower::Default) {
        Ok(e) => e,
        Err(e) => {
            return Err(e);
        },
    };
    match instantiation {
        Expr::Call(call) => Ok(Expr::New(NewExpr { instantiation: call })),
        _ => Err(RelixError::new("Expected call expression after `new`")),
    }
}

/// Shared helper for parsing function parameters, return type, and body.
///
/// Used by both [`parse_fn_expr`] (anonymous functions) and
/// [`parse_fn_declaration`](crate::stmts::parse_fn_declaration) (named function
/// declarations).
///
/// Expects the cursor to be positioned at the opening `(` of the parameter
/// list. Returns a tuple of (parameters, return_type, body).
///
/// Requires a parser whose token stream ends with the end-of-file token,
/// as [`tokenize`](crate::lexer::tokenize) produces it, with the cursor on
/// one of its tokens, and tables that treat the end-of-file token safely,
/// as the standard tables do.
pub fn parse_fn_params_and_body(p: &mut Parser, lu: &Lookups) -> (r: Result<
    FnParamsAndBody,
    RelixError,
>)
    requires
        old(p).ready(lu),
    ensures
        old(p).steps_to(final(p)),
        r is Ok ==> old(p).pos < final(p).pos,
        fn_parts_at(old(p).token_stream(), lu@, old(p).pos as int) == match r {
            Ok(parts) => Ok(
                (
                    (params_model(parts.0@), opt_type_model(parts.1), stmts_model(parts.2@)),
                    final(p).pos as int,
                ),
            ),
            Err(e) => Err((e@, final(p).pos as int)),
        },
    decreases old(p).tokens@.len() - old(p).pos, 1int,
{
    let ghost toks = p.token_stream();
    let ghost start = p.pos as int;
    let mut params: Vec<Parameter> = Vec::new();
    match p.expect(TokenKind::OpenParen) {
        Ok(_) => {},
        Err(e) => {
            return Err(e);
        },
    }
    proof {
        assert(params_model(params@) =~= Seq::empty());
    }
    while p.has_tokens() && p.current_token_kind() != TokenKind::CloseParen
        invariant
            p.ready(lu),
            p.tokens@ == old(p).tokens@,
            toks == old(p).token_stream(),
            start == old(p).pos,
            start < p.pos,
            toks[start].kind == TokenKind::OpenParen,
            params_at(toks, lu@, start + 1, Seq::empty()) == params_at(
                toks,
                lu@,
                p.pos as int,
                params_model(params@),
            ),
        decreases p.tokens@.len() - p.pos,
    {
        let ghost before = params@;
        let ghost here = p.pos as int;
        let param_name = match p.expect(TokenKind::Identifier) {
            Ok(t) => t.value,
            Err(e) => {
                assert(params_at(toks, lu@, here, params_model(before)) == Err::<(Seq<ParameterModel>, int), (Seq<char>, int)>((e@, p.pos as int)));
                return Err(e);
            },
        };
        match p.expect(TokenKind::Colon) {
            Ok(_) => {},
            Err(e) => {
                assert(params_at(toks, lu@, here, params_model(before)) == Err::<(Seq<ParameterModel>, int), (Seq<char>, int)>((e@, p.pos as int)));
                return Err(e);
            },
        }
        let param_type = match parse_type(p, lu, BindingPower::Default) {
            Ok(t) => t,
            Err(e) => {
                assert(params_at(toks, lu@, here, params_model(before)) == Err::<(Seq<ParameterModel>, int), (Seq<char>, int)>((e@, p.pos as int)));
                return Err(e);
            },
        };
        params.push(Parameter { name: param_name, ty: param_type });
        proof {
            assert(params@.drop_last() =~= before);
        }
        let stop = [TokenKind::CloseParen, TokenKind::Eof];
        if !p.current_token().is_one_of_many(&stop) {
            match p.expect(TokenKind::Comma) {
                Ok(_) => {},
                Err(e) => {
                    return Err(e);
                },
            }
        }
    }
    match p.expect(TokenKind::CloseParen) {
        Ok(_) => {},
        Err(e) => {
            return Err(e);
        },
    }
    let return_type = if p.current_token_kind() == TokenKind::Colon {
        p.advance();
        match parse_type(p, lu, BindingPower::Default) {
            Ok(t) => Some(t),
            Err(e) => {
                return Err(e);
            },
        }
    } else {
        None
    };
    let body = match parse_block_stmt(p, lu) {
        Ok(Stmt::Block(b)) => b.body,
        Ok(_) => {
            return Err(RelixError::new("Expected block statement for function body"));
        },
        Err(e) => {
            return Err(e);
        },
    };
    Ok((params, return_type, body))
}

} // verus!
