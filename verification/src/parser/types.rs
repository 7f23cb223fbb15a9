//! Type annotation parsing for the Relix language.
//!
//! Currently supported type forms:
//!
//! - **Symbol types**: simple type names like `number`, `string`, `MyClass`.
//! - **List types**: array / list types like `[]number`, `[]string`.

use crate::ast::{ListType, SymbolType, Type};
use crate::error::RelixError;
use crate::lexer::TokenKind;
use crate::lookups::{BindingPower, Lookups, TypeNudHandler};
use crate::parser::grammar::{list_type_at, symbol_type_at, type_at, type_nud_at};
use crate::parser::{kind_error, outcome_of, Parser};
use vstd::prelude::*;

verus! {

/// The core Pratt type parsing driver.
///
/// Parses a type annotation starting at the current token position, using the
/// type NUD table from `lu` for the current token. The language has no type
/// LED handlers, so a following token whose type binding power is greater
/// than `bp` is reported as an error.
///
/// Requires a parser whose token stream ends with the end-of-file token,
/// as [`tokenize`](crate::lexer::tokenize) produces it, with the cursor on
/// one of its tokens, and tables that treat the end-of-file token safely,
/// as the standard tables do.
pub fn parse_type(p: &mut Parser, lu: &Lookups, bp: BindingPower) -> (r: Result<Type, RelixError>)
    requires
        old(p).ready(lu),
    ensures
        old(p).steps_to(final(p)),
        r is Ok ==> old(p).pos < final(p).pos,
        type_at(old(p).token_stream(), lu@, old(p).pos as int, bp) == outcome_of(r, final(p).pos),
    decreases old(p).tokens@.len() - old(p).pos, 3int,
{
    let token_kind = p.current_token_kind();
    let nud = match lu.type_nud_handler(token_kind) {
        Some(h) => h,
        None => {
            return Err(kind_error("type: NUD Handler expected for token ", token_kind));
        },
    };
    let left = match run_type_nud(nud, p, lu) {
        Ok(t) => t,
        Err(e) => {
            return Err(e);
        },
    };
    let kind = p.current_token_kind();
    let power = match lu.type_binding_power(kind) {
        Some(b) => b,
        None => BindingPower::Default,
    };
    if power.binds_tighter_than(bp) {
        return Err(kind_error("type: LED Handler expected for token ", kind));
    }
    Ok(left)
}

/// Runs the type NUD handler `h`.
fn run_type_nud(h: TypeNudHandler, p: &mut Parser, lu: &Lookups) -> (r: Result<Type, RelixError>)
    requires
        old(p).ready(lu),
        old(p).on_token(),
    ensures
        old(p).steps_to(final(p)),
        r is Ok ==> old(p).pos < final(p).pos,
        type_nud_at(h, old(p).token_stream(), lu@, old(p).pos as int) == outcome_of(r, final(p).pos),
    decreases old(p).tokens@.len() - old(p).pos, 2int,
{
    match h {
        TypeNudHandler::Symbol => parse_symbol_type(p, lu),
        TypeNudHandler::List => parse_list_type(p, lu),
    }
}

/// NUD handler for symbol type annotations.
///
/// Parses a simple type name (e.g., `number`, `string`, `MyClass`) from the
/// current token.
///
/// Requires the cursor to be on a token of the stream.
pub fn parse_symbol_type(p: &mut Parser, _lu: &Lookups) -> (r: Result<Type, RelixError>)
    requires
        old(p).pos < old(p).tokens@.len(),
    ensures
        final(p).tokens@ == old(p).tokens@,
        final(p).pos == old(p).pos + 1,
        old(p).well_formed() && old(p).on_token() ==> final(p).well_formed(),
        symbol_type_at(old(p).token_stream(), old(p).pos as int) == outcome_of(r, final(p).pos),
{
    Ok(Type::Symbol(SymbolType { value: p.advance().value }))
}

/// NUD handler for list type annotations.
///
/// Parses a list type of the form `[]T` (e.g., `[]number`, `[]string`).
///
/// Requires a parser whose token stream ends with the end-of-file token,
/// as [`tokenize`](crate::lexer::tokenize) produces it, with the cursor on
/// one of its tokens, and tables that treat the end-of-file token safely,
/// as the standard tables do.
/// The cursor must not be on the end-of-file token.
pub fn parse_list_type(p: &mut Parser, lu: &Lookups) -> (r: Result<Type, RelixError>)
    requires
        old(p).ready(lu),
        old(p).on_token(),
    ensures
        old(p).steps_to(final(p)),
        r is Ok ==> old(p).pos < final(p).pos,
        list_type_at(old(p).token_stream(), lu@, old(p).pos as int) == outcome_of(r, final(p).pos),
    decreases old(p).tokens@.len() - old(p).pos, 1int,
{
    p.advance();
    match p.expect(TokenKind::CloseBracket) {
        Ok(_) => {},
        Err(e) => {
            return Err(e);
        },
    }
    let inner = match parse_type(p, lu, BindingPower::Default) {
        Ok(t) => t,
        Err(e) => {
            return Err(e);
        },
    };
    Ok(Type::List(ListType { underlying: Box::new(inner) }))
}

} // verus!
