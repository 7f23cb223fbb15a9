//! The language the parser accepts, as spec functions over token streams.
//!
//! Each function describes one parsing routine: given the token stream, the
//! lookup tables and a position, it gives either the model of the node that is
//! parsed there together with the position after it, or the message of the
//! error that is reported together with the position the cursor is left at
//! (the token the error is about, or the position after the construct that
//! was refused). The executable parsers in [`exprs`](crate::exprs),
//! [`stmts`](crate::stmts) and [`types`](crate::types) are proved to compute
//! exactly these outcomes.
//!
//! A parsing routine always consumes at least one token when it succeeds; the
//! branches guarded by that fact (written with an empty message) are never
//! taken by the executable parsers.

use crate::ast::{ExprModel, ParameterModel, StmtModel, TypeModel};
use crate::lexer::{TokenKind, TokenView};
use crate::lookups::{
    power_or_default, BindingPower, LedHandler, LookupsModel, NudHandler, StmtHandler, TypeNudHandler,
};
use vstd::prelude::*;

verus! {

/// The outcome of a parsing routine: the parsed value and the position after
/// it, or an error message and the position the cursor is left at.
pub type Parsed<T> = Result<(T, int), (Seq<char>, int)>;

/// The stream is non-empty and closed by an end-of-file token.
pub open spec fn eof_terminated(toks: Seq<TokenView>) -> bool {
    toks.len() > 0 && toks.last().kind == TokenKind::Eof
}

/// `pos` is a position of an end-of-file terminated stream.
pub open spec fn in_stream(toks: Seq<TokenView>, pos: int) -> bool {
    eof_terminated(toks) && 0 <= pos < toks.len()
}

/// `pos` is a position of an end-of-file terminated stream that does not
/// hold an end-of-file token.
pub open spec fn inside_stream(toks: Seq<TokenView>, pos: int) -> bool {
    in_stream(toks, pos) && toks[pos].kind != TokenKind::Eof
}

/// There is a token at `pos` and it is not the end-of-file token.
pub open spec fn has_tokens_at(toks: Seq<TokenView>, pos: int) -> bool {
    0 <= pos < toks.len() && toks[pos].kind != TokenKind::Eof
}

pub open spec fn expected_message(expected: TokenKind, received: TokenKind) -> Seq<char> {
    "Expected "@ + expected.label() + " but received "@ + received.label() + " instead\n"@
}

pub open spec fn nud_missing_message(kind: TokenKind) -> Seq<char> {
    "NUD Handler expected for token "@ + kind.label() + "\n"@
}

pub open spec fn led_missing_message(kind: TokenKind) -> Seq<char> {
    "LED Handler expected for token "@ + kind.label() + "\n"@
}

pub open spec fn primary_refused_message(kind: TokenKind) -> Seq<char> {
    "Cannot create primary_expr from "@ + kind.label() + "\n"@
}

pub open spec fn new_without_call_message() -> Seq<char> {
    "Expected call expression after `new`"@
}

pub open spec fn variable_name_message(start: TokenKind, received: TokenKind) -> Seq<char> {
    "Following "@ + start.label() + " expected variable name however instead received "@
        + received.label() + " instead\n"@
}

pub open spec fn missing_type_message() -> Seq<char> {
    "Missing explicit type for variable declaration."@
}

pub open spec fn constant_without_value_message() -> Seq<char> {
    "Cannot define constant variable without providing default value."@
}

pub open spec fn function_body_message() -> Seq<char> {
    "Expected block statement for function body"@
}

pub open spec fn foreach_body_message() -> Seq<char> {
    "Expected block statement in foreach body"@
}

pub open spec fn class_body_message() -> Seq<char> {
    "Expected block statement for class body"@
}

pub open spec fn type_nud_missing_message(kind: TokenKind) -> Seq<char> {
    "type: NUD Handler expected for token "@ + kind.label() + "\n"@
}

pub open spec fn type_led_missing_message(kind: TokenKind) -> Seq<char> {
    "type: LED Handler expected for token "@ + kind.label() + "\n"@
}

/// Consumes the token at `pos` if it has the expected kind.
pub open spec fn expect_at(toks: Seq<TokenView>, pos: int, expected: TokenKind) -> Parsed<TokenView> {
    if toks[pos].kind == expected {
        Ok((toks[pos], pos + 1))
    } else {
        Err((expected_message(expected, toks[pos].kind), pos))
    }
}

// ---------------------------------------------------------------------------
// Expressions
// ---------------------------------------------------------------------------

/// An expression: the NUD handler of the current token, then LED handlers as
/// long as the current token binds tighter than `bp`.
pub open spec fn expr_at(toks: Seq<TokenView>, lu: LookupsModel, pos: int, bp: BindingPower) -> Parsed<ExprModel>
    decreases toks.len() - pos, 3int
    when in_stream(toks, pos)
{
    let kind = toks[pos].kind;
    match (lu.nud)(kind) {
        None => Err((nud_missing_message(kind), pos)),
        Some(h) => match nud_at(h, toks, lu, pos) {
            Err(m) => Err(m),
            Ok((left, next)) => if pos < next < toks.len() {
                led_loop_at(toks, lu, next, left, bp)
            } else {
                Err((Seq::empty(), pos))
            },
        },
    }
}

/// The LED part of [`expr_at`], from `pos` on, with `left` parsed so far.
pub open spec fn led_loop_at(
    toks: Seq<TokenView>,
    lu: LookupsModel,
    pos: int,
    left: ExprModel,
    bp: BindingPower,
) -> Parsed<ExprModel>
    decreases toks.len() - pos, 3int
    when in_stream(toks, pos)
{
    let kind = toks[pos].kind;
    if power_or_default((lu.bp)(kind)).level() > bp.level() {
        match (lu.led)(kind) {
            None => Err((led_missing_message(kind), pos)),
            Some(h) => match led_at(h, toks, lu, pos, left, bp) {
                Err(m) => Err(m),
                Ok((next_left, next)) => if pos < next < toks.len() {
                    led_loop_at(toks, lu, next, next_left, bp)
                } else {
                    Err((Seq::empty(), pos))
                },
            },
        }
    } else {
        Ok((left, pos))
    }
}

/// Runs a NUD handler.
pub open spec fn nud_at(h: NudHandler, toks: Seq<TokenView>, lu: LookupsModel, pos: int) -> Parsed<ExprModel>
    decreases toks.len() - pos, 2int
    when in_stream(toks, pos)
{
    match h {
        NudHandler::Primary => primary_at(toks, pos),
        NudHandler::Prefix => prefix_at(toks, lu, pos),
        NudHandler::ArrayLiteral => array_at(toks, lu, pos),
        NudHandler::Grouping => grouping_at(toks, lu, pos),
        NudHandler::Function => fn_expr_at(toks, lu, pos),
        NudHandler::New => new_at(toks, lu, pos),
    }
}

/// Runs a LED handler.
pub open spec fn led_at(
    h: LedHandler,
    toks: Seq<TokenView>,
    lu: LookupsModel,
    pos: int,
    left: ExprModel,
    bp: BindingPower,
) -> Parsed<ExprModel>
    decreases toks.len() - pos, 2int
    when in_stream(toks, pos)
{
    match h {
        LedHandler::Assignment => assignment_at(toks, lu, pos, left, bp),
        LedHandler::Binary => binary_at(toks, lu, pos, left),
        LedHandler::Range => range_at(toks, lu, pos, left, bp),
        LedHandler::Member => member_at(toks, lu, pos, left, bp),
        LedHandler::Call => call_at(toks, lu, pos, left),
    }
}

/// A number, string or identifier literal.
pub open spec fn primary_at(toks: Seq<TokenView>, pos: int) -> Parsed<ExprModel> {
    let t = toks[pos];
    match t.kind {
        TokenKind::Number => Ok((ExprModel::Number(t.value), pos + 1)),
        TokenKind::String => Ok((ExprModel::String(t.value), pos + 1)),
        TokenKind::Identifier => Ok((ExprModel::Symbol(t.value), pos + 1)),
        other => Err((primary_refused_message(other), pos)),
    }
}

/// The operator at `pos`, then an operand parsed at unary binding power.
pub open spec fn prefix_at(toks: Seq<TokenView>, lu: LookupsModel, pos: int) -> Parsed<ExprModel>
    decreases toks.len() - pos, 1int
    when inside_stream(toks, pos)
{
    match expr_at(toks, lu, pos + 1, BindingPower::Unary) {
        Err(m) => Err(m),
        Ok((right, next)) => Ok((ExprModel::Prefix(toks[pos], Box::new(right)), next)),
    }
}

/// The operator at `pos`, then the assigned value parsed at `bp`.
pub open spec fn assignment_at(
    toks: Seq<TokenView>,
    lu: LookupsModel,
    pos: int,
    left: ExprModel,
    bp: BindingPower,
) -> Parsed<ExprModel>
    decreases toks.len() - pos, 1int
    when inside_stream(toks, pos)
{
    match expr_at(toks, lu, pos + 1, bp) {
        Err(m) => Err(m),
        Ok((rhs, next)) => Ok((ExprModel::Assignment(Box::new(left), Box::new(rhs)), next)),
    }
}

/// The `..` at `pos`, then the upper bound parsed at `bp`.
pub open spec fn range_at(
    toks: Seq<TokenView>,
    lu: LookupsModel,
    pos: int,
    left: ExprModel,
    bp: BindingPower,
) -> Parsed<ExprModel>
    decreases toks.len() - pos, 1int
    when inside_stream(toks, pos)
{
    match expr_at(toks, lu, pos + 1, bp) {
        Err(m) => Err(m),
        Ok((upper, next)) => Ok((ExprModel::Range(Box::new(left), Box::new(upper)), next)),
    }
}

/// The binding power the tables give the operator at `pos`.
pub open spec fn operator_power(toks: Seq<TokenView>, lu: LookupsModel, pos: int) -> BindingPower {
    power_or_default((lu.bp)(toks[pos].kind))
}

/// The operator at `pos`, then the right operand parsed at the operator's own
/// binding power, so that it stops before an operator that binds no tighter.
pub open spec fn binary_at(toks: Seq<TokenView>, lu: LookupsModel, pos: int, left: ExprModel) -> Parsed<ExprModel>
    decreases toks.len() - pos, 1int
    when inside_stream(toks, pos)
{
    match expr_at(toks, lu, pos + 1, operator_power(toks, lu, pos)) {
        Err(m) => Err(m),
        Ok((right, next)) => Ok((ExprModel::Binary(Box::new(left), toks[pos], Box::new(right)), next)),
    }
}

/// `[` index `]` (computed access) or `.` identifier (member access).
pub open spec fn member_at(
    toks: Seq<TokenView>,
    lu: LookupsModel,
    pos: int,
    left: ExprModel,
    bp: BindingPower,
) -> Parsed<ExprModel>
    decreases toks.len() - pos, 1int
    when inside_stream(toks, pos)
{
    if toks[pos].kind == TokenKind::OpenBracket {
        match expr_at(toks, lu, pos + 1, bp) {
            Err(m) => Err(m),
            Ok((rhs, next)) => match expect_at(toks, next, TokenKind::CloseBracket) {
                Err(m) => Err(m),
                Ok((_, after)) => Ok((ExprModel::Computed(Box::new(left), Box::new(rhs)), after)),
            },
        }
    } else {
        match expect_at(toks, pos + 1, TokenKind::Identifier) {
            Err(m) => Err(m),
            Ok((name, after)) => Ok((ExprModel::Member(Box::new(left), name.value), after)),
        }
    }
}

/// `[` elements separated by commas `]`.
pub open spec fn array_at(toks: Seq<TokenView>, lu: LookupsModel, pos: int) -> Parsed<ExprModel>
    decreases toks.len() - pos, 1int
    when in_stream(toks, pos)
{
    match expect_at(toks, pos, TokenKind::OpenBracket) {
        Err(m) => Err(m),
        Ok((_, start)) => match list_items_at(
            toks,
            lu,
            start,
            BindingPower::Logical,
            TokenKind::CloseBracket,
            Seq::empty(),
        ) {
            Err(m) => Err(m),
            Ok((items, end)) => match expect_at(toks, end, TokenKind::CloseBracket) {
                Err(m) => Err(m),
                Ok((_, after)) => Ok((ExprModel::Array(items), after)),
            },
        },
    }
}

/// Comma-separated expressions parsed at `bp` until `close` (or the end of
/// the input), appended to `acc`; the closing token is not consumed.
pub open spec fn list_items_at(
    toks: Seq<TokenView>,
    lu: LookupsModel,
    pos: int,
    bp: BindingPower,
    close: TokenKind,
    acc: Seq<ExprModel>,
) -> Parsed<Seq<ExprModel>>
    decreases toks.len() - pos, 4int
    when in_stream(toks, pos)
{
    if has_tokens_at(toks, pos) && toks[pos].kind != close {
        match expr_at(toks, lu, pos, bp) {
            Err(m) => Err(m),
            Ok((item, next)) => if pos < next < toks.len() {
                if toks[next].kind == TokenKind::Eof || toks[next].kind == close {
                    list_items_at(toks, lu, next, bp, close, acc.push(item))
                } else {
                    match expect_at(toks, next, TokenKind::Comma) {
                        Err(m) => Err(m),
                        Ok((_, after)) => list_items_at(toks, lu, after, bp, close, acc.push(item)),
                    }
                }
            } else {
                Err((Seq::empty(), pos))
            },
        }
    } else {
        Ok((acc, pos))
    }
}

/// `(` expression `)`.
pub open spec fn grouping_at(toks: Seq<TokenView>, lu: LookupsModel, pos: int) -> Parsed<ExprModel>
    decreases toks.len() - pos, 1int
    when in_stream(toks, pos)
{
    match expect_at(toks, pos, TokenKind::OpenParen) {
        Err(m) => Err(m),
        Ok((_, start)) => match expr_at(toks, lu, start, BindingPower::Default) {
            Err(m) => Err(m),
            Ok((e, end)) => match expect_at(toks, end, TokenKind::CloseParen) {
                Err(m) => Err(m),
                Ok((_, after)) => Ok((e, after)),
            },
        },
    }
}

/// The `(` at `pos`, then arguments separated by commas and `)`.
pub open spec fn call_at(toks: Seq<TokenView>, lu: LookupsModel, pos: int, left: ExprModel) -> Parsed<ExprModel>
    decreases toks.len() - pos, 1int
    when inside_stream(toks, pos)
{
    match list_items_at(
        toks,
        lu,
        pos + 1,
        BindingPower::Assignment,
        TokenKind::CloseParen,
        Seq::empty(),
    ) {
        Err(m) => Err(m),
        Ok((args, end)) => match expect_at(toks, end, TokenKind::CloseParen) {
            Err(m) => Err(m),
            Ok((_, after)) => Ok((ExprModel::Call(Box::new(left), args), after)),
        },
    }
}

/// `fn`, then parameters, an optional return type and a body.
pub open spec fn fn_expr_at(toks: Seq<TokenView>, lu: LookupsModel, pos: int) -> Parsed<ExprModel>
    decreases toks.len() - pos, 1int
    when in_stream(toks, pos)
{
    match expect_at(toks, pos, TokenKind::Fn) {
        Err(m) => Err(m),
        Ok((_, start)) => match fn_parts_at(toks, lu, start) {
            Err(m) => Err(m),
            Ok((parts, after)) => Ok((ExprModel::Function(parts.0, parts.2, parts.1), after)),
        },
    }
}

/// The `new` at `pos`, then an expression that must be a call.
pub open spec fn new_at(toks: Seq<TokenView>, lu: LookupsModel, pos: int) -> Parsed<ExprModel>
    decreases toks.len() - pos, 1int
    when inside_stream(toks, pos)
{
    match expr_at(toks, lu, pos + 1, BindingPower::Default) {
        Err(m) => Err(m),
        Ok((e, after)) => match e {
            ExprModel::Call(method, args) => Ok((ExprModel::New(method, args), after)),
            _ => Err((new_without_call_message(), after)),
        },
    }
}

/// `(` parameters `)`, an optional `:` return type, then a block: the
/// parameters, the return type and the statements of the block.
pub open spec fn fn_parts_at(toks: Seq<TokenView>, lu: LookupsModel, pos: int) -> Parsed<
    (Seq<ParameterModel>, Option<TypeModel>, Seq<StmtModel>),
>
    decreases toks.len() - pos, 1int
    when in_stream(toks, pos)
{
    match expect_at(toks, pos, TokenKind::OpenParen) {
        Err(m) => Err(m),
        Ok((_, start)) => match params_at(toks, lu, start, Seq::empty()) {
            Err(m) => Err(m),
            Ok((params, end)) => match expect_at(toks, end, TokenKind::CloseParen) {
                Err(m) => Err(m),
                Ok((_, after_params)) => if pos < after_params < toks.len() {
                    let ret: Parsed<Option<TypeModel>> = if toks[after_params].kind
                        == TokenKind::Colon {
                        match type_at(toks, lu, after_params + 1, BindingPower::Default) {
                            Err(m) => Err(m),
                            Ok((t, after_type)) => Ok((Some(t), after_type)),
                        }
                    } else {
                        Ok((None, after_params))
                    };
                    match ret {
                        Err(m) => Err(m),
                        Ok((ret_type, body_start)) => if pos < body_start < toks.len() {
                            match block_at(toks, lu, body_start) {
                                Err(m) => Err(m),
                                Ok((block, after)) => match block {
                                    StmtModel::Block(body) => Ok(((params, ret_type, body), after)),
                                    _ => Err((function_body_message(), after)),
                                },
                            }
                        } else {
                            Err((Seq::empty(), pos))
                        },
                    }
                } else {
                    Err((Seq::empty(), pos))
                },
            },
        },
    }
}

/// Parameters `name: type` separated by commas until `)` (or the end of the
/// input), appended to `acc`; the `)` is not consumed.
pub open spec fn params_at(toks: Seq<TokenView>, lu: LookupsModel, pos: int, acc: Seq<ParameterModel>) -> Parsed<
    Seq<ParameterModel>,
>
    decreases toks.len() - pos, 4int
    when in_stream(toks, pos)
{
    if has_tokens_at(toks, pos) && toks[pos].kind != TokenKind::CloseParen {
        match expect_at(toks, pos, TokenKind::Identifier) {
            Err(m) => Err(m),
            Ok((name, after_name)) => match expect_at(toks, after_name, TokenKind::Colon) {
                Err(m) => Err(m),
                Ok((_, type_start)) => match type_at(toks, lu, type_start, BindingPower::Default) {
                    Err(m) => Err(m),
                    Ok((ty, next)) => if pos < next < toks.len() {
                        let acc2 = acc.push(ParameterModel { name: name.value, ty });
                        if toks[next].kind == TokenKind::CloseParen || toks[next].kind
                            == TokenKind::Eof {
                            params_at(toks, lu, next, acc2)
                        } else {
                            match expect_at(toks, next, TokenKind::Comma) {
                                Err(m) => Err(m),
                                Ok((_, after)) => params_at(toks, lu, after, acc2),
                            }
                        }
                    } else {
                        Err((Seq::empty(), pos))
                    },
                },
            },
        }
    } else {
        Ok((acc, pos))
    }
}

// ---------------------------------------------------------------------------
// Types
// ---------------------------------------------------------------------------

/// A type: the type NUD handler of the current token; a following token that
/// binds tighter than `bp` is refused, as no type LED handler exists.
pub open spec fn type_at(toks: Seq<TokenView>, lu: LookupsModel, pos: int, bp: BindingPower) -> Parsed<TypeModel>
    decreases toks.len() - pos, 3int
    when in_stream(toks, pos)
{
    let kind = toks[pos].kind;
    match (lu.type_nud)(kind) {
        None => Err((type_nud_missing_message(kind), pos)),
        Some(h) => match type_nud_at(h, toks, lu, pos) {
            Err(m) => Err(m),
            Ok((left, next)) => {
                let following = toks[next].kind;
                if power_or_default((lu.type_bp)(following)).level() > bp.level() {
                    Err((type_led_missing_message(following), next))
                } else {
                    Ok((left, next))
                }
            },
        },
    }
}

/// Runs a type NUD handler.
pub open spec fn type_nud_at(h: TypeNudHandler, toks: Seq<TokenView>, lu: LookupsModel, pos: int) -> Parsed<
    TypeModel,
>
    decreases toks.len() - pos, 2int
    when in_stream(toks, pos)
{
    match h {
        TypeNudHandler::Symbol => symbol_type_at(toks, pos),
        TypeNudHandler::List => list_type_at(toks, lu, pos),
    }
}

/// The name at `pos`.
pub open spec fn symbol_type_at(toks: Seq<TokenView>, pos: int) -> Parsed<TypeModel> {
    Ok((TypeModel::Symbol(toks[pos].value), pos + 1))
}

/// The `[` at `pos`, `]`, then the element type.
pub open spec fn list_type_at(toks: Seq<TokenView>, lu: LookupsModel, pos: int) -> Parsed<TypeModel>
    decreases toks.len() - pos, 1int
    when inside_stream(toks, pos)
{
    match expect_at(toks, pos + 1, TokenKind::CloseBracket) {
        Err(m) => Err(m),
        Ok((_, start)) => match type_at(toks, lu, start, BindingPower::Default) {
            Err(m) => Err(m),
            Ok((inner, after)) => Ok((TypeModel::List(Box::new(inner)), after)),
        },
    }
}

// ---------------------------------------------------------------------------
// Statements
// ---------------------------------------------------------------------------

/// A statement: the statement handler of the current token, or else an
/// expression statement.
pub open spec fn stmt_at(toks: Seq<TokenView>, lu: LookupsModel, pos: int) -> Parsed<StmtModel>
    decreases toks.len() - pos, 6int
    when in_stream(toks, pos)
{
    match (lu.stmt)(toks[pos].kind) {
        Some(h) => stmt_handler_at(h, toks, lu, pos),
        None => expression_stmt_at(toks, lu, pos),
    }
}

/// Runs a statement handler.
pub open spec fn stmt_handler_at(h: StmtHandler, toks: Seq<TokenView>, lu: LookupsModel, pos: int) -> Parsed<
    StmtModel,
>
    decreases toks.len() - pos, 5int
    when in_stream(toks, pos)
{
    match h {
        StmtHandler::Block => block_at(toks, lu, pos),
        StmtHandler::VarDecl => var_decl_at(toks, lu, pos),
        StmtHandler::FunctionDecl => fn_decl_at(toks, lu, pos),
        StmtHandler::If => if_at(toks, lu, pos),
        StmtHandler::Import => import_at(toks, pos),
        StmtHandler::Foreach => foreach_at(toks, lu, pos),
        StmtHandler::ClassDecl => class_at(toks, lu, pos),
        StmtHandler::Return => return_at(toks, lu, pos),
    }
}

/// An expression followed by `;`.
pub open spec fn expression_stmt_at(toks: Seq<TokenView>, lu: LookupsModel, pos: int) -> Parsed<StmtModel>
    decreases toks.len() - pos, 5int
    when in_stream(toks, pos)
{
    match expr_at(toks, lu, pos, BindingPower::Default) {
        Err(m) => Err(m),
        Ok((e, end)) => match expect_at(toks, end, TokenKind::SemiColon) {
            Err(m) => Err(m),
            Ok((_, after)) => Ok((StmtModel::Expression(e), after)),
        },
    }
}

/// `{` statements `}`.
pub open spec fn block_at(toks: Seq<TokenView>, lu: LookupsModel, pos: int) -> Parsed<StmtModel>
    decreases toks.len() - pos, 4int
    when in_stream(toks, pos)
{
    match expect_at(toks, pos, TokenKind::OpenCurly) {
        Err(m) => Err(m),
        Ok((_, start)) => match block_items_at(toks, lu, start, Seq::empty()) {
            Err(m) => Err(m),
            Ok((items, end)) => match expect_at(toks, end, TokenKind::CloseCurly) {
                Err(m) => Err(m),
                Ok((_, after)) => Ok((StmtModel::Block(items), after)),
            },
        },
    }
}

/// Statements until `}` (or the end of the input), appended to `acc`; the `}`
/// is not consumed.
pub open spec fn block_items_at(toks: Seq<TokenView>, lu: LookupsModel, pos: int, acc: Seq<StmtModel>) -> Parsed<
    Seq<StmtModel>,
>
    decreases toks.len() - pos, 7int
    when in_stream(toks, pos)
{
    if has_tokens_at(toks, pos) && toks[pos].kind != TokenKind::CloseCurly {
        match stmt_at(toks, lu, pos) {
            Err(m) => Err(m),
            Ok((s, next)) => if pos < next < toks.len() {
                block_items_at(toks, lu, next, acc.push(s))
            } else {
                Err((Seq::empty(), pos))
            },
        }
    } else {
        Ok((acc, pos))
    }
}

/// `let` or `const`, a name, an optional `:` type, an optional `=` value and
/// `;`; a declaration needs a type or a value, and a constant needs a value.
pub open spec fn var_decl_at(toks: Seq<TokenView>, lu: LookupsModel, pos: int) -> Parsed<StmtModel>
    decreases toks.len() - pos, 4int
    when inside_stream(toks, pos)
{
    let start = toks[pos].kind;
    let constant = start == TokenKind::Const;
    let name_pos = pos + 1;
    if toks[name_pos].kind != TokenKind::Identifier {
        Err((variable_name_message(start, toks[name_pos].kind), name_pos))
    } else {
        let name = toks[name_pos].value;
        let after_name = name_pos + 1;
        let typed: Parsed<Option<TypeModel>> = if toks[after_name].kind == TokenKind::Colon {
            match type_at(toks, lu, after_name + 1, BindingPower::Default) {
                Err(m) => Err(m),
                Ok((t, after_type)) => Ok((Some(t), after_type)),
            }
        } else {
            Ok((None, after_name))
        };
        match typed {
            Err(m) => Err(m),
            Ok((explicit_type, value_pos)) => if pos < value_pos < toks.len() {
                let valued: Parsed<Option<ExprModel>> = if toks[value_pos].kind
                    != TokenKind::SemiColon {
                    if toks[value_pos].kind != TokenKind::Assignment {
                        Err((expected_message(TokenKind::Assignment, toks[value_pos].kind), value_pos))
                    } else {
                        match expr_at(toks, lu, value_pos + 1, BindingPower::Assignment) {
                            Err(m) => Err(m),
                            Ok((e, after_value)) => Ok((Some(e), after_value)),
                        }
                    }
                } else if explicit_type is None {
                    Err((missing_type_message(), value_pos))
                } else {
                    Ok((None, value_pos))
                };
                match valued {
                    Err(m) => Err(m),
                    Ok((assigned_value, end)) => match expect_at(toks, end, TokenKind::SemiColon) {
                        Err(m) => Err(m),
                        Ok((_, after)) => if constant && assigned_value is None {
                            Err((constant_without_value_message(), after))
                        } else {
                            Ok(
                                (
                                    StmtModel::VarDecl(name, constant, assigned_value, explicit_type),
                                    after,
                                ),
                            )
                        },
                    },
                }
            } else {
                Err((Seq::empty(), pos))
            },
        }
    }
}

/// `fn`, a name, then parameters, an optional return type and a body.
pub open spec fn fn_decl_at(toks: Seq<TokenView>, lu: LookupsModel, pos: int) -> Parsed<StmtModel>
    decreases toks.len() - pos, 4int
    when inside_stream(toks, pos)
{
    match expect_at(toks, pos + 1, TokenKind::Identifier) {
        Err(m) => Err(m),
        Ok((name, start)) => match fn_parts_at(toks, lu, start) {
            Err(m) => Err(m),
            Ok((parts, after)) => Ok(
                (StmtModel::FunctionDecl(name.value, parts.0, parts.2, parts.1), after),
            ),
        },
    }
}

/// `if`, a condition, a block, then optionally `else` and either another `if`
/// statement or a block.
pub open spec fn if_at(toks: Seq<TokenView>, lu: LookupsModel, pos: int) -> Parsed<StmtModel>
    decreases toks.len() - pos, 4int
    when inside_stream(toks, pos)
{
    match expr_at(toks, lu, pos + 1, BindingPower::Assignment) {
        Err(m) => Err(m),
        Ok((condition, block_start)) => if pos < block_start < toks.len() {
            match block_at(toks, lu, block_start) {
                Err(m) => Err(m),
                Ok((consequent, after_block)) => if pos < after_block < toks.len() {
                    if toks[after_block].kind == TokenKind::Else {
                        let alt_start = after_block + 1;
                        let alternate = if toks[alt_start].kind == TokenKind::If {
                            if_at(toks, lu, alt_start)
                        } else {
                            block_at(toks, lu, alt_start)
                        };
                        match alternate {
                            Err(m) => Err(m),
                            Ok((alt, after)) => Ok(
                                (
                                    StmtModel::If(
                                        condition,
                                        Box::new(consequent),
                                        Some(Box::new(alt)),
                                    ),
                                    after,
                                ),
                            ),
                        }
                    } else {
                        Ok((StmtModel::If(condition, Box::new(consequent), None), after_block))
                    }
                } else {
                    Err((Seq::empty(), pos))
                },
            }
        } else {
            Err((Seq::empty(), pos))
        },
    }
}

/// `import`, a name, optionally `from` and a string, then `;`; without a
/// `from` clause the module is the name itself.
pub open spec fn import_at(toks: Seq<TokenView>, pos: int) -> Parsed<StmtModel> {
    match expect_at(toks, pos + 1, TokenKind::Identifier) {
        Err(m) => Err(m),
        Ok((name, after_name)) => {
            let from: Parsed<Seq<char>> = if toks[after_name].kind == TokenKind::From {
                match expect_at(toks, after_name + 1, TokenKind::String) {
                    Err(m) => Err(m),
                    Ok((module, after_module)) => Ok((module.value, after_module)),
                }
            } else {
                Ok((name.value, after_name))
            };
            match from {
                Err(m) => Err(m),
                Ok((module, end)) => match expect_at(toks, end, TokenKind::SemiColon) {
                    Err(m) => Err(m),
                    Ok((_, after)) => Ok((StmtModel::Import(name.value, module), after)),
                },
            }
        },
    }
}

/// `foreach`, a name, optionally `,` and an index name, `in`, the iterable
/// expression, then a block.
pub open spec fn foreach_at(toks: Seq<TokenView>, lu: LookupsModel, pos: int) -> Parsed<StmtModel>
    decreases toks.len() - pos, 4int
    when inside_stream(toks, pos)
{
    match expect_at(toks, pos + 1, TokenKind::Identifier) {
        Err(m) => Err(m),
        Ok((value, after_value)) => {
            let indexed: Parsed<bool> = if toks[after_value].kind == TokenKind::Comma {
                match expect_at(toks, after_value + 1, TokenKind::Identifier) {
                    Err(m) => Err(m),
                    Ok((_, after_index)) => Ok((true, after_index)),
                }
            } else {
                Ok((false, after_value))
            };
            match indexed {
                Err(m) => Err(m),
                Ok((index, in_pos)) => match expect_at(toks, in_pos, TokenKind::In) {
                    Err(m) => Err(m),
                    Ok((_, iterable_start)) => if pos < iterable_start < toks.len() {
                        match expr_at(toks, lu, iterable_start, BindingPower::Default) {
                            Err(m) => Err(m),
                            Ok((iterable, body_start)) => if pos < body_start < toks.len() {
                                match block_at(toks, lu, body_start) {
                                    Err(m) => Err(m),
                                    Ok((block, after)) => match block {
                                        StmtModel::Block(body) => Ok(
                                            (
                                                StmtModel::Foreach(
                                                    value.value,
                                                    index,
                                                    iterable,
                                                    body,
                                                ),
                                                after,
                                            ),
                                        ),
                                        _ => Err((foreach_body_message(), after)),
                                    },
                                }
                            } else {
                                Err((Seq::empty(), pos))
                            },
                        }
                    } else {
                        Err((Seq::empty(), pos))
                    },
                },
            }
        },
    }
}

/// `class`, a name, then a block.
pub open spec fn class_at(toks: Seq<TokenView>, lu: LookupsModel, pos: int) -> Parsed<StmtModel>
    decreases toks.len() - pos, 4int
    when inside_stream(toks, pos)
{
    match expect_at(toks, pos + 1, TokenKind::Identifier) {
        Err(m) => Err(m),
        Ok((name, body_start)) => if pos < body_start < toks.len() {
            match block_at(toks, lu, body_start) {
                Err(m) => Err(m),
                Ok((block, after)) => match block {
                    StmtModel::Block(body) => Ok((StmtModel::ClassDecl(name.value, body), after)),
                    _ => Err((class_body_message(), after)),
                },
            }
        } else {
            Err((Seq::empty(), pos))
        },
    }
}

/// `return`, then `;` directly or a value and `;`.
pub open spec fn return_at(toks: Seq<TokenView>, lu: LookupsModel, pos: int) -> Parsed<StmtModel>
    decreases toks.len() - pos, 4int
    when inside_stream(toks, pos)
{
    if toks[pos + 1].kind == TokenKind::SemiColon {
        Ok((StmtModel::Return(None), pos + 2))
    } else {
        match expr_at(toks, lu, pos + 1, BindingPower::Default) {
            Err(m) => Err(m),
            Ok((value, end)) => match expect_at(toks, end, TokenKind::SemiColon) {
                Err(m) => Err(m),
                Ok((_, after)) => Ok((StmtModel::Return(Some(value)), after)),
            },
        }
    }
}

/// Statements until the end of the input, appended to `acc`.
pub open spec fn program_items_at(toks: Seq<TokenView>, lu: LookupsModel, pos: int, acc: Seq<StmtModel>) -> Parsed<
    Seq<StmtModel>,
>
    decreases toks.len() - pos
    when in_stream(toks, pos)
{
    if has_tokens_at(toks, pos) {
        match stmt_at(toks, lu, pos) {
            Err(m) => Err(m),
            Ok((s, next)) => if pos < next < toks.len() {
                program_items_at(toks, lu, next, acc.push(s))
            } else {
                Err((Seq::empty(), pos))
            },
        }
    } else {
        Ok((acc, pos))
    }
}

// ---------------------------------------------------------------------------
// Properties of the grammar
// ---------------------------------------------------------------------------

/// Parsing a program stops exactly at an end-of-file token, and keeps the
/// statements gathered before.
pub proof fn law_program_stops_at_eof(
    toks: Seq<TokenView>,
    lu: LookupsModel,
    pos: int,
    acc: Seq<StmtModel>,
)
    requires
        in_stream(toks, pos),
    ensures
        program_items_at(toks, lu, pos, acc) matches Ok((items, end)) ==> {
            &&& pos <= end < toks.len()
            &&& toks[end].kind == TokenKind::Eof
            &&& acc.is_prefix_of(items)
        },
    decreases toks.len() - pos,
{
    if has_tokens_at(toks, pos) {
        match stmt_at(toks, lu, pos) {
            Err(_) => {},
            Ok((s, next)) => {
                if pos < next < toks.len() {
                    law_program_stops_at_eof(toks, lu, next, acc.push(s));
                    match program_items_at(toks, lu, next, acc.push(s)) {
                        Ok((items, _)) => {
                            assert(acc.is_prefix_of(items)) by {
                                assert forall|i: int| 0 <= i < acc.len() implies acc[i] == items[i] by {
                                    assert(acc.push(s)[i] == acc[i]);
                                }
                            }
                        },
                        Err(_) => {},
                    }
                }
            },
        }
    } else {
        assert(acc.is_prefix_of(acc)) by {
            assert(acc.subrange(0, acc.len() as int) =~= acc);
        }
    }
}

/// An `import` without a `from` clause imports from the module named like the
/// import itself; with one, from the string that follows `from`.
pub proof fn law_import_module(toks: Seq<TokenView>, pos: int)
    ensures
        import_at(toks, pos) matches Ok((stmt, _)) ==> match stmt {
            StmtModel::Import(name, module) => {
                &&& name == toks[pos + 1].value
                &&& toks[pos + 2].kind != TokenKind::From ==> module == name
                &&& toks[pos + 2].kind == TokenKind::From ==> module == toks[pos + 3].value
            },
            _ => false,
        },
{
}

/// A variable declaration that parses has an explicit type or an initial
/// value, and a `const` declaration always has an initial value.
pub proof fn law_declaration_has_type_or_value(toks: Seq<TokenView>, lu: LookupsModel, pos: int)
    requires
        inside_stream(toks, pos),
    ensures
        var_decl_at(toks, lu, pos) matches Ok((stmt, _)) ==> match stmt {
            StmtModel::VarDecl(_, constant, value, explicit_type) => {
                &&& value is Some || explicit_type is Some
                &&& constant ==> value is Some
                &&& constant == (toks[pos].kind == TokenKind::Const)
            },
            _ => false,
        },
{
}

/// A block parses to a block statement.
pub proof fn lemma_block_is_block(toks: Seq<TokenView>, lu: LookupsModel, pos: int)
    requires
        in_stream(toks, pos),
    ensures
        block_at(toks, lu, pos) matches Ok((stmt, _)) ==> stmt is Block,
{
}

/// An `if` statement parses to an `if` statement.
pub proof fn lemma_if_is_if(toks: Seq<TokenView>, lu: LookupsModel, pos: int)
    requires
        inside_stream(toks, pos),
    ensures
        if_at(toks, lu, pos) matches Ok((stmt, _)) ==> stmt is If,
{
}

/// In a parsed `if` statement the consequent is a block, and the alternate,
/// when there is one, is a block or another `if` statement (an `else if`
/// chain).
pub proof fn law_if_branches(toks: Seq<TokenView>, lu: LookupsModel, pos: int)
    requires
        inside_stream(toks, pos),
    ensures
        if_at(toks, lu, pos) matches Ok((stmt, _)) ==> match stmt {
            StmtModel::If(_, consequent, alternate) => {
                &&& *consequent is Block
                &&& alternate matches Some(alt) ==> (*alt is Block || *alt is If)
            },
            _ => false,
        },
{
    match expr_at(toks, lu, pos + 1, BindingPower::Assignment) {
        Err(_) => {},
        Ok((_, block_start)) => {
            if pos < block_start < toks.len() {
                lemma_block_is_block(toks, lu, block_start);
                match block_at(toks, lu, block_start) {
                    Err(_) => {},
                    Ok((_, after_block)) => {
                        if pos < after_block < toks.len() && toks[after_block].kind
                            == TokenKind::Else {
                            let alt_start = after_block + 1;
                            lemma_block_is_block(toks, lu, alt_start);
                            if toks[alt_start].kind == TokenKind::If {
                                lemma_if_is_if(toks, lu, alt_start);
                            }
                        }
                    },
                }
            }
        },
    }
}

/// `new` always wraps a call: a parsed `new` expression is an instantiation.
pub proof fn law_new_wraps_call(toks: Seq<TokenView>, lu: LookupsModel, pos: int)
    requires
        inside_stream(toks, pos),
    ensures
        new_at(toks, lu, pos) matches Ok((e, _)) ==> e is New,
{
}

/// The LED loop ends on a token that does not bind tighter than `bp`.
proof fn lemma_led_loop_stops(
    toks: Seq<TokenView>,
    lu: LookupsModel,
    pos: int,
    left: ExprModel,
    bp: BindingPower,
)
    requires
        in_stream(toks, pos),
    ensures
        led_loop_at(toks, lu, pos, left, bp) matches Ok((_, end)) ==> {
            &&& pos <= end < toks.len()
            &&& power_or_default((lu.bp)(toks[end].kind)).level() <= bp.level()
        },
    decreases toks.len() - pos,
{
    let kind = toks[pos].kind;
    if power_or_default((lu.bp)(kind)).level() > bp.level() {
        match (lu.led)(kind) {
            None => {},
            Some(h) => match led_at(h, toks, lu, pos, left, bp) {
                Err(_) => {},
                Ok((next_left, next)) => {
                    if pos < next < toks.len() {
                        lemma_led_loop_stops(toks, lu, next, next_left, bp);
                    }
                },
            },
        }
    }
}

/// An expression parsed at binding power `bp` stops at the first token whose
/// binding power (the lowest one when the table gives it none) is less than
/// or equal to `bp`: the token after a parsed expression never binds tighter
/// than `bp`.
pub proof fn law_expression_stops_at_weaker_token(
    toks: Seq<TokenView>,
    lu: LookupsModel,
    pos: int,
    bp: BindingPower,
)
    requires
        in_stream(toks, pos),
    ensures
        expr_at(toks, lu, pos, bp) matches Ok((_, end)) ==> {
            &&& pos < end < toks.len()
            &&& power_or_default((lu.bp)(toks[end].kind)).level() <= bp.level()
        },
{
    let kind = toks[pos].kind;
    match (lu.nud)(kind) {
        None => {},
        Some(h) => match nud_at(h, toks, lu, pos) {
            Err(_) => {},
            Ok((left, next)) => {
                if pos < next < toks.len() {
                    lemma_led_loop_stops(toks, lu, next, left, bp);
                }
            },
        },
    }
}

/// A type parsed at binding power `bp` is never followed by a token whose
/// type binding power is greater than `bp`: such a token is reported instead.
pub proof fn law_type_stops_at_weaker_token(
    toks: Seq<TokenView>,
    lu: LookupsModel,
    pos: int,
    bp: BindingPower,
)
    requires
        in_stream(toks, pos),
    ensures
        type_at(toks, lu, pos, bp) matches Ok((_, end)) ==> power_or_default(
            (lu.type_bp)(toks[end].kind),
        ).level() <= bp.level(),
{
}

/// A `foreach` loop declares an index exactly when a comma follows its value
/// name, and the value is named by the token after `foreach`.
pub proof fn law_foreach_index_follows_comma(toks: Seq<TokenView>, lu: LookupsModel, pos: int)
    requires
        inside_stream(toks, pos),
    ensures
        foreach_at(toks, lu, pos) matches Ok((stmt, _)) ==> match stmt {
            StmtModel::Foreach(value, index, _, _) => {
                &&& value == toks[pos + 1].value
                &&& index == (toks[pos + 2].kind == TokenKind::Comma)
            },
            _ => false,
        },
{
}

/// The token `t` is a literal or an identifier that the tables read with the
/// primary NUD handler.
pub open spec fn is_operand(t: TokenView, lu: LookupsModel) -> bool {
    &&& (t.kind == TokenKind::Number || t.kind == TokenKind::String || t.kind
        == TokenKind::Identifier)
    &&& (lu.nud)(t.kind) == Some(NudHandler::Primary)
}

/// The expression a literal or identifier token parses to.
pub open spec fn operand_model(t: TokenView) -> ExprModel {
    match t.kind {
        TokenKind::Number => ExprModel::Number(t.value),
        TokenKind::String => ExprModel::String(t.value),
        _ => ExprModel::Symbol(t.value),
    }
}

/// An operand at `pos` parsed at `bp` is just that operand when the token
/// after it does not bind tighter than `bp`.
proof fn lemma_single_operand(toks: Seq<TokenView>, lu: LookupsModel, pos: int, bp: BindingPower)
    requires
        in_stream(toks, pos + 1),
        0 <= pos,
        is_operand(toks[pos], lu),
        operator_power(toks, lu, pos + 1).level() <= bp.level(),
    ensures
        expr_at(toks, lu, pos, bp) == Ok::<(ExprModel, int), (Seq<char>, int)>(
            (operand_model(toks[pos]), pos + 1),
        ),
{
    assert(nud_at(NudHandler::Primary, toks, lu, pos) == Ok::<(ExprModel, int), (Seq<char>, int)>(
        (operand_model(toks[pos]), pos + 1),
    ));
    assert(led_loop_at(toks, lu, pos + 1, operand_model(toks[pos]), bp) == Ok::<(ExprModel, int), (Seq<char>, int)>((operand_model(toks[pos]), pos + 1)));
}

/// Operator precedence: in `a o1 b o2 c`, where both operators are binary and
/// `o1` binds at least as tightly as `o2` (which binds tighter than the
/// surrounding `bp`), the expression groups to the left, as `(a o1 b) o2 c`,
/// and parsing stops after `c` when the next token binds no tighter than
/// `bp`. So a tighter operator groups first, and operators of equal binding
/// power associate to the left.
pub proof fn law_tighter_operator_groups_first(
    toks: Seq<TokenView>,
    lu: LookupsModel,
    pos: int,
    bp: BindingPower,
)
    requires
        0 <= pos,
        in_stream(toks, pos + 5),
        is_operand(toks[pos], lu),
        is_operand(toks[pos + 2], lu),
        is_operand(toks[pos + 4], lu),
        toks[pos + 1].kind != TokenKind::Eof,
        toks[pos + 3].kind != TokenKind::Eof,
        (lu.led)(toks[pos + 1].kind) == Some(LedHandler::Binary),
        (lu.led)(toks[pos + 3].kind) == Some(LedHandler::Binary),
        operator_power(toks, lu, pos + 3).level() <= operator_power(toks, lu, pos + 1).level(),
        bp.level() < operator_power(toks, lu, pos + 3).level(),
        operator_power(toks, lu, pos + 5).level() <= bp.level(),
    ensures
        expr_at(toks, lu, pos, bp) == Ok::<(ExprModel, int), (Seq<char>, int)>(
            (
                ExprModel::Binary(
                    Box::new(
                        ExprModel::Binary(
                            Box::new(operand_model(toks[pos])),
                            toks[pos + 1],
                            Box::new(operand_model(toks[pos + 2])),
                        ),
                    ),
                    toks[pos + 3],
                    Box::new(operand_model(toks[pos + 4])),
                ),
                pos + 5,
            ),
        ),
{
    let a = operand_model(toks[pos]);
    let b = operand_model(toks[pos + 2]);
    let c = operand_model(toks[pos + 4]);
    let ab = ExprModel::Binary(Box::new(a), toks[pos + 1], Box::new(b));
    let abc = ExprModel::Binary(Box::new(ab), toks[pos + 3], Box::new(c));
    let p1 = operator_power(toks, lu, pos + 1);
    let p2 = operator_power(toks, lu, pos + 3);
    lemma_single_operand(toks, lu, pos + 2, p1);
    lemma_single_operand(toks, lu, pos + 4, p2);
    assert(led_at(LedHandler::Binary, toks, lu, pos + 1, a, bp) == Ok::<(ExprModel, int), (Seq<char>, int)>((ab, pos + 3)));
    assert(led_at(LedHandler::Binary, toks, lu, pos + 3, ab, bp) == Ok::<(ExprModel, int), (Seq<char>, int)>((abc, pos + 5)));
    assert(led_loop_at(toks, lu, pos + 5, abc, bp) == Ok::<(ExprModel, int), (Seq<char>, int)>(
        (abc, pos + 5),
    ));
    assert(led_loop_at(toks, lu, pos + 3, ab, bp) == Ok::<(ExprModel, int), (Seq<char>, int)>(
        (abc, pos + 5),
    ));
    assert(led_loop_at(toks, lu, pos + 1, a, bp) == Ok::<(ExprModel, int), (Seq<char>, int)>(
        (abc, pos + 5),
    ));
    assert(nud_at(NudHandler::Primary, toks, lu, pos) == Ok::<(ExprModel, int), (Seq<char>, int)>(
        (a, pos + 1),
    ));
}

/// A parenthesized expression holds its whole contents: when the tokens after
/// `(` parse, at the lowest binding power, to an expression `e` that is
/// followed by `)`, the group `( e )` parses to `e` itself and ends after the
/// `)`. So `(a + b) * c` multiplies the whole sum.
pub proof fn law_group_holds_its_contents(toks: Seq<TokenView>, lu: LookupsModel, pos: int)
    requires
        in_stream(toks, pos),
        toks[pos].kind == TokenKind::OpenParen,
        expr_at(toks, lu, pos + 1, BindingPower::Default) matches Ok((_, end)) && 0 <= end
            < toks.len() && toks[end].kind == TokenKind::CloseParen,
    ensures
        expr_at(toks, lu, pos + 1, BindingPower::Default) matches Ok((e, end)) && {
            &&& grouping_at(toks, lu, pos) == Ok::<(ExprModel, int), (Seq<char>, int)>(
                (e, end + 1),
            )
            &&& nud_at(NudHandler::Grouping, toks, lu, pos) == Ok::<
                (ExprModel, int),
                (Seq<char>, int),
            >((e, end + 1))
        },
{
}

/// A call argument is a whole expression up to the next `,` or `)`, parsed at
/// assignment binding power: when the tokens after `(` parse at that power to
/// an expression `e` followed by `)`, the call has exactly the one argument
/// `e`. So `f(x + 1)` has the single argument `x + 1`.
pub proof fn law_call_argument_is_whole_expression(
    toks: Seq<TokenView>,
    lu: LookupsModel,
    pos: int,
    left: ExprModel,
)
    requires
        in_stream(toks, pos),
        toks[pos].kind == TokenKind::OpenParen,
        toks[pos + 1].kind != TokenKind::CloseParen,
        toks[pos + 1].kind != TokenKind::Eof,
        expr_at(toks, lu, pos + 1, BindingPower::Assignment) matches Ok((_, end)) && 0 <= end
            < toks.len() && toks[end].kind == TokenKind::CloseParen,
    ensures
        expr_at(toks, lu, pos + 1, BindingPower::Assignment) matches Ok((e, end))
            && call_at(toks, lu, pos, left) == Ok::<(ExprModel, int), (Seq<char>, int)>(
            (ExprModel::Call(Box::new(left), seq![e]), end + 1),
        ),
{
    law_expression_stops_at_weaker_token(toks, lu, pos + 1, BindingPower::Assignment);
    match expr_at(toks, lu, pos + 1, BindingPower::Assignment) {
        Ok((e, end)) => {
            let items = Seq::<ExprModel>::empty().push(e);
            assert(items =~= seq![e]);
            assert(list_items_at(toks, lu, end, BindingPower::Assignment, TokenKind::CloseParen, items)
                == Ok::<(Seq<ExprModel>, int), (Seq<char>, int)>((items, end)));
            assert(list_items_at(
                toks,
                lu,
                pos + 1,
                BindingPower::Assignment,
                TokenKind::CloseParen,
                Seq::empty(),
            ) == Ok::<(Seq<ExprModel>, int), (Seq<char>, int)>((items, end)));
        },
        Err(_) => {},
    }
}

/// A declaration's initial value is the whole expression between `=` and
/// `;`, parsed at assignment binding power: for `let x = e;` (or `const`),
/// where the tokens after `=` parse at that power to `e` followed by `;`, the
/// declaration has the value `e` and no type. So logical and comparison
/// expressions are accepted as initial values.
pub proof fn law_declaration_value_is_whole_expression(
    toks: Seq<TokenView>,
    lu: LookupsModel,
    pos: int,
)
    requires
        in_stream(toks, pos),
        toks[pos].kind == TokenKind::Let || toks[pos].kind == TokenKind::Const,
        toks[pos + 1].kind == TokenKind::Identifier,
        toks[pos + 2].kind == TokenKind::Assignment,
        expr_at(toks, lu, pos + 3, BindingPower::Assignment) matches Ok((_, end)) && 0 <= end
            < toks.len() && toks[end].kind == TokenKind::SemiColon,
    ensures
        expr_at(toks, lu, pos + 3, BindingPower::Assignment) matches Ok((e, end))
            && var_decl_at(toks, lu, pos) == Ok::<(StmtModel, int), (Seq<char>, int)>(
            (
                StmtModel::VarDecl(
                    toks[pos + 1].value,
                    toks[pos].kind == TokenKind::Const,
                    Some(e),
                    None,
                ),
                end + 1,
            ),
        ),
{
}

/// Operator precedence, the other way round: in `a o1 b o2 c`, where both
/// operators are binary and `o2` binds strictly tighter than `o1` (which
/// binds tighter than the surrounding `bp`), the tighter operator takes `b`:
/// the expression is `a o1 (b o2 c)`, ending after `c` when the next token
/// binds no tighter than `bp`. So `a + b / c` divides before it adds.
pub proof fn law_tighter_operator_on_the_right_groups_inside(
    toks: Seq<TokenView>,
    lu: LookupsModel,
    pos: int,
    bp: BindingPower,
)
    requires
        0 <= pos,
        in_stream(toks, pos + 5),
        is_operand(toks[pos], lu),
        is_operand(toks[pos + 2], lu),
        is_operand(toks[pos + 4], lu),
        toks[pos + 1].kind != TokenKind::Eof,
        toks[pos + 3].kind != TokenKind::Eof,
        (lu.led)(toks[pos + 1].kind) == Some(LedHandler::Binary),
        (lu.led)(toks[pos + 3].kind) == Some(LedHandler::Binary),
        operator_power(toks, lu, pos + 1).level() < operator_power(toks, lu, pos + 3).level(),
        bp.level() < operator_power(toks, lu, pos + 1).level(),
        operator_power(toks, lu, pos + 5).level() <= bp.level(),
    ensures
        expr_at(toks, lu, pos, bp) == Ok::<(ExprModel, int), (Seq<char>, int)>(
            (
                ExprModel::Binary(
                    Box::new(operand_model(toks[pos])),
                    toks[pos + 1],
                    Box::new(
                        ExprModel::Binary(
                            Box::new(operand_model(toks[pos + 2])),
                            toks[pos + 3],
                            Box::new(operand_model(toks[pos + 4])),
                        ),
                    ),
                ),
                pos + 5,
            ),
        ),
{
    let a = operand_model(toks[pos]);
    let b = operand_model(toks[pos + 2]);
    let c = operand_model(toks[pos + 4]);
    let bc = ExprModel::Binary(Box::new(b), toks[pos + 3], Box::new(c));
    let abc = ExprModel::Binary(Box::new(a), toks[pos + 1], Box::new(bc));
    let p1 = operator_power(toks, lu, pos + 1);
    let p2 = operator_power(toks, lu, pos + 3);
    lemma_single_operand(toks, lu, pos + 4, p2);
    assert(led_at(LedHandler::Binary, toks, lu, pos + 3, b, p1) == Ok::<
        (ExprModel, int),
        (Seq<char>, int),
    >((bc, pos + 5)));
    assert(led_loop_at(toks, lu, pos + 5, bc, p1) == Ok::<(ExprModel, int), (Seq<char>, int)>(
        (bc, pos + 5),
    ));
    assert(led_loop_at(toks, lu, pos + 3, b, p1) == Ok::<(ExprModel, int), (Seq<char>, int)>(
        (bc, pos + 5),
    ));
    assert(nud_at(NudHandler::Primary, toks, lu, pos + 2) == Ok::<
        (ExprModel, int),
        (Seq<char>, int),
    >((b, pos + 3)));
    assert(expr_at(toks, lu, pos + 2, p1) == Ok::<(ExprModel, int), (Seq<char>, int)>(
        (bc, pos + 5),
    ));
    assert(led_at(LedHandler::Binary, toks, lu, pos + 1, a, bp) == Ok::<
        (ExprModel, int),
        (Seq<char>, int),
    >((abc, pos + 5)));
    assert(led_loop_at(toks, lu, pos + 5, abc, bp) == Ok::<(ExprModel, int), (Seq<char>, int)>(
        (abc, pos + 5),
    ));
    assert(led_loop_at(toks, lu, pos + 1, a, bp) == Ok::<(ExprModel, int), (Seq<char>, int)>(
        (abc, pos + 5),
    ));
    assert(nud_at(NudHandler::Primary, toks, lu, pos) == Ok::<(ExprModel, int), (Seq<char>, int)>(
        (a, pos + 1),
    ));
}

/// The operand of a prefix operator is the expression parsed at unary binding
/// power, so it stops before any binary operator: `-a * b` is `(-a) * b`.
pub proof fn law_prefix_operand_binds_at_unary(toks: Seq<TokenView>, lu: LookupsModel, pos: int)
    requires
        inside_stream(toks, pos),
    ensures
        prefix_at(toks, lu, pos) matches Ok((r, end)) ==> (expr_at(
            toks,
            lu,
            pos + 1,
            BindingPower::Unary,
        ) matches Ok((e, end2)) && end2 == end && r == ExprModel::Prefix(toks[pos], Box::new(e))),
{
}

/// The value of an assignment, the upper bound of a range and the index of a
/// computed access are parsed at the binding power of the surrounding
/// expression.
pub proof fn law_right_hand_sides_bind_at_the_context_power(
    toks: Seq<TokenView>,
    lu: LookupsModel,
    pos: int,
    left: ExprModel,
    bp: BindingPower,
)
    requires
        inside_stream(toks, pos),
    ensures
        assignment_at(toks, lu, pos, left, bp) matches Ok((r, end)) ==> (expr_at(
            toks,
            lu,
            pos + 1,
            bp,
        ) matches Ok((v, end2)) && end2 == end && r == ExprModel::Assignment(
            Box::new(left),
            Box::new(v),
        )),
        range_at(toks, lu, pos, left, bp) matches Ok((r, end)) ==> (expr_at(
            toks,
            lu,
            pos + 1,
            bp,
        ) matches Ok((v, end2)) && end2 == end && r == ExprModel::Range(
            Box::new(left),
            Box::new(v),
        )),
        toks[pos].kind == TokenKind::OpenBracket ==> (member_at(toks, lu, pos, left, bp) matches Ok(
            (r, end),
        ) ==> (expr_at(toks, lu, pos + 1, bp) matches Ok((v, end2)) && end2 + 1 == end
            && toks[end2].kind == TokenKind::CloseBracket && r == ExprModel::Computed(
            Box::new(left),
            Box::new(v),
        ))),
{
}

/// `new` is followed by an expression parsed at the lowest binding power,
/// which must be a call; the instantiation is that call.
pub proof fn law_new_takes_a_whole_call(toks: Seq<TokenView>, lu: LookupsModel, pos: int)
    requires
        inside_stream(toks, pos),
    ensures
        new_at(toks, lu, pos) matches Ok((r, end)) ==> (expr_at(
            toks,
            lu,
            pos + 1,
            BindingPower::Default,
        ) matches Ok((ExprModel::Call(m, args), end2)) && end2 == end && r == ExprModel::New(
            m,
            args,
        )),
{
}

/// An array element is a whole expression parsed at logical binding power up
/// to the next `,` or `]`: when the tokens after `[` parse at that power to
/// `e` followed by `]`, the array holds exactly `e`.
pub proof fn law_array_element_is_whole_expression(toks: Seq<TokenView>, lu: LookupsModel, pos: int)
    requires
        in_stream(toks, pos),
        toks[pos].kind == TokenKind::OpenBracket,
        toks[pos + 1].kind != TokenKind::CloseBracket,
        toks[pos + 1].kind != TokenKind::Eof,
        expr_at(toks, lu, pos + 1, BindingPower::Logical) matches Ok((_, end)) && 0 <= end
            < toks.len() && toks[end].kind == TokenKind::CloseBracket,
    ensures
        expr_at(toks, lu, pos + 1, BindingPower::Logical) matches Ok((e, end))
            && array_at(toks, lu, pos) == Ok::<(ExprModel, int), (Seq<char>, int)>(
            (ExprModel::Array(seq![e]), end + 1),
        ),
{
    law_expression_stops_at_weaker_token(toks, lu, pos + 1, BindingPower::Logical);
    match expr_at(toks, lu, pos + 1, BindingPower::Logical) {
        Ok((e, end)) => {
            let items = Seq::<ExprModel>::empty().push(e);
            assert(items =~= seq![e]);
            assert(list_items_at(toks, lu, end, BindingPower::Logical, TokenKind::CloseBracket, items)
                == Ok::<(Seq<ExprModel>, int), (Seq<char>, int)>((items, end)));
            assert(list_items_at(
                toks,
                lu,
                pos + 1,
                BindingPower::Logical,
                TokenKind::CloseBracket,
                Seq::empty(),
            ) == Ok::<(Seq<ExprModel>, int), (Seq<char>, int)>((items, end)));
        },
        Err(_) => {},
    }
}

/// The condition of an `if` is the expression after `if` parsed at
/// assignment binding power.
pub proof fn law_if_condition_binds_at_assignment(toks: Seq<TokenView>, lu: LookupsModel, pos: int)
    requires
        inside_stream(toks, pos),
    ensures
        if_at(toks, lu, pos) matches Ok((StmtModel::If(c, _, _), _)) ==> (expr_at(
            toks,
            lu,
            pos + 1,
            BindingPower::Assignment,
        ) matches Ok((c2, _)) && c2 == c),
{
}

/// The iterable of a `foreach` is the expression after `in` parsed at the
/// lowest binding power.
pub proof fn law_foreach_iterable_is_whole_expression(
    toks: Seq<TokenView>,
    lu: LookupsModel,
    pos: int,
)
    requires
        inside_stream(toks, pos),
    ensures
        foreach_at(toks, lu, pos) matches Ok((StmtModel::Foreach(_, index, it, _), _)) ==> (
        expr_at(toks, lu, if index { pos + 5 } else { pos + 3 }, BindingPower::Default) matches Ok(
            (it2, _),
        ) && it2 == it),
{
}

/// An expression statement and the value of a `return` are whole
/// expressions, parsed at the lowest binding power and closed by `;`.
pub proof fn law_statement_expressions_are_whole(toks: Seq<TokenView>, lu: LookupsModel, pos: int)
    requires
        inside_stream(toks, pos),
    ensures
        expression_stmt_at(toks, lu, pos) matches Ok((StmtModel::Expression(e), end)) ==> (
        expr_at(toks, lu, pos, BindingPower::Default) matches Ok((e2, end2)) && e2 == e && end2
            + 1 == end && toks[end2].kind == TokenKind::SemiColon),
        return_at(toks, lu, pos) matches Ok((StmtModel::Return(Some(e)), end)) ==> (expr_at(
            toks,
            lu,
            pos + 1,
            BindingPower::Default,
        ) matches Ok((e2, end2)) && e2 == e && end2 + 1 == end && toks[end2].kind
            == TokenKind::SemiColon),
{
}

/// Type annotations are parsed at the lowest binding power: the element type
/// of `[]T`, and the explicit type of a declaration after its `:`.
pub proof fn law_types_are_whole(toks: Seq<TokenView>, lu: LookupsModel, pos: int)
    requires
        inside_stream(toks, pos),
    ensures
        list_type_at(toks, lu, pos) matches Ok((TypeModel::List(inner), end)) ==> (type_at(
            toks,
            lu,
            pos + 2,
            BindingPower::Default,
        ) matches Ok((t, end2)) && t == *inner && end2 == end),
        var_decl_at(toks, lu, pos) matches Ok((StmtModel::VarDecl(_, _, _, Some(t)), _)) ==> (
        toks[pos + 2].kind == TokenKind::Colon && (type_at(
            toks,
            lu,
            pos + 3,
            BindingPower::Default,
        ) matches Ok((t2, _)) && t2 == t)),
{
}

} // verus!
