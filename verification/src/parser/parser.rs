//! The parser state and the top-level entry point.

use crate::ast::{stmts_model, BlockStmt, Stmt, StmtModel};
use crate::error::RelixError;
use crate::lexer::{
    law_token_stream_ends_with_eof, spec_tokenize, token_views, tokenize, Token, TokenKind,
    TokenView,
};
use crate::lookups::{
    create_token_lookups, create_type_token_lookups, standard_bp, standard_led, standard_lookups,
    standard_nud, standard_stmt, standard_type_bp, standard_type_nud, Lookups,
};
use crate::parser::grammar::{
    eof_terminated, expect_at, expected_message, law_program_stops_at_eof, program_items_at,
};
use crate::stmts::parse_stmt;
use vstd::prelude::*;

verus! {

/// The outcome of an executable parsing routine, in the terms of the
/// grammar: the model of the parsed value and the position after it, or the
/// error message and the position the cursor was left at.
pub open spec fn outcome_of<T: View>(r: Result<T, RelixError>, pos: usize) -> Result<
    (T::V, int),
    (Seq<char>, int),
> {
    match r {
        Ok(v) => Ok((v@, pos as int)),
        Err(e) => Err((e@, pos as int)),
    }
}

/// The core parser state.
///
/// Holds the token stream produced by the lexer and a cursor tracking the
/// current position. Provides methods for advancing through tokens, peeking at
/// upcoming tokens, and asserting expected token kinds.
///
/// The `Parser` struct is usually not constructed directly; use the
/// [`parse`](crate::parser::parse) function instead.
#[derive(Debug)]
pub struct Parser {
    /// The token stream.
    pub tokens: Vec<Token>,
    /// The current position in the token stream.
    pub pos: usize,
}

impl Parser {
    /// The models of the tokens.
    pub open spec fn token_stream(&self) -> Seq<TokenView> {
        token_views(self.tokens@)
    }

    /// The token stream is closed by an end-of-file token, as the lexer
    /// produces it, and the cursor is on one of its tokens.
    pub open spec fn well_formed(&self) -> bool {
        &&& eof_terminated(self.token_stream())
        &&& self.pos < self.tokens@.len()
    }

    /// The parser and the lookup tables are ready for a parsing routine.
    pub open spec fn ready(&self, lu: &Lookups) -> bool {
        &&& self.well_formed()
        &&& lu.well_formed()
        &&& lu@.safe_at_eof()
    }

    /// The cursor is not on the end-of-file token.
    pub open spec fn on_token(&self) -> bool {
        self.tokens@[self.pos as int].kind != TokenKind::Eof
    }

    /// The parser went from `self` to `after`: same tokens, still well formed.
    pub open spec fn steps_to(&self, after: &Parser) -> bool {
        &&& after.tokens@ == self.tokens@
        &&& after.well_formed()
    }

    /// Returns a reference to the token at the current position.
    pub fn current_token(&self) -> (t: &Token)
        requires
            self.pos < self.tokens@.len(),
        ensures
            *t == self.tokens@[self.pos as int],
    {
        &self.tokens[self.pos]
    }

    /// Advances the cursor by one position and returns the consumed token.
    pub fn advance(&mut self) -> (t: Token)
        requires
            old(self).pos < old(self).tokens@.len(),
        ensures
            t@ == old(self).tokens@[old(self).pos as int]@,
            final(self).pos == old(self).pos + 1,
            final(self).tokens@ == old(self).tokens@,
    {
        let tk = self.tokens[self.pos].duplicate();
        proof {
            assert(self.tokens@.len() == self.tokens.len());
        }
        self.pos = self.pos + 1;
        tk
    }

    /// Returns `true` if there are more tokens to consume (i.e., the cursor has
    /// not yet reached the end-of-file token).
    pub fn has_tokens(&self) -> (more: bool)
        ensures
            more == (self.pos < self.tokens@.len() && self.tokens@[self.pos as int].kind
                != TokenKind::Eof),
    {
        self.pos < self.tokens.len() && self.current_token_kind() != TokenKind::Eof
    }

    /// Returns a reference to the next token (one position ahead of the cursor).
    pub fn next_token(&self) -> (t: &Token)
        requires
            self.pos + 1 < self.tokens@.len(),
        ensures
            *t == self.tokens@[self.pos + 1],
    {
        proof {
            assert(self.tokens@.len() == self.tokens.len());
        }
        &self.tokens[self.pos + 1]
    }

    /// Returns a reference to the previous token (one position behind the cursor).
    pub fn previous_token(&self) -> (t: &Token)
        requires
            0 < self.pos <= self.tokens@.len(),
        ensures
            *t == self.tokens@[self.pos - 1],
    {
        &self.tokens[self.pos - 1]
    }

    /// Returns the [`TokenKind`] of the token at the current position.
    pub fn current_token_kind(&self) -> (kind: TokenKind)
        requires
            self.pos < self.tokens@.len(),
        ensures
            kind == self.tokens@[self.pos as int].kind,
    {
        self.tokens[self.pos].kind
    }

    /// Asserts that the current token matches `expected`, returning it if so.
    ///
    /// If the token does not match, returns either the provided error
    /// message or a default message indicating what was expected vs. received.
    pub fn expect_error(&mut self, expected: TokenKind, err: Option<String>) -> (r: Result<
        Token,
        RelixError,
    >)
        requires
            old(self).pos < old(self).tokens@.len(),
        ensures
            final(self).tokens@ == old(self).tokens@,
            match r {
                Ok(t) => {
                    &&& old(self).tokens@[old(self).pos as int].kind == expected
                    &&& t@ == old(self).tokens@[old(self).pos as int]@
                    &&& final(self).pos == old(self).pos + 1
                },
                Err(e) => {
                    &&& old(self).tokens@[old(self).pos as int].kind != expected
                    &&& final(self).pos == old(self).pos
                    &&& e@ == match err {
                        Some(m) => m@,
                        None => expected_message(
                            expected,
                            old(self).tokens@[old(self).pos as int].kind,
                        ),
                    }
                },
            },
    {
        let kind = self.current_token_kind();
        if kind != expected {
            let msg = match err {
                Some(m) => m,
                None => {
                    let mut m = String::from_str("Expected ");
                    m.append(expected.as_str());
                    m.append(" but received ");
                    m.append(kind.as_str());
                    m.append(" instead\n");
                    m
                },
            };
            return Err(RelixError::from_message(msg));
        }
        Ok(self.advance())
    }

    /// Asserts that the current token matches `expected`, returning it if so.
    ///
    /// Returns an error with a default message if the token does not match.
    pub fn expect(&mut self, expected: TokenKind) -> (r: Result<Token, RelixError>)
        requires
            old(self).pos < old(self).tokens@.len(),
        ensures
            final(self).tokens@ == old(self).tokens@,
            expect_at(old(self).token_stream(), old(self).pos as int, expected) == outcome_of(
                r,
                final(self).pos,
            ),
            r is Err ==> final(self).pos == old(self).pos,
            r is Ok ==> final(self).pos == old(self).pos + 1,
    {
        self.expect_error(expected, None)
    }
}

/// An error whose message is `prefix`, the label of `kind` and a newline.
pub(crate) fn kind_error(prefix: &str, kind: TokenKind) -> (err: RelixError)
    ensures
        err@ == prefix@ + kind.label() + "\n"@,
{
    let mut message = String::from_str(prefix);
    message.append(kind.as_str());
    message.append("\n");
    RelixError::from_message(message)
}

/// The outcome of parsing `source`: the statements of the program, or the
/// message of the first error, of the lexer or of the parser.
pub open spec fn spec_parse(source: Seq<char>) -> Result<Seq<StmtModel>, Seq<char>> {
    match spec_tokenize(source) {
        Err(m) => Err(m),
        Ok(toks) => match program_items_at(toks, standard_lookups(), 0, Seq::empty()) {
            Ok((items, _)) => Ok(items),
            Err((m, _)) => Err(m),
        },
    }
}

/// Parses a Relix source string into an abstract syntax tree.
///
/// This is the main entry point for the parser. It tokenizes the input, sets up
/// the Pratt parsing lookup tables, and then parses statements until the entire
/// input has been consumed.
///
/// # Returns
///
/// A [`BlockStmt`] containing all top-level statements in the source.
///
/// # Errors
///
/// Returns a [`RelixError`] if the lexer encounters an unrecognized token, or
/// if the parser encounters a syntax error (e.g., an unexpected token).
pub fn parse(source: &str) -> (r: Result<BlockStmt, RelixError>)
    ensures
        spec_parse(source@) == match r {
            Ok(block) => Ok(block@),
            Err(e) => Err(e@),
        },
{
    let tokens = match tokenize(source) {
        Ok(ts) => ts,
        Err(e) => {
            return Err(e);
        },
    };
    let mut lookups = Lookups::new();
    let ghost empty = lookups;
    create_token_lookups(&mut lookups);
    let ghost with_exprs = lookups;
    create_type_token_lookups(&mut lookups);
    let mut p = Parser { tokens, pos: 0 };
    let ghost toks = p.token_stream();
    proof {
        law_token_stream_ends_with_eof(source@);
        assert forall|k: TokenKind|
            #![trigger lookups.bp_of(k)]
            #![trigger lookups.nud_of(k)]
            #![trigger lookups.led_of(k)]
            #![trigger lookups.stmt_of(k)]
            #![trigger lookups.type_bp_of(k)]
            #![trigger lookups.type_nud_of(k)]
            {
                &&& lookups.bp_of(k) == standard_bp(k, None)
                &&& lookups.nud_of(k) == standard_nud(k, None)
                &&& lookups.led_of(k) == standard_led(k, None)
                &&& lookups.stmt_of(k) == standard_stmt(k, None)
                &&& lookups.type_bp_of(k) == standard_type_bp(k, None)
                &&& lookups.type_nud_of(k) == standard_type_nud(k, None)
            } by {
            assert(empty.bp_of(k) is None);
            assert(with_exprs.bp_of(k) == standard_bp(k, empty.bp_of(k)));
            assert(with_exprs.type_bp_of(k) == empty.type_bp_of(k));
            assert(lookups.bp_of(k) == with_exprs.bp_of(k));
            assert(lookups.type_bp_of(k) == standard_type_bp(k, with_exprs.type_bp_of(k)));
            assert(lookups.stmt_of(k) == with_exprs.stmt_of(k));
        }
        assert(lookups@.bp =~= standard_lookups().bp);
        assert(lookups@.nud =~= standard_lookups().nud);
        assert(lookups@.led =~= standard_lookups().led);
        assert(lookups@.stmt =~= standard_lookups().stmt);
        assert(lookups@.type_bp =~= standard_lookups().type_bp);
        assert(lookups@.type_nud =~= standard_lookups().type_nud);
        assert(lookups@ == standard_lookups());
    }
    let mut body: Vec<Stmt> = Vec::new();
    proof {
        assert(stmts_model(body@) =~= Seq::empty());
    }
    while p.has_tokens()
        invariant
            p.ready(&lookups),
            lookups@ == standard_lookups(),
            p.token_stream() == toks,
            spec_tokenize(source@) == Ok::<Seq<TokenView>, Seq<char>>(toks),
            program_items_at(toks, standard_lookups(), 0, Seq::empty()) == program_items_at(
                toks,
                standard_lookups(),
                p.pos as int,
                stmts_model(body@),
            ),
        decreases p.tokens@.len() - p.pos,
    {
        let ghost before = body@;
        let ghost here = p.pos as int;
        let s = match parse_stmt(&mut p, &lookups) {
            Ok(s) => s,
            Err(e) => {
                assert(program_items_at(toks, standard_lookups(), here, stmts_model(before))
                    == Err::<(Seq<StmtModel>, int), (Seq<char>, int)>((e@, p.pos as int)));
                return Err(e);
            },
        };
        body.push(s);
        proof {
            assert(body@.drop_last() =~= before);
        }
    }
    Ok(BlockStmt { body })
}

/// A program that parses has been read up to the end of its input: parsing
/// stops at the end-of-file token that closes the token stream, and at no
/// token before it.
pub proof fn law_parse_reads_whole_program(source: Seq<char>)
    ensures
        spec_tokenize(source) matches Ok(toks) ==> (program_items_at(
            toks,
            standard_lookups(),
            0,
            Seq::empty(),
        ) matches Ok((_, end)) ==> end == toks.len() - 1),
{
    law_token_stream_ends_with_eof(source);
    match spec_tokenize(source) {
        Ok(toks) => {
            law_program_stops_at_eof(toks, standard_lookups(), 0, Seq::empty());
        },
        Err(_) => {},
    }
}

} // verus!
