//! Binding powers and handler registration for the Pratt parser.
//!
//! This module defines the [`Lookups`] struct, which holds the tables that map
//! token kinds to handlers and binding powers. The Pratt parser uses these
//! tables to decide how to parse each token it encounters.
//!
//! # Binding powers
//!
//! [`BindingPower`] controls operator precedence. Higher binding power means
//! tighter binding. The parser uses binding powers to decide when to stop
//! consuming tokens in a Pratt parsing loop.
//!
//! # Handler kinds
//!
//! - **NUD** (null denotation) — handles tokens that appear at the start of an
//!   expression (e.g., literals, prefix operators, grouping).
//! - **LED** (left denotation) — handles tokens that appear after a left-hand
//!   expression (e.g., binary operators, member access, function calls).
//! - **Stmt** — handles tokens that start a statement (e.g., `let`, `fn`, `if`).
//!
//! Each table names one of the library's handlers ([`NudHandler`],
//! [`LedHandler`], [`StmtHandler`], [`TypeNudHandler`]); the parser runs the
//! handler a table entry names. The language has no handler for a token that
//! follows a left-hand type, so the type tables hold binding powers and NUD
//! handlers only.
//!
//! # Extending the parser
//!
//! To change the syntax, register handlers for further token kinds via the
//! [`Lookups`] methods, in [`create_token_lookups`] or
//! [`create_type_token_lookups`]; a new kind of construct is a new variant of
//! the handler enums together with its parsing routine.

use crate::lexer::{TokenKind, TOKEN_KIND_COUNT};
use std::collections::HashMap;
use vstd::prelude::*;

verus! {

broadcast use vstd::std_specs::hash::group_hash_axioms;

/// Binding power levels for Pratt parsing.
///
/// Binding power controls operator precedence. Higher values bind more tightly.
/// The parser uses these levels to decide when to stop consuming tokens in a
/// Pratt parsing loop.
#[derive(Debug, Clone, Copy, PartialEq, Eq, PartialOrd, Ord, Structural)]
pub enum BindingPower {
    /// Default / lowest binding power.
    Default,
    /// Comma operator.
    Comma,
    /// Assignment operators (`=`, `+=`, `-=`, etc.).
    Assignment,
    /// Logical operators (`&&`, `||`) and range (`..`).
    Logical,
    /// Relational / comparison operators (`<`, `==`, etc.).
    Relational,
    /// Additive operators (`+`, `-`).
    Additive,
    /// Multiplicative operators (`*`, `/`, `%`).
    Multiplicative,
    /// Unary / prefix operators (`-`, `!`, `typeof`).
    Unary,
    /// Function call `()`.
    Call,
    /// Member access `.` and computed access `[]`.
    Member,
    /// Primary expressions (literals, identifiers, grouping).
    Primary,
}

impl BindingPower {
    /// The position of the level in the order from [`BindingPower::Default`]
    /// (0) up to [`BindingPower::Primary`] (10).
    pub open spec fn level(self) -> nat {
        match self {
            BindingPower::Default => 0,
            BindingPower::Comma => 1,
            BindingPower::Assignment => 2,
            BindingPower::Logical => 3,
            BindingPower::Relational => 4,
            BindingPower::Additive => 5,
            BindingPower::Multiplicative => 6,
            BindingPower::Unary => 7,
            BindingPower::Call => 8,
            BindingPower::Member => 9,
            BindingPower::Primary => 10,
        }
    }

    /// The numeric level of this binding power; a greater level binds tighter.
    pub fn numeric_level(self) -> (l: u8)
        ensures
            l as nat == self.level(),
    {
        match self {
            BindingPower::Default => 0,
            BindingPower::Comma => 1,
            BindingPower::Assignment => 2,
            BindingPower::Logical => 3,
            BindingPower::Relational => 4,
            BindingPower::Additive => 5,
            BindingPower::Multiplicative => 6,
            BindingPower::Unary => 7,
            BindingPower::Call => 8,
            BindingPower::Member => 9,
            BindingPower::Primary => 10,
        }
    }

    /// Whether `self` binds strictly tighter than `other`.
    pub fn binds_tighter_than(self, other: BindingPower) -> (tighter: bool)
        ensures
            tighter == (self.level() > other.level()),
    {
        self.numeric_level() > other.numeric_level()
    }
}

impl Default for BindingPower {
    /// The lowest binding power, [`BindingPower::Default`].
    fn default() -> (bp: Self)
        ensures
            bp == BindingPower::Default,
    {
        BindingPower::Default
    }
}

/// The expression handlers that can run for a token at the start of an
/// expression.
#[derive(Debug, Clone, Copy, PartialEq, Eq, Structural)]
pub enum NudHandler {
    /// [`parse_primary_expr`](crate::exprs::parse_primary_expr)
    Primary,
    /// [`parse_prefix_expr`](crate::exprs::parse_prefix_expr)
    Prefix,
    /// [`parse_array_literal_expr`](crate::exprs::parse_array_literal_expr)
    ArrayLiteral,
    /// [`parse_grouping_expr`](crate::exprs::parse_grouping_expr)
    Grouping,
    /// [`parse_fn_expr`](crate::exprs::parse_fn_expr)
    Function,
    /// [`parse_new_expr`](crate::exprs::parse_new_expr)
    New,
}

/// The expression handlers that can run for a token after a left-hand
/// expression.
#[derive(Debug, Clone, Copy, PartialEq, Eq, Structural)]
pub enum LedHandler {
    /// [`parse_assignment_expr`](crate::exprs::parse_assignment_expr)
    Assignment,
    /// [`parse_binary_expr`](crate::exprs::parse_binary_expr)
    Binary,
    /// [`parse_range_expr`](crate::exprs::parse_range_expr)
    Range,
    /// [`parse_member_expr`](crate::exprs::parse_member_expr)
    Member,
    /// [`parse_call_expr`](crate::exprs::parse_call_expr)
    Call,
}

/// The statement handlers.
#[derive(Debug, Clone, Copy, PartialEq, Eq, Structural)]
pub enum StmtHandler {
    /// [`parse_block_stmt`](crate::stmts::parse_block_stmt)
    Block,
    /// [`parse_var_decl_stmt`](crate::stmts::parse_var_decl_stmt)
    VarDecl,
    /// [`parse_fn_declaration`](crate::stmts::parse_fn_declaration)
    FunctionDecl,
    /// [`parse_if_stmt`](crate::stmts::parse_if_stmt)
    If,
    /// [`parse_import_stmt`](crate::stmts::parse_import_stmt)
    Import,
    /// [`parse_foreach_stmt`](crate::stmts::parse_foreach_stmt)
    Foreach,
    /// [`parse_class_declaration_stmt`](crate::stmts::parse_class_declaration_stmt)
    ClassDecl,
    /// [`parse_return_stmt`](crate::stmts::parse_return_stmt)
    Return,
}

/// The type handlers that can run for a token at the start of a type.
#[derive(Debug, Clone, Copy, PartialEq, Eq, Structural)]
pub enum TypeNudHandler {
    /// [`parse_symbol_type`](crate::types::parse_symbol_type)
    Symbol,
    /// [`parse_list_type`](crate::types::parse_list_type)
    List,
}

/// The model of the lookup tables: for each kind, the entry of each table.
#[verifier::ext_equal]
pub struct LookupsModel {
    pub bp: spec_fn(TokenKind) -> Option<BindingPower>,
    pub nud: spec_fn(TokenKind) -> Option<NudHandler>,
    pub led: spec_fn(TokenKind) -> Option<LedHandler>,
    pub stmt: spec_fn(TokenKind) -> Option<StmtHandler>,
    pub type_bp: spec_fn(TokenKind) -> Option<BindingPower>,
    pub type_nud: spec_fn(TokenKind) -> Option<TypeNudHandler>,
}

impl LookupsModel {
    /// Running the tables on the end-of-file token never steps past it: the
    /// handlers they name for it (if any) fail without consuming it, and a
    /// LED handler for it never runs, its binding power being the lowest.
    pub open spec fn safe_at_eof(self) -> bool {
        &&& match (self.nud)(TokenKind::Eof) {
            None => true,
            Some(h) => h == NudHandler::Primary || h == NudHandler::ArrayLiteral || h
                == NudHandler::Grouping || h == NudHandler::Function,
        }
        &&& ((self.led)(TokenKind::Eof) is None || power_or_default((self.bp)(TokenKind::Eof))
            == BindingPower::Default)
        &&& match (self.stmt)(TokenKind::Eof) {
            None => true,
            Some(h) => h == StmtHandler::Block,
        }
        &&& (self.type_nud)(TokenKind::Eof) is None
    }
}

/// The binding power a table gives a kind, [`BindingPower::Default`] when it
/// gives none.
pub open spec fn power_or_default(entry: Option<BindingPower>) -> BindingPower {
    match entry {
        Some(b) => b,
        None => BindingPower::Default,
    }
}

/// The tables that [`create_token_lookups`] and [`create_type_token_lookups`]
/// fill in, starting from empty tables.
pub open spec fn standard_lookups() -> LookupsModel {
    LookupsModel {
        bp: |k: TokenKind| standard_bp(k, None),
        nud: |k: TokenKind| standard_nud(k, None),
        led: |k: TokenKind| standard_led(k, None),
        stmt: |k: TokenKind| standard_stmt(k, None),
        type_bp: |k: TokenKind| standard_type_bp(k, None),
        type_nud: |k: TokenKind| standard_type_nud(k, None),
    }
}

/// Lookup tables for the Pratt parser.
///
/// Holds maps from token kinds to handlers and binding powers. The parser
/// consults these tables to decide how to handle each token it encounters.
///
/// Use the registration methods ([`nud`](Lookups::nud), [`led`](Lookups::led),
/// [`stmt`](Lookups::stmt), etc.) to populate the tables before parsing.
/// Each table is keyed by the position of the token kind in the declaration
/// order ([`TokenKind::ordinal_index`]).
pub struct Lookups {
    bp: HashMap<usize, BindingPower>,
    nud: HashMap<usize, NudHandler>,
    led: HashMap<usize, LedHandler>,
    stmt: HashMap<usize, StmtHandler>,
    type_bp: HashMap<usize, BindingPower>,
    type_nud: HashMap<usize, TypeNudHandler>,
}

/// The key of a kind in the tables.
pub open spec fn key_of(kind: TokenKind) -> usize {
    kind.ordinal() as usize
}

/// The entry a table holds for a kind, if any.
pub open spec fn entry_of<V>(table: Map<usize, V>, kind: TokenKind) -> Option<V> {
    if table.contains_key(key_of(kind)) {
        Some(table[key_of(kind)])
    } else {
        None
    }
}

/// Every key of a table is the key of a token kind.
pub open spec fn keyed_by_kinds<V>(table: Map<usize, V>) -> bool {
    forall|i: usize| #[trigger] table.contains_key(i) ==> i < TOKEN_KIND_COUNT
}

impl Lookups {
    /// Every table is keyed by token kinds.
    pub closed spec fn well_formed(&self) -> bool {
        &&& keyed_by_kinds(self.bp@)
        &&& keyed_by_kinds(self.nud@)
        &&& keyed_by_kinds(self.led@)
        &&& keyed_by_kinds(self.stmt@)
        &&& keyed_by_kinds(self.type_bp@)
        &&& keyed_by_kinds(self.type_nud@)
    }

    /// The expression binding power registered for a kind.
    pub closed spec fn bp_of(&self, kind: TokenKind) -> Option<BindingPower> {
        entry_of(self.bp@, kind)
    }

    /// The NUD handler registered for a kind.
    pub closed spec fn nud_of(&self, kind: TokenKind) -> Option<NudHandler> {
        entry_of(self.nud@, kind)
    }

    /// The LED handler registered for a kind.
    pub closed spec fn led_of(&self, kind: TokenKind) -> Option<LedHandler> {
        entry_of(self.led@, kind)
    }

    /// The statement handler registered for a kind.
    pub closed spec fn stmt_of(&self, kind: TokenKind) -> Option<StmtHandler> {
        entry_of(self.stmt@, kind)
    }

    /// The type binding power registered for a kind.
    pub closed spec fn type_bp_of(&self, kind: TokenKind) -> Option<BindingPower> {
        entry_of(self.type_bp@, kind)
    }

    /// The type NUD handler registered for a kind.
    pub closed spec fn type_nud_of(&self, kind: TokenKind) -> Option<TypeNudHandler> {
        entry_of(self.type_nud@, kind)
    }

    /// The expression tables (binding powers, NUD and LED handlers) agree.
    pub open spec fn same_expr_tables(&self, other: &Lookups) -> bool {
        forall|k: TokenKind|
            {
                &&& #[trigger] self.bp_of(k) == other.bp_of(k)
                &&& self.nud_of(k) == other.nud_of(k)
                &&& self.led_of(k) == other.led_of(k)
            }
    }

    /// The statement tables agree.
    pub open spec fn same_stmt_table(&self, other: &Lookups) -> bool {
        forall|k: TokenKind| #[trigger] self.stmt_of(k) == other.stmt_of(k)
    }

    /// The type tables (binding powers, NUD and LED handlers) agree.
    pub open spec fn same_type_tables(&self, other: &Lookups) -> bool {
        forall|k: TokenKind|
            {
                &&& #[trigger] self.type_bp_of(k) == other.type_bp_of(k)
                &&& self.type_nud_of(k) == other.type_nud_of(k)
            }
    }

    /// Creates a new, empty `Lookups` instance.
    pub fn new() -> (lu: Self)
        ensures
            lu.well_formed(),
            forall|k: TokenKind|
                {
                    &&& #[trigger] lu.bp_of(k) is None
                    &&& lu.nud_of(k) is None
                    &&& lu.led_of(k) is None
                    &&& lu.stmt_of(k) is None
                    &&& lu.type_bp_of(k) is None
                    &&& lu.type_nud_of(k) is None
                },
    {
        Lookups {
            bp: HashMap::new(),
            nud: HashMap::new(),
            led: HashMap::new(),
            stmt: HashMap::new(),
            type_bp: HashMap::new(),
            type_nud: HashMap::new(),
        }
    }

    /// The expression binding power registered for a kind.
    pub fn binding_power(&self, kind: TokenKind) -> (bp: Option<BindingPower>)
        requires
            self.well_formed(),
        ensures
            bp == self.bp_of(kind),
    {
        match self.bp.get(&kind.ordinal_index()) {
            Some(entry) => Some(*entry),
            None => None,
        }
    }

    /// The NUD handler registered for a kind.
    pub fn nud_handler(&self, kind: TokenKind) -> (h: Option<NudHandler>)
        requires
            self.well_formed(),
        ensures
            h == self.nud_of(kind),
    {
        match self.nud.get(&kind.ordinal_index()) {
            Some(entry) => Some(*entry),
            None => None,
        }
    }

    /// The LED handler registered for a kind.
    pub fn led_handler(&self, kind: TokenKind) -> (h: Option<LedHandler>)
        requires
            self.well_formed(),
        ensures
            h == self.led_of(kind),
    {
        match self.led.get(&kind.ordinal_index()) {
            Some(entry) => Some(*entry),
            None => None,
        }
    }

    /// The statement handler registered for a kind.
    pub fn stmt_handler(&self, kind: TokenKind) -> (h: Option<StmtHandler>)
        requires
            self.well_formed(),
        ensures
            h == self.stmt_of(kind),
    {
        match self.stmt.get(&kind.ordinal_index()) {
            Some(entry) => Some(*entry),
            None => None,
        }
    }

    /// The type binding power registered for a kind.
    pub fn type_binding_power(&self, kind: TokenKind) -> (bp: Option<BindingPower>)
        requires
            self.well_formed(),
        ensures
            bp == self.type_bp_of(kind),
    {
        match self.type_bp.get(&kind.ordinal_index()) {
            Some(entry) => Some(*entry),
            None => None,
        }
    }

    /// The type NUD handler registered for a kind.
    pub fn type_nud_handler(&self, kind: TokenKind) -> (h: Option<TypeNudHandler>)
        requires
            self.well_formed(),
        ensures
            h == self.type_nud_of(kind),
    {
        match self.type_nud.get(&kind.ordinal_index()) {
            Some(entry) => Some(*entry),
            None => None,
        }
    }

    /// Registers a LED (left denotation) handler for expression parsing.
    ///
    /// Also sets the binding power for the token kind in the `bp` table.
    pub fn led(&mut self, kind: TokenKind, bp: BindingPower, f: LedHandler)
        requires
            old(self).well_formed(),
        ensures
            final(self).well_formed(),
            final(self).bp_of(kind) == Some(bp),
            final(self).led_of(kind) == Some(f),
            forall|k: TokenKind|
                k != kind ==> {
                    &&& #[trigger] final(self).bp_of(k) == old(self).bp_of(k)
                    &&& final(self).led_of(k) == old(self).led_of(k)
                },
            forall|k: TokenKind| #[trigger] final(self).nud_of(k) == old(self).nud_of(k),
            final(self).same_stmt_table(old(self)),
            final(self).same_type_tables(old(self)),
    {
        let i = kind.ordinal_index();
        self.bp.insert(i, bp);
        self.led.insert(i, f);
        proof {
            lemma_distinct_ordinals(kind);
        }
    }

    /// Registers a NUD (null denotation) handler for expression parsing.
    ///
    /// Also sets the binding power to [`BindingPower::Primary`] in the `bp`
    /// table, since NUD tokens typically terminate parsing loops.
    pub fn nud(&mut self, kind: TokenKind, _bp: BindingPower, f: NudHandler)
        requires
            old(self).well_formed(),
        ensures
            final(self).well_formed(),
            final(self).bp_of(kind) == Some(BindingPower::Primary),
            final(self).nud_of(kind) == Some(f),
            forall|k: TokenKind|
                k != kind ==> {
                    &&& #[trigger] final(self).bp_of(k) == old(self).bp_of(k)
                    &&& final(self).nud_of(k) == old(self).nud_of(k)
                },
            forall|k: TokenKind| #[trigger] final(self).led_of(k) == old(self).led_of(k),
            final(self).same_stmt_table(old(self)),
            final(self).same_type_tables(old(self)),
    {
        let i = kind.ordinal_index();
        self.bp.insert(i, BindingPower::Primary);
        self.nud.insert(i, f);
        proof {
            lemma_distinct_ordinals(kind);
        }
    }

    /// Registers a statement handler.
    ///
    /// Also sets the binding power to [`BindingPower::Default`] in the `bp`
    /// table.
    pub fn stmt(&mut self, kind: TokenKind, f: StmtHandler)
        requires
            old(self).well_formed(),
        ensures
            final(self).well_formed(),
            final(self).bp_of(kind) == Some(BindingPower::Default),
            final(self).stmt_of(kind) == Some(f),
            forall|k: TokenKind|
                k != kind ==> {
                    &&& #[trigger] final(self).bp_of(k) == old(self).bp_of(k)
                    &&& final(self).stmt_of(k) == old(self).stmt_of(k)
                },
            forall|k: TokenKind|
                {
                    &&& #[trigger] final(self).nud_of(k) == old(self).nud_of(k)
                    &&& final(self).led_of(k) == old(self).led_of(k)
                },
            final(self).same_type_tables(old(self)),
    {
        let i = kind.ordinal_index();
        self.bp.insert(i, BindingPower::Default);
        self.stmt.insert(i, f);
        proof {
            lemma_distinct_ordinals(kind);
        }
    }

    /// Registers a NUD handler for type parsing.
    ///
    /// Also sets the binding power to [`BindingPower::Primary`] in the
    /// `type_bp` table.
    pub fn type_nud(&mut self, kind: TokenKind, _bp: BindingPower, f: TypeNudHandler)
        requires
            old(self).well_formed(),
        ensures
            final(self).well_formed(),
            final(self).type_bp_of(kind) == Some(BindingPower::Primary),
            final(self).type_nud_of(kind) == Some(f),
            forall|k: TokenKind|
                k != kind ==> {
                    &&& #[trigger] final(self).type_bp_of(k) == old(self).type_bp_of(k)
                    &&& final(self).type_nud_of(k) == old(self).type_nud_of(k)
                },
            final(self).same_expr_tables(old(self)),
            final(self).same_stmt_table(old(self)),
    {
        let i = kind.ordinal_index();
        self.type_bp.insert(i, BindingPower::Primary);
        self.type_nud.insert(i, f);
        proof {
            lemma_distinct_ordinals(kind);
        }
    }
}

impl View for Lookups {
    type V = LookupsModel;

    open spec fn view(&self) -> LookupsModel {
        LookupsModel {
            bp: |k: TokenKind| self.bp_of(k),
            nud: |k: TokenKind| self.nud_of(k),
            led: |k: TokenKind| self.led_of(k),
            stmt: |k: TokenKind| self.stmt_of(k),
            type_bp: |k: TokenKind| self.type_bp_of(k),
            type_nud: |k: TokenKind| self.type_nud_of(k),
        }
    }
}

impl Default for Lookups {
    /// Creates a new, empty `Lookups` instance.
    fn default() -> (lu: Self)
        ensures
            lu.well_formed(),
            forall|k: TokenKind|
                {
                    &&& #[trigger] lu.bp_of(k) is None
                    &&& lu.nud_of(k) is None
                    &&& lu.led_of(k) is None
                    &&& lu.stmt_of(k) is None
                    &&& lu.type_bp_of(k) is None
                    &&& lu.type_nud_of(k) is None
                },
    {
        Self::new()
    }
}

/// Distinct kinds sit at distinct positions of the declaration order.
proof fn lemma_distinct_ordinals(kind: TokenKind)
    ensures
        forall|k: TokenKind| k != kind ==> #[trigger] k.ordinal() != kind.ordinal(),
{
    assert forall|k: TokenKind| k != kind implies #[trigger] k.ordinal() != kind.ordinal() by {
        crate::lexer::lemma_ordinal_inverse(k);
        crate::lexer::lemma_ordinal_inverse(kind);
    }
}

/// The expression binding power that [`create_token_lookups`] leaves for a
/// kind whose previous entry was `prev`.
pub open spec fn standard_bp(kind: TokenKind, prev: Option<BindingPower>) -> Option<BindingPower> {
    match kind {
        TokenKind::Assignment | TokenKind::PlusEquals | TokenKind::MinusEquals
        | TokenKind::NullishAssignment => Some(BindingPower::Assignment),
        TokenKind::And | TokenKind::Or | TokenKind::DotDot => Some(BindingPower::Logical),
        TokenKind::Less | TokenKind::LessEquals | TokenKind::Greater | TokenKind::GreaterEquals
        | TokenKind::Equals | TokenKind::NotEquals => Some(BindingPower::Relational),
        TokenKind::Plus | TokenKind::Dash => Some(BindingPower::Additive),
        TokenKind::Slash | TokenKind::Star | TokenKind::Percent => Some(
            BindingPower::Multiplicative,
        ),
        TokenKind::Number | TokenKind::String | TokenKind::Identifier | TokenKind::Typeof
        | TokenKind::Not | TokenKind::New => Some(BindingPower::Primary),
        TokenKind::OpenParen => Some(BindingPower::Call),
        TokenKind::Dot | TokenKind::OpenBracket => Some(BindingPower::Member),
        TokenKind::OpenCurly | TokenKind::Let | TokenKind::Const | TokenKind::Fn | TokenKind::If
        | TokenKind::Import | TokenKind::Foreach | TokenKind::Class | TokenKind::Return => Some(
            BindingPower::Default,
        ),
        _ => prev,
    }
}

/// The NUD handler that [`create_token_lookups`] leaves for a kind whose
/// previous entry was `prev`.
pub open spec fn standard_nud(kind: TokenKind, prev: Option<NudHandler>) -> Option<NudHandler> {
    match kind {
        TokenKind::Number | TokenKind::String | TokenKind::Identifier => Some(NudHandler::Primary),
        TokenKind::Typeof | TokenKind::Dash | TokenKind::Not => Some(NudHandler::Prefix),
        TokenKind::OpenBracket => Some(NudHandler::ArrayLiteral),
        TokenKind::OpenParen => Some(NudHandler::Grouping),
        TokenKind::Fn => Some(NudHandler::Function),
        TokenKind::New => Some(NudHandler::New),
        _ => prev,
    }
}

/// The LED handler that [`create_token_lookups`] leaves for a kind whose
/// previous entry was `prev`.
pub open spec fn standard_led(kind: TokenKind, prev: Option<LedHandler>) -> Option<LedHandler> {
    match kind {
        TokenKind::Assignment | TokenKind::PlusEquals | TokenKind::MinusEquals
        | TokenKind::NullishAssignment => Some(LedHandler::Assignment),
        TokenKind::And | TokenKind::Or | TokenKind::Less | TokenKind::LessEquals
        | TokenKind::Greater | TokenKind::GreaterEquals | TokenKind::Equals | TokenKind::NotEquals
        | TokenKind::Plus | TokenKind::Dash | TokenKind::Slash | TokenKind::Star
        | TokenKind::Percent => Some(LedHandler::Binary),
        TokenKind::DotDot => Some(LedHandler::Range),
        TokenKind::Dot | TokenKind::OpenBracket => Some(LedHandler::Member),
        TokenKind::OpenParen => Some(LedHandler::Call),
        _ => prev,
    }
}

/// The statement handler that [`create_token_lookups`] leaves for a kind whose
/// previous entry was `prev`.
pub open spec fn standard_stmt(kind: TokenKind, prev: Option<StmtHandler>) -> Option<StmtHandler> {
    match kind {
        TokenKind::OpenCurly => Some(StmtHandler::Block),
        TokenKind::Let | TokenKind::Const => Some(StmtHandler::VarDecl),
        TokenKind::Fn => Some(StmtHandler::FunctionDecl),
        TokenKind::If => Some(StmtHandler::If),
        TokenKind::Import => Some(StmtHandler::Import),
        TokenKind::Foreach => Some(StmtHandler::Foreach),
        TokenKind::Class => Some(StmtHandler::ClassDecl),
        TokenKind::Return => Some(StmtHandler::Return),
        _ => prev,
    }
}

/// Populates the lookup tables with handlers for all standard Relix expression
/// and statement syntax.
///
/// This function registers NUD, LED, and statement handlers for all built-in
/// operators, literals, keywords, and punctuation.
pub fn create_token_lookups(lu: &mut Lookups)
    requires
        old(lu).well_formed(),
    ensures
        final(lu).well_formed(),
        forall|k: TokenKind|
            {
                &&& #[trigger] final(lu).bp_of(k) == standard_bp(k, old(lu).bp_of(k))
                &&& final(lu).nud_of(k) == standard_nud(k, old(lu).nud_of(k))
                &&& final(lu).led_of(k) == standard_led(k, old(lu).led_of(k))
                &&& final(lu).stmt_of(k) == standard_stmt(k, old(lu).stmt_of(k))
            },
        final(lu).same_type_tables(old(lu)),
{
    register_operands(lu);
    register_operators(lu);
    register_statements(lu);
}

/// Assignment, logical, relational, additive and multiplicative operators.
fn register_operators(lu: &mut Lookups)
    requires
        old(lu).well_formed(),
    ensures
        final(lu).well_formed(),
        forall|k: TokenKind|
            {
                &&& #[trigger] final(lu).bp_of(k) == match k {
                    TokenKind::Assignment | TokenKind::PlusEquals | TokenKind::MinusEquals
                    | TokenKind::NullishAssignment => Some(BindingPower::Assignment),
                    TokenKind::And | TokenKind::Or | TokenKind::DotDot => Some(BindingPower::Logical),
                    TokenKind::Less | TokenKind::LessEquals | TokenKind::Greater
                    | TokenKind::GreaterEquals | TokenKind::Equals | TokenKind::NotEquals => Some(
                        BindingPower::Relational,
                    ),
                    TokenKind::Plus | TokenKind::Dash => Some(BindingPower::Additive),
                    TokenKind::Slash | TokenKind::Star | TokenKind::Percent => Some(
                        BindingPower::Multiplicative,
                    ),
                    _ => old(lu).bp_of(k),
                }
                &&& final(lu).led_of(k) == match k {
                    TokenKind::Assignment | TokenKind::PlusEquals | TokenKind::MinusEquals
                    | TokenKind::NullishAssignment => Some(LedHandler::Assignment),
                    TokenKind::And | TokenKind::Or | TokenKind::Less | TokenKind::LessEquals
                    | TokenKind::Greater | TokenKind::GreaterEquals | TokenKind::Equals
                    | TokenKind::NotEquals | TokenKind::Plus | TokenKind::Dash | TokenKind::Slash
                    | TokenKind::Star | TokenKind::Percent => Some(LedHandler::Binary),
                    TokenKind::DotDot => Some(LedHandler::Range),
                    _ => old(lu).led_of(k),
                }
                &&& final(lu).nud_of(k) == old(lu).nud_of(k)
                &&& final(lu).stmt_of(k) == old(lu).stmt_of(k)
            },
        final(lu).same_type_tables(old(lu)),
{
    // Assignment
    lu.led(TokenKind::Assignment, BindingPower::Assignment, LedHandler::Assignment);
    lu.led(TokenKind::PlusEquals, BindingPower::Assignment, LedHandler::Assignment);
    lu.led(TokenKind::MinusEquals, BindingPower::Assignment, LedHandler::Assignment);
    lu.led(TokenKind::NullishAssignment, BindingPower::Assignment, LedHandler::Assignment);
    // Logical
    lu.led(TokenKind::And, BindingPower::Logical, LedHandler::Binary);
    lu.led(TokenKind::Or, BindingPower::Logical, LedHandler::Binary);
    lu.led(TokenKind::DotDot, BindingPower::Logical, LedHandler::Range);
    // Relational
    lu.led(TokenKind::Less, BindingPower::Relational, LedHandler::Binary);
    lu.led(TokenKind::LessEquals, BindingPower::Relational, LedHandler::Binary);
    lu.led(TokenKind::Greater, BindingPower::Relational, LedHandler::Binary);
    lu.led(TokenKind::GreaterEquals, BindingPower::Relational, LedHandler::Binary);
    lu.led(TokenKind::Equals, BindingPower::Relational, LedHandler::Binary);
    lu.led(TokenKind::NotEquals, BindingPower::Relational, LedHandler::Binary);
    // Additive & Multiplicative
    lu.led(TokenKind::Plus, BindingPower::Additive, LedHandler::Binary);
    lu.led(TokenKind::Dash, BindingPower::Additive, LedHandler::Binary);
    lu.led(TokenKind::Slash, BindingPower::Multiplicative, LedHandler::Binary);
    lu.led(TokenKind::Star, BindingPower::Multiplicative, LedHandler::Binary);
    lu.led(TokenKind::Percent, BindingPower::Multiplicative, LedHandler::Binary);
}

/// Literals, symbols, prefix operators, grouping, anonymous functions and
/// `new`, then member access and calls. The NUD registrations come first, so
/// a token that also has a LED handler keeps the LED's binding power.
fn register_operands(lu: &mut Lookups)
    requires
        old(lu).well_formed(),
    ensures
        final(lu).well_formed(),
        forall|k: TokenKind|
            {
                &&& #[trigger] final(lu).bp_of(k) == match k {
                    TokenKind::Number | TokenKind::String | TokenKind::Identifier
                    | TokenKind::Typeof | TokenKind::Dash | TokenKind::Not | TokenKind::Fn
                    | TokenKind::New => Some(BindingPower::Primary),
                    TokenKind::OpenParen => Some(BindingPower::Call),
                    TokenKind::Dot | TokenKind::OpenBracket => Some(BindingPower::Member),
                    _ => old(lu).bp_of(k),
                }
                &&& final(lu).nud_of(k) == standard_nud(k, old(lu).nud_of(k))
                &&& final(lu).led_of(k) == match k {
                    TokenKind::Dot | TokenKind::OpenBracket => Some(LedHandler::Member),
                    TokenKind::OpenParen => Some(LedHandler::Call),
                    _ => old(lu).led_of(k),
                }
                &&& final(lu).stmt_of(k) == old(lu).stmt_of(k)
            },
        final(lu).same_type_tables(old(lu)),
{
    // Literals & symbols
    lu.nud(TokenKind::Number, BindingPower::Primary, NudHandler::Primary);
    lu.nud(TokenKind::String, BindingPower::Primary, NudHandler::Primary);
    lu.nud(TokenKind::Identifier, BindingPower::Primary, NudHandler::Primary);
    // Unary / prefix
    lu.nud(TokenKind::Typeof, BindingPower::Unary, NudHandler::Prefix);
    lu.nud(TokenKind::Dash, BindingPower::Unary, NudHandler::Prefix);
    lu.nud(TokenKind::Not, BindingPower::Unary, NudHandler::Prefix);
    lu.nud(TokenKind::OpenBracket, BindingPower::Primary, NudHandler::ArrayLiteral);
    // Grouping / fn / new
    lu.nud(TokenKind::OpenParen, BindingPower::Default, NudHandler::Grouping);
    lu.nud(TokenKind::Fn, BindingPower::Default, NudHandler::Function);
    lu.nud(TokenKind::New, BindingPower::Default, NudHandler::New);
    // Member / computed / call
    lu.led(TokenKind::Dot, BindingPower::Member, LedHandler::Member);
    lu.led(TokenKind::OpenBracket, BindingPower::Member, LedHandler::Member);
    lu.led(TokenKind::OpenParen, BindingPower::Call, LedHandler::Call);
}

/// Statement keywords and blocks.
fn register_statements(lu: &mut Lookups)
    requires
        old(lu).well_formed(),
    ensures
        final(lu).well_formed(),
        forall|k: TokenKind|
            {
                &&& #[trigger] final(lu).bp_of(k) == match k {
                    TokenKind::OpenCurly | TokenKind::Let | TokenKind::Const | TokenKind::Fn
                    | TokenKind::If | TokenKind::Import | TokenKind::Foreach | TokenKind::Class
                    | TokenKind::Return => Some(BindingPower::Default),
                    _ => old(lu).bp_of(k),
                }
                &&& final(lu).stmt_of(k) == standard_stmt(k, old(lu).stmt_of(k))
                &&& final(lu).nud_of(k) == old(lu).nud_of(k)
                &&& final(lu).led_of(k) == old(lu).led_of(k)
            },
        final(lu).same_type_tables(old(lu)),
{
    lu.stmt(TokenKind::OpenCurly, StmtHandler::Block);
    lu.stmt(TokenKind::Let, StmtHandler::VarDecl);
    lu.stmt(TokenKind::Const, StmtHandler::VarDecl);
    lu.stmt(TokenKind::Fn, StmtHandler::FunctionDecl);
    lu.stmt(TokenKind::If, StmtHandler::If);
    lu.stmt(TokenKind::Import, StmtHandler::Import);
    lu.stmt(TokenKind::Foreach, StmtHandler::Foreach);
    lu.stmt(TokenKind::Class, StmtHandler::ClassDecl);
    lu.stmt(TokenKind::Return, StmtHandler::Return);
}

/// The type binding power that [`create_type_token_lookups`] leaves for a kind
/// whose previous entry was `prev`.
pub open spec fn standard_type_bp(kind: TokenKind, prev: Option<BindingPower>) -> Option<BindingPower> {
    match kind {
        TokenKind::Identifier | TokenKind::OpenBracket => Some(BindingPower::Primary),
        _ => prev,
    }
}

/// The type NUD handler that [`create_type_token_lookups`] leaves for a kind
/// whose previous entry was `prev`.
pub open spec fn standard_type_nud(kind: TokenKind, prev: Option<TypeNudHandler>) -> Option<TypeNudHandler> {
    match kind {
        TokenKind::Identifier => Some(TypeNudHandler::Symbol),
        TokenKind::OpenBracket => Some(TypeNudHandler::List),
        _ => prev,
    }
}

/// Populates the lookup tables with handlers for Relix type annotation syntax.
///
/// This function registers NUD handlers for symbol types (e.g., `number`) and
/// list types (e.g., `[]number`).
pub fn create_type_token_lookups(lu: &mut Lookups)
    requires
        old(lu).well_formed(),
    ensures
        final(lu).well_formed(),
        forall|k: TokenKind|
            {
                &&& #[trigger] final(lu).type_bp_of(k) == standard_type_bp(k, old(lu).type_bp_of(k))
                &&& final(lu).type_nud_of(k) == standard_type_nud(k, old(lu).type_nud_of(k))
            },
        final(lu).same_expr_tables(old(lu)),
        final(lu).same_stmt_table(old(lu)),
{
    lu.type_nud(TokenKind::Identifier, BindingPower::Primary, TypeNudHandler::Symbol);
    lu.type_nud(TokenKind::OpenBracket, BindingPower::Member, TypeNudHandler::List);
}

/// The binding powers of the standard tables, as fixed values: the
/// multiplicative operators `*`, `/`, `%` bind tighter than the additive `+`
/// and `-`, which bind tighter than the comparisons, which bind tighter than
/// `&&`, `||` and `..`, which bind tighter than the assignments; calls and
/// member access bind tighter than any operator. All these operators have
/// LED handlers: binary ones for the arithmetic, comparison and logical
/// operators.
pub proof fn law_standard_binding_powers()
    ensures
        (standard_lookups().bp)(TokenKind::Star) == Some(BindingPower::Multiplicative),
        (standard_lookups().bp)(TokenKind::Slash) == Some(BindingPower::Multiplicative),
        (standard_lookups().bp)(TokenKind::Percent) == Some(BindingPower::Multiplicative),
        (standard_lookups().bp)(TokenKind::Plus) == Some(BindingPower::Additive),
        (standard_lookups().bp)(TokenKind::Dash) == Some(BindingPower::Additive),
        (standard_lookups().bp)(TokenKind::Less) == Some(BindingPower::Relational),
        (standard_lookups().bp)(TokenKind::LessEquals) == Some(BindingPower::Relational),
        (standard_lookups().bp)(TokenKind::Greater) == Some(BindingPower::Relational),
        (standard_lookups().bp)(TokenKind::GreaterEquals) == Some(BindingPower::Relational),
        (standard_lookups().bp)(TokenKind::Equals) == Some(BindingPower::Relational),
        (standard_lookups().bp)(TokenKind::NotEquals) == Some(BindingPower::Relational),
        (standard_lookups().bp)(TokenKind::And) == Some(BindingPower::Logical),
        (standard_lookups().bp)(TokenKind::Or) == Some(BindingPower::Logical),
        (standard_lookups().bp)(TokenKind::DotDot) == Some(BindingPower::Logical),
        (standard_lookups().bp)(TokenKind::Assignment) == Some(BindingPower::Assignment),
        (standard_lookups().bp)(TokenKind::PlusEquals) == Some(BindingPower::Assignment),
        (standard_lookups().bp)(TokenKind::MinusEquals) == Some(BindingPower::Assignment),
        (standard_lookups().bp)(TokenKind::NullishAssignment) == Some(BindingPower::Assignment),
        (standard_lookups().bp)(TokenKind::OpenParen) == Some(BindingPower::Call),
        (standard_lookups().bp)(TokenKind::Dot) == Some(BindingPower::Member),
        (standard_lookups().bp)(TokenKind::OpenBracket) == Some(BindingPower::Member),
        (standard_lookups().bp)(TokenKind::SemiColon) is None,
        (standard_lookups().bp)(TokenKind::Comma) is None,
        (standard_lookups().bp)(TokenKind::CloseParen) is None,
        BindingPower::Multiplicative.level() > BindingPower::Additive.level(),
        BindingPower::Additive.level() > BindingPower::Relational.level(),
        BindingPower::Relational.level() > BindingPower::Logical.level(),
        BindingPower::Logical.level() > BindingPower::Assignment.level(),
        forall|k: TokenKind|
            (k == TokenKind::Star || k == TokenKind::Slash || k == TokenKind::Percent || k
                == TokenKind::Plus || k == TokenKind::Dash || k == TokenKind::Less || k
                == TokenKind::LessEquals || k == TokenKind::Greater || k
                == TokenKind::GreaterEquals || k == TokenKind::Equals || k
                == TokenKind::NotEquals || k == TokenKind::And || k == TokenKind::Or) ==> #[trigger] (
            standard_lookups().led)(k) == Some(LedHandler::Binary),
{
}

/// The handlers of the standard tables, as fixed values: literals and names
/// are primary expressions; `typeof`, `-` and `!` are prefix operators; `[`
/// starts an array, `(` a group, `fn` a function and `new` an instantiation;
/// assignments, `..`, member access and calls have their own LED handlers;
/// each statement keyword has its statement handler; and type annotations
/// are names or `[]` list types. Literals and names bind at the primary
/// power, and statement keywords at the lowest.
pub proof fn law_standard_handlers()
    ensures
        (standard_lookups().nud)(TokenKind::Number) == Some(NudHandler::Primary),
        (standard_lookups().nud)(TokenKind::String) == Some(NudHandler::Primary),
        (standard_lookups().nud)(TokenKind::Identifier) == Some(NudHandler::Primary),
        (standard_lookups().nud)(TokenKind::Typeof) == Some(NudHandler::Prefix),
        (standard_lookups().nud)(TokenKind::Dash) == Some(NudHandler::Prefix),
        (standard_lookups().nud)(TokenKind::Not) == Some(NudHandler::Prefix),
        (standard_lookups().nud)(TokenKind::OpenBracket) == Some(NudHandler::ArrayLiteral),
        (standard_lookups().nud)(TokenKind::OpenParen) == Some(NudHandler::Grouping),
        (standard_lookups().nud)(TokenKind::Fn) == Some(NudHandler::Function),
        (standard_lookups().nud)(TokenKind::New) == Some(NudHandler::New),
        (standard_lookups().nud)(TokenKind::Plus) is None,
        (standard_lookups().nud)(TokenKind::SemiColon) is None,
        (standard_lookups().led)(TokenKind::Assignment) == Some(LedHandler::Assignment),
        (standard_lookups().led)(TokenKind::PlusEquals) == Some(LedHandler::Assignment),
        (standard_lookups().led)(TokenKind::MinusEquals) == Some(LedHandler::Assignment),
        (standard_lookups().led)(TokenKind::NullishAssignment) == Some(LedHandler::Assignment),
        (standard_lookups().led)(TokenKind::DotDot) == Some(LedHandler::Range),
        (standard_lookups().led)(TokenKind::Dot) == Some(LedHandler::Member),
        (standard_lookups().led)(TokenKind::OpenBracket) == Some(LedHandler::Member),
        (standard_lookups().led)(TokenKind::OpenParen) == Some(LedHandler::Call),
        (standard_lookups().led)(TokenKind::Identifier) is None,
        (standard_lookups().stmt)(TokenKind::OpenCurly) == Some(StmtHandler::Block),
        (standard_lookups().stmt)(TokenKind::Let) == Some(StmtHandler::VarDecl),
        (standard_lookups().stmt)(TokenKind::Const) == Some(StmtHandler::VarDecl),
        (standard_lookups().stmt)(TokenKind::Fn) == Some(StmtHandler::FunctionDecl),
        (standard_lookups().stmt)(TokenKind::If) == Some(StmtHandler::If),
        (standard_lookups().stmt)(TokenKind::Import) == Some(StmtHandler::Import),
        (standard_lookups().stmt)(TokenKind::Foreach) == Some(StmtHandler::Foreach),
        (standard_lookups().stmt)(TokenKind::Class) == Some(StmtHandler::ClassDecl),
        (standard_lookups().stmt)(TokenKind::Return) == Some(StmtHandler::Return),
        (standard_lookups().stmt)(TokenKind::Identifier) is None,
        (standard_lookups().stmt)(TokenKind::Eof) is None,
        (standard_lookups().type_nud)(TokenKind::Identifier) == Some(TypeNudHandler::Symbol),
        (standard_lookups().type_nud)(TokenKind::OpenBracket) == Some(TypeNudHandler::List),
        (standard_lookups().type_nud)(TokenKind::Number) is None,
        (standard_lookups().type_bp)(TokenKind::Identifier) == Some(BindingPower::Primary),
        (standard_lookups().type_bp)(TokenKind::OpenBracket) == Some(BindingPower::Primary),
        (standard_lookups().type_bp)(TokenKind::Assignment) is None,
        (standard_lookups().bp)(TokenKind::Number) == Some(BindingPower::Primary),
        (standard_lookups().bp)(TokenKind::String) == Some(BindingPower::Primary),
        (standard_lookups().bp)(TokenKind::Identifier) == Some(BindingPower::Primary),
        (standard_lookups().bp)(TokenKind::OpenCurly) == Some(BindingPower::Default),
        (standard_lookups().bp)(TokenKind::Let) == Some(BindingPower::Default),
        (standard_lookups().bp)(TokenKind::Return) == Some(BindingPower::Default),
        (standard_lookups().bp)(TokenKind::Fn) == Some(BindingPower::Default),
        standard_lookups().safe_at_eof(),
{
}

} // verus!
