//! Token kinds and tokens produced by the lexer.

use vstd::prelude::*;
use vstd::utf8::*;
use vstd::string::StringSliceAdditionalSpecFns;

verus! {

/// Enumerates every distinct lexical token the Relix lexer can produce.
///
/// `TokenKind` covers literals, identifiers, operators, punctuation, and
/// reserved keywords. Use [`TokenKind::from_keyword`] to resolve an identifier
/// string to its keyword variant (if any).
#[derive(Debug, Clone, Copy, PartialEq, Eq, Hash, Structural)]
pub enum TokenKind {
    /// End-of-file sentinel.
    Eof,
    /// The `null` literal.
    Null,
    /// The `true` literal.
    True,
    /// The `false` literal.
    False,
    /// A numeric literal (integer or floating-point).
    Number,
    /// A double-quoted string literal.
    String,
    /// An identifier (variable name, function name, etc.).
    Identifier,
    /// `[`
    OpenBracket,
    /// `]`
    CloseBracket,
    /// `{`
    OpenCurly,
    /// `}`
    CloseCurly,
    /// `(`
    OpenParen,
    /// `)`
    CloseParen,
    /// `=`
    Assignment,
    /// `==`
    Equals,
    /// `!=`
    NotEquals,
    /// `!`
    Not,
    /// `<`
    Less,
    /// `<=`
    LessEquals,
    /// `>`
    Greater,
    /// `>=`
    GreaterEquals,
    /// `||`
    Or,
    /// `&&`
    And,
    /// `.`
    Dot,
    /// `..`
    DotDot,
    /// `;`
    SemiColon,
    /// `:`
    Colon,
    /// `?`
    Question,
    /// `,`
    Comma,
    /// `++`
    PlusPlus,
    /// `--`
    MinusMinus,
    /// `+=`
    PlusEquals,
    /// `-=`
    MinusEquals,
    /// `??=`
    NullishAssignment,
    /// `+`
    Plus,
    /// `-`
    Dash,
    /// `/`
    Slash,
    /// `*`
    Star,
    /// `%`
    Percent,
    /// `let`
    Let,
    /// `const`
    Const,
    /// `class`
    Class,
    /// `new`
    New,
    /// `import`
    Import,
    /// `from`
    From,
    /// `fn`
    Fn,
    /// `if`
    If,
    /// `else`
    Else,
    /// `foreach`
    Foreach,
    /// `while`
    While,
    /// `for`
    For,
    /// `export`
    Export,
    /// `typeof`
    Typeof,
    /// `in`
    In,
    /// `return`
    Return,
}

/// The number of distinct token kinds.
pub const TOKEN_KIND_COUNT: usize = 55;

impl TokenKind {
    /// The snake_case label of a token kind, as [`TokenKind::as_str`] returns it.
    pub open spec fn label(self) -> Seq<char> {
        match self {
            TokenKind::Eof => "eof"@,
            TokenKind::Null => "null"@,
            TokenKind::True => "true"@,
            TokenKind::False => "false"@,
            TokenKind::Number => "number"@,
            TokenKind::String => "string"@,
            TokenKind::Identifier => "identifier"@,
            TokenKind::OpenBracket => "open_bracket"@,
            TokenKind::CloseBracket => "close_bracket"@,
            TokenKind::OpenCurly => "open_curly"@,
            TokenKind::CloseCurly => "close_curly"@,
            TokenKind::OpenParen => "open_paren"@,
            TokenKind::CloseParen => "close_paren"@,
            TokenKind::Assignment => "assignment"@,
            TokenKind::Equals => "equals"@,
            TokenKind::NotEquals => "not_equals"@,
            TokenKind::Not => "not"@,
            TokenKind::Less => "less"@,
            TokenKind::LessEquals => "less_equals"@,
            TokenKind::Greater => "greater"@,
            TokenKind::GreaterEquals => "greater_equals"@,
            TokenKind::Or => "or"@,
            TokenKind::And => "and"@,
            TokenKind::Dot => "dot"@,
            TokenKind::DotDot => "dot_dot"@,
            TokenKind::SemiColon => "semi_colon"@,
            TokenKind::Colon => "colon"@,
            TokenKind::Question => "question"@,
            TokenKind::Comma => "comma"@,
            TokenKind::PlusPlus => "plus_plus"@,
            TokenKind::MinusMinus => "minus_minus"@,
            TokenKind::PlusEquals => "plus_equals"@,
            TokenKind::MinusEquals => "minus_equals"@,
            TokenKind::NullishAssignment => "nullish_assignment"@,
            TokenKind::Plus => "plus"@,
            TokenKind::Dash => "dash"@,
            TokenKind::Slash => "slash"@,
            TokenKind::Star => "star"@,
            TokenKind::Percent => "percent"@,
            TokenKind::Let => "let"@,
            TokenKind::Const => "const"@,
            TokenKind::Class => "class"@,
            TokenKind::New => "new"@,
            TokenKind::Import => "import"@,
            TokenKind::From => "from"@,
            TokenKind::Fn => "fn"@,
            TokenKind::If => "if"@,
            TokenKind::Else => "else"@,
            TokenKind::Foreach => "foreach"@,
            TokenKind::While => "while"@,
            TokenKind::For => "for"@,
            TokenKind::Export => "export"@,
            TokenKind::Typeof => "typeof"@,
            TokenKind::In => "in"@,
            TokenKind::Return => "return"@,
        }
    }

    /// The keyword that a word spells, if it is one of the reserved words.
    pub open spec fn keyword_of(word: Seq<char>) -> Option<TokenKind> {
        if word == "true"@ {
            Some(TokenKind::True)
        } else if word == "false"@ {
            Some(TokenKind::False)
        } else if word == "null"@ {
            Some(TokenKind::Null)
        } else if word == "let"@ {
            Some(TokenKind::Let)
        } else if word == "const"@ {
            Some(TokenKind::Const)
        } else if word == "class"@ {
            Some(TokenKind::Class)
        } else if word == "new"@ {
            Some(TokenKind::New)
        } else if word == "import"@ {
            Some(TokenKind::Import)
        } else if word == "from"@ {
            Some(TokenKind::From)
        } else if word == "fn"@ {
            Some(TokenKind::Fn)
        } else if word == "if"@ {
            Some(TokenKind::If)
        } else if word == "else"@ {
            Some(TokenKind::Else)
        } else if word == "foreach"@ {
            Some(TokenKind::Foreach)
        } else if word == "while"@ {
            Some(TokenKind::While)
        } else if word == "for"@ {
            Some(TokenKind::For)
        } else if word == "export"@ {
            Some(TokenKind::Export)
        } else if word == "typeof"@ {
            Some(TokenKind::Typeof)
        } else if word == "in"@ {
            Some(TokenKind::In)
        } else if word == "return"@ {
            Some(TokenKind::Return)
        } else {
            None
        }
    }

    /// True for the kinds that [`TokenKind::from_keyword`] can return.
    pub open spec fn is_keyword(self) -> bool {
        match self {
            TokenKind::True | TokenKind::False | TokenKind::Null | TokenKind::Let | TokenKind::Const | TokenKind::Class | TokenKind::New | TokenKind::Import | TokenKind::From | TokenKind::Fn | TokenKind::If | TokenKind::Else | TokenKind::Foreach | TokenKind::While | TokenKind::For | TokenKind::Export | TokenKind::Typeof | TokenKind::In | TokenKind::Return => true,
            _ => false,
        }
    }

    /// The position of a kind in the declaration order, from 0 up to
    /// [`TOKEN_KIND_COUNT`] (exclusive).
    pub open spec fn ordinal(self) -> int {
        match self {
            TokenKind::Eof => 0,
            TokenKind::Null => 1,
            TokenKind::True => 2,
            TokenKind::False => 3,
            TokenKind::Number => 4,
            TokenKind::String => 5,
            TokenKind::Identifier => 6,
            TokenKind::OpenBracket => 7,
            TokenKind::CloseBracket => 8,
            TokenKind::OpenCurly => 9,
            TokenKind::CloseCurly => 10,
            TokenKind::OpenParen => 11,
            TokenKind::CloseParen => 12,
            TokenKind::Assignment => 13,
            TokenKind::Equals => 14,
            TokenKind::NotEquals => 15,
            TokenKind::Not => 16,
            TokenKind::Less => 17,
            TokenKind::LessEquals => 18,
            TokenKind::Greater => 19,
            TokenKind::GreaterEquals => 20,
            TokenKind::Or => 21,
            TokenKind::And => 22,
            TokenKind::Dot => 23,
            TokenKind::DotDot => 24,
            TokenKind::SemiColon => 25,
            TokenKind::Colon => 26,
            TokenKind::Question => 27,
            TokenKind::Comma => 28,
            TokenKind::PlusPlus => 29,
            TokenKind::MinusMinus => 30,
            TokenKind::PlusEquals => 31,
            TokenKind::MinusEquals => 32,
            TokenKind::NullishAssignment => 33,
            TokenKind::Plus => 34,
            TokenKind::Dash => 35,
            TokenKind::Slash => 36,
            TokenKind::Star => 37,
            TokenKind::Percent => 38,
            TokenKind::Let => 39,
            TokenKind::Const => 40,
            TokenKind::Class => 41,
            TokenKind::New => 42,
            TokenKind::Import => 43,
            TokenKind::From => 44,
            TokenKind::Fn => 45,
            TokenKind::If => 46,
            TokenKind::Else => 47,
            TokenKind::Foreach => 48,
            TokenKind::While => 49,
            TokenKind::For => 50,
            TokenKind::Export => 51,
            TokenKind::Typeof => 52,
            TokenKind::In => 53,
            TokenKind::Return => 54,
        }
    }

    /// The kind at a position of the declaration order.
    pub open spec fn at_ordinal(i: int) -> TokenKind {
        if i == 0 {
            TokenKind::Eof
        } else if i == 1 {
            TokenKind::Null
        } else if i == 2 {
            TokenKind::True
        } else if i == 3 {
            TokenKind::False
        } else if i == 4 {
            TokenKind::Number
        } else if i == 5 {
            TokenKind::String
        } else if i == 6 {
            TokenKind::Identifier
        } else if i == 7 {
            TokenKind::OpenBracket
        } else if i == 8 {
            TokenKind::CloseBracket
        } else if i == 9 {
            TokenKind::OpenCurly
        } else if i == 10 {
            TokenKind::CloseCurly
        } else if i == 11 {
            TokenKind::OpenParen
        } else if i == 12 {
            TokenKind::CloseParen
        } else if i == 13 {
            TokenKind::Assignment
        } else if i == 14 {
            TokenKind::Equals
        } else if i == 15 {
            TokenKind::NotEquals
        } else if i == 16 {
            TokenKind::Not
        } else if i == 17 {
            TokenKind::Less
        } else if i == 18 {
            TokenKind::LessEquals
        } else if i == 19 {
            TokenKind::Greater
        } else if i == 20 {
            TokenKind::GreaterEquals
        } else if i == 21 {
            TokenKind::Or
        } else if i == 22 {
            TokenKind::And
        } else if i == 23 {
            TokenKind::Dot
        } else if i == 24 {
            TokenKind::DotDot
        } else if i == 25 {
            TokenKind::SemiColon
        } else if i == 26 {
            TokenKind::Colon
        } else if i == 27 {
            TokenKind::Question
        } else if i == 28 {
            TokenKind::Comma
        } else if i == 29 {
            TokenKind::PlusPlus
        } else if i == 30 {
            TokenKind::MinusMinus
        } else if i == 31 {
            TokenKind::PlusEquals
        } else if i == 32 {
            TokenKind::MinusEquals
        } else if i == 33 {
            TokenKind::NullishAssignment
        } else if i == 34 {
            TokenKind::Plus
        } else if i == 35 {
            TokenKind::Dash
        } else if i == 36 {
            TokenKind::Slash
        } else if i == 37 {
            TokenKind::Star
        } else if i == 38 {
            TokenKind::Percent
        } else if i == 39 {
            TokenKind::Let
        } else if i == 40 {
            TokenKind::Const
        } else if i == 41 {
            TokenKind::Class
        } else if i == 42 {
            TokenKind::New
        } else if i == 43 {
            TokenKind::Import
        } else if i == 44 {
            TokenKind::From
        } else if i == 45 {
            TokenKind::Fn
        } else if i == 46 {
            TokenKind::If
        } else if i == 47 {
            TokenKind::Else
        } else if i == 48 {
            TokenKind::Foreach
        } else if i == 49 {
            TokenKind::While
        } else if i == 50 {
            TokenKind::For
        } else if i == 51 {
            TokenKind::Export
        } else if i == 52 {
            TokenKind::Typeof
        } else if i == 53 {
            TokenKind::In
        } else {
            TokenKind::Return
        }
    }

    /// Returns a static string representation of this token kind.
    ///
    /// The returned string is a snake_case label suitable for diagnostics and
    /// debug output.
    pub fn as_str(self) -> (label: &'static str)
        ensures
            label@ == self.label(),
    {
        match self {
            TokenKind::Eof => "eof",
            TokenKind::Null => "null",
            TokenKind::True => "true",
            TokenKind::False => "false",
            TokenKind::Number => "number",
            TokenKind::String => "string",
            TokenKind::Identifier => "identifier",
            TokenKind::OpenBracket => "open_bracket",
            TokenKind::CloseBracket => "close_bracket",
            TokenKind::OpenCurly => "open_curly",
            TokenKind::CloseCurly => "close_curly",
            TokenKind::OpenParen => "open_paren",
            TokenKind::CloseParen => "close_paren",
            TokenKind::Assignment => "assignment",
            TokenKind::Equals => "equals",
            TokenKind::NotEquals => "not_equals",
            TokenKind::Not => "not",
            TokenKind::Less => "less",
            TokenKind::LessEquals => "less_equals",
            TokenKind::Greater => "greater",
            TokenKind::GreaterEquals => "greater_equals",
            TokenKind::Or => "or",
            TokenKind::And => "and",
            TokenKind::Dot => "dot",
            TokenKind::DotDot => "dot_dot",
            TokenKind::SemiColon => "semi_colon",
            TokenKind::Colon => "colon",
            TokenKind::Question => "question",
            TokenKind::Comma => "comma",
            TokenKind::PlusPlus => "plus_plus",
            TokenKind::MinusMinus => "minus_minus",
            TokenKind::PlusEquals => "plus_equals",
            TokenKind::MinusEquals => "minus_equals",
            TokenKind::NullishAssignment => "nullish_assignment",
            TokenKind::Plus => "plus",
            TokenKind::Dash => "dash",
            TokenKind::Slash => "slash",
            TokenKind::Star => "star",
            TokenKind::Percent => "percent",
            TokenKind::Let => "let",
            TokenKind::Const => "const",
            TokenKind::Class => "class",
            TokenKind::New => "new",
            TokenKind::Import => "import",
            TokenKind::From => "from",
            TokenKind::Fn => "fn",
            TokenKind::If => "if",
            TokenKind::Else => "else",
            TokenKind::Foreach => "foreach",
            TokenKind::While => "while",
            TokenKind::For => "for",
            TokenKind::Export => "export",
            TokenKind::Typeof => "typeof",
            TokenKind::In => "in",
            TokenKind::Return => "return",
        }
    }

    /// Resolves a raw identifier string to a reserved keyword token kind.
    ///
    /// Returns `None` if the string is not a keyword, meaning it should be
    /// treated as a plain [`Identifier`](TokenKind::Identifier).
    pub fn from_keyword(word: &str) -> (kind: Option<Self>)
        ensures
            kind == Self::keyword_of(word@),
    {
        if text_eq(word, "true") {
            return Some(TokenKind::True);
        }
        if text_eq(word, "false") {
            return Some(TokenKind::False);
        }
        if text_eq(word, "null") {
            return Some(TokenKind::Null);
        }
        if text_eq(word, "let") {
            return Some(TokenKind::Let);
        }
        if text_eq(word, "const") {
            return Some(TokenKind::Const);
        }
        if text_eq(word, "class") {
            return Some(TokenKind::Class);
        }
        if text_eq(word, "new") {
            return Some(TokenKind::New);
        }
        if text_eq(word, "import") {
            return Some(TokenKind::Import);
        }
        if text_eq(word, "from") {
            return Some(TokenKind::From);
        }
        if text_eq(word, "fn") {
            return Some(TokenKind::Fn);
        }
        if text_eq(word, "if") {
            return Some(TokenKind::If);
        }
        if text_eq(word, "else") {
            return Some(TokenKind::Else);
        }
        if text_eq(word, "foreach") {
            return Some(TokenKind::Foreach);
        }
        if text_eq(word, "while") {
            return Some(TokenKind::While);
        }
        if text_eq(word, "for") {
            return Some(TokenKind::For);
        }
        if text_eq(word, "export") {
            return Some(TokenKind::Export);
        }
        if text_eq(word, "typeof") {
            return Some(TokenKind::Typeof);
        }
        if text_eq(word, "in") {
            return Some(TokenKind::In);
        }
        if text_eq(word, "return") {
            return Some(TokenKind::Return);
        }
        None
    }

    /// The position of this kind in the declaration order.
    pub fn ordinal_index(self) -> (i: usize)
        ensures
            i as int == self.ordinal(),
            i < TOKEN_KIND_COUNT,
    {
        match self {
            TokenKind::Eof => 0,
            TokenKind::Null => 1,
            TokenKind::True => 2,
            TokenKind::False => 3,
            TokenKind::Number => 4,
            TokenKind::String => 5,
            TokenKind::Identifier => 6,
            TokenKind::OpenBracket => 7,
            TokenKind::CloseBracket => 8,
            TokenKind::OpenCurly => 9,
            TokenKind::CloseCurly => 10,
            TokenKind::OpenParen => 11,
            TokenKind::CloseParen => 12,
            TokenKind::Assignment => 13,
            TokenKind::Equals => 14,
            TokenKind::NotEquals => 15,
            TokenKind::Not => 16,
            TokenKind::Less => 17,
            TokenKind::LessEquals => 18,
            TokenKind::Greater => 19,
            TokenKind::GreaterEquals => 20,
            TokenKind::Or => 21,
            TokenKind::And => 22,
            TokenKind::Dot => 23,
            TokenKind::DotDot => 24,
            TokenKind::SemiColon => 25,
            TokenKind::Colon => 26,
            TokenKind::Question => 27,
            TokenKind::Comma => 28,
            TokenKind::PlusPlus => 29,
            TokenKind::MinusMinus => 30,
            TokenKind::PlusEquals => 31,
            TokenKind::MinusEquals => 32,
            TokenKind::NullishAssignment => 33,
            TokenKind::Plus => 34,
            TokenKind::Dash => 35,
            TokenKind::Slash => 36,
            TokenKind::Star => 37,
            TokenKind::Percent => 38,
            TokenKind::Let => 39,
            TokenKind::Const => 40,
            TokenKind::Class => 41,
            TokenKind::New => 42,
            TokenKind::Import => 43,
            TokenKind::From => 44,
            TokenKind::Fn => 45,
            TokenKind::If => 46,
            TokenKind::Else => 47,
            TokenKind::Foreach => 48,
            TokenKind::While => 49,
            TokenKind::For => 50,
            TokenKind::Export => 51,
            TokenKind::Typeof => 52,
            TokenKind::In => 53,
            TokenKind::Return => 54,
        }
    }
}

/// Every kind sits at its own position: reading the kind back at a kind's
/// position gives that kind, so distinct kinds have distinct positions.
pub proof fn lemma_ordinal_inverse(k: TokenKind)
    ensures
        0 <= k.ordinal() < TOKEN_KIND_COUNT,
        TokenKind::at_ordinal(k.ordinal()) == k,
{
}

/// `from_keyword` reads back the label of every keyword kind and refuses the
/// label of every other kind: `from_keyword(k.as_str())` is `Some(k)` exactly
/// when `k` is a keyword.
pub proof fn law_keyword_label_roundtrip(k: TokenKind)
    ensures
        TokenKind::keyword_of(k.label()) == if k.is_keyword() {
            Some(k)
        } else {
            None
        },
{
    reveal_strlit("true");
    reveal_strlit("false");
    reveal_strlit("null");
    reveal_strlit("let");
    reveal_strlit("const");
    reveal_strlit("class");
    reveal_strlit("new");
    reveal_strlit("import");
    reveal_strlit("from");
    reveal_strlit("fn");
    reveal_strlit("if");
    reveal_strlit("else");
    reveal_strlit("foreach");
    reveal_strlit("while");
    reveal_strlit("for");
    reveal_strlit("export");
    reveal_strlit("typeof");
    reveal_strlit("in");
    reveal_strlit("return");
    assert("true"@ =~= seq!['t', 'r', 'u', 'e']);
    assert("false"@ =~= seq!['f', 'a', 'l', 's', 'e']);
    assert("null"@ =~= seq!['n', 'u', 'l', 'l']);
    assert("let"@ =~= seq!['l', 'e', 't']);
    assert("const"@ =~= seq!['c', 'o', 'n', 's', 't']);
    assert("class"@ =~= seq!['c', 'l', 'a', 's', 's']);
    assert("new"@ =~= seq!['n', 'e', 'w']);
    assert("import"@ =~= seq!['i', 'm', 'p', 'o', 'r', 't']);
    assert("from"@ =~= seq!['f', 'r', 'o', 'm']);
    assert("fn"@ =~= seq!['f', 'n']);
    assert("if"@ =~= seq!['i', 'f']);
    assert("else"@ =~= seq!['e', 'l', 's', 'e']);
    assert("foreach"@ =~= seq!['f', 'o', 'r', 'e', 'a', 'c', 'h']);
    assert("while"@ =~= seq!['w', 'h', 'i', 'l', 'e']);
    assert("for"@ =~= seq!['f', 'o', 'r']);
    assert("export"@ =~= seq!['e', 'x', 'p', 'o', 'r', 't']);
    assert("typeof"@ =~= seq!['t', 'y', 'p', 'e', 'o', 'f']);
    assert("in"@ =~= seq!['i', 'n']);
    assert("return"@ =~= seq!['r', 'e', 't', 'u', 'r', 'n']);
    match k {
        TokenKind::Eof => {
            reveal_strlit("eof");
            assert("eof"@ =~= seq!['e', 'o', 'f']);
        },
        TokenKind::Null => {
            reveal_strlit("null");
            assert("null"@ =~= seq!['n', 'u', 'l', 'l']);
        },
        TokenKind::True => {
            reveal_strlit("true");
            assert("true"@ =~= seq!['t', 'r', 'u', 'e']);
        },
        TokenKind::False => {
            reveal_strlit("false");
            assert("false"@ =~= seq!['f', 'a', 'l', 's', 'e']);
        },
        TokenKind::Number => {
            reveal_strlit("number");
            assert("number"@ =~= seq!['n', 'u', 'm', 'b', 'e', 'r']);
        },
        TokenKind::String => {
            reveal_strlit("string");
            assert("string"@ =~= seq!['s', 't', 'r', 'i', 'n', 'g']);
        },
        TokenKind::Identifier => {
            reveal_strlit("identifier");
            assert("identifier"@ =~= seq!['i', 'd', 'e', 'n', 't', 'i', 'f', 'i', 'e', 'r']);
        },
        TokenKind::OpenBracket => {
            reveal_strlit("open_bracket");
            assert("open_bracket"@ =~= seq!['o', 'p', 'e', 'n', '_', 'b', 'r', 'a', 'c', 'k', 'e', 't']);
        },
        TokenKind::CloseBracket => {
            reveal_strlit("close_bracket");
            assert("close_bracket"@ =~= seq!['c', 'l', 'o', 's', 'e', '_', 'b', 'r', 'a', 'c', 'k', 'e', 't']);
        },
        TokenKind::OpenCurly => {
            reveal_strlit("open_curly");
            assert("open_curly"@ =~= seq!['o', 'p', 'e', 'n', '_', 'c', 'u', 'r', 'l', 'y']);
        },
        TokenKind::CloseCurly => {
            reveal_strlit("close_curly");
            assert("close_curly"@ =~= seq!['c', 'l', 'o', 's', 'e', '_', 'c', 'u', 'r', 'l', 'y']);
        },
        TokenKind::OpenParen => {
            reveal_strlit("open_paren");
            assert("open_paren"@ =~= seq!['o', 'p', 'e', 'n', '_', 'p', 'a', 'r', 'e', 'n']);
        },
        TokenKind::CloseParen => {
            reveal_strlit("close_paren");
            assert("close_paren"@ =~= seq!['c', 'l', 'o', 's', 'e', '_', 'p', 'a', 'r', 'e', 'n']);
        },
        TokenKind::Assignment => {
            reveal_strlit("assignment");
            assert("assignment"@ =~= seq!['a', 's', 's', 'i', 'g', 'n', 'm', 'e', 'n', 't']);
        },
        TokenKind::Equals => {
            reveal_strlit("equals");
            assert("equals"@ =~= seq!['e', 'q', 'u', 'a', 'l', 's']);
        },
        TokenKind::NotEquals => {
            reveal_strlit("not_equals");
            assert("not_equals"@ =~= seq!['n', 'o', 't', '_', 'e', 'q', 'u', 'a', 'l', 's']);
        },
        TokenKind::Not => {
            reveal_strlit("not");
            assert("not"@ =~= seq!['n', 'o', 't']);
        },
        TokenKind::Less => {
            reveal_strlit("less");
            assert("less"@ =~= seq!['l', 'e', 's', 's']);
        },
        TokenKind::LessEquals => {
            reveal_strlit("less_equals");
            assert("less_equals"@ =~= seq!['l', 'e', 's', 's', '_', 'e', 'q', 'u', 'a', 'l', 's']);
        },
        TokenKind::Greater => {
            reveal_strlit("greater");
            assert("greater"@ =~= seq!['g', 'r', 'e', 'a', 't', 'e', 'r']);
        },
        TokenKind::GreaterEquals => {
            reveal_strlit("greater_equals");
            assert("greater_equals"@ =~= seq!['g', 'r', 'e', 'a', 't', 'e', 'r', '_', 'e', 'q', 'u', 'a', 'l', 's']);
        },
        TokenKind::Or => {
            reveal_strlit("or");
            assert("or"@ =~= seq!['o', 'r']);
        },
        TokenKind::And => {
            reveal_strlit("and");
            assert("and"@ =~= seq!['a', 'n', 'd']);
        },
        TokenKind::Dot => {
            reveal_strlit("dot");
            assert("dot"@ =~= seq!['d', 'o', 't']);
        },
        TokenKind::DotDot => {
            reveal_strlit("dot_dot");
            assert("dot_dot"@ =~= seq!['d', 'o', 't', '_', 'd', 'o', 't']);
        },
        TokenKind::SemiColon => {
            reveal_strlit("semi_colon");
            assert("semi_colon"@ =~= seq!['s', 'e', 'm', 'i', '_', 'c', 'o', 'l', 'o', 'n']);
        },
        TokenKind::Colon => {
            reveal_strlit("colon");
            assert("colon"@ =~= seq!['c', 'o', 'l', 'o', 'n']);
        },
        TokenKind::Question => {
            reveal_strlit("question");
            assert("question"@ =~= seq!['q', 'u', 'e', 's', 't', 'i', 'o', 'n']);
        },
        TokenKind::Comma => {
            reveal_strlit("comma");
            assert("comma"@ =~= seq!['c', 'o', 'm', 'm', 'a']);
        },
        TokenKind::PlusPlus => {
            reveal_strlit("plus_plus");
            assert("plus_plus"@ =~= seq!['p', 'l', 'u', 's', '_', 'p', 'l', 'u', 's']);
        },
        TokenKind::MinusMinus => {
            reveal_strlit("minus_minus");
            assert("minus_minus"@ =~= seq!['m', 'i', 'n', 'u', 's', '_', 'm', 'i', 'n', 'u', 's']);
        },
        TokenKind::PlusEquals => {
            reveal_strlit("plus_equals");
            assert("plus_equals"@ =~= seq!['p', 'l', 'u', 's', '_', 'e', 'q', 'u', 'a', 'l', 's']);
        },
        TokenKind::MinusEquals => {
            reveal_strlit("minus_equals");
            assert("minus_equals"@ =~= seq!['m', 'i', 'n', 'u', 's', '_', 'e', 'q', 'u', 'a', 'l', 's']);
        },
        TokenKind::NullishAssignment => {
            reveal_strlit("nullish_assignment");
            assert("nullish_assignment"@ =~= seq!['n', 'u', 'l', 'l', 'i', 's', 'h', '_', 'a', 's', 's', 'i', 'g', 'n', 'm', 'e', 'n', 't']);
        },
        TokenKind::Plus => {
            reveal_strlit("plus");
            assert("plus"@ =~= seq!['p', 'l', 'u', 's']);
        },
        TokenKind::Dash => {
            reveal_strlit("dash");
            assert("dash"@ =~= seq!['d', 'a', 's', 'h']);
        },
        TokenKind::Slash => {
            reveal_strlit("slash");
            assert("slash"@ =~= seq!['s', 'l', 'a', 's', 'h']);
        },
        TokenKind::Star => {
            reveal_strlit("star");
            assert("star"@ =~= seq!['s', 't', 'a', 'r']);
        },
        TokenKind::Percent => {
            reveal_strlit("percent");
            assert("percent"@ =~= seq!['p', 'e', 'r', 'c', 'e', 'n', 't']);
        },
        TokenKind::Let => {
            reveal_strlit("let");
            assert("let"@ =~= seq!['l', 'e', 't']);
        },
        TokenKind::Const => {
            reveal_strlit("const");
            assert("const"@ =~= seq!['c', 'o', 'n', 's', 't']);
        },
        TokenKind::Class => {
            reveal_strlit("class");
            assert("class"@ =~= seq!['c', 'l', 'a', 's', 's']);
        },
        TokenKind::New => {
            reveal_strlit("new");
            assert("new"@ =~= seq!['n', 'e', 'w']);
        },
        TokenKind::Import => {
            reveal_strlit("import");
            assert("import"@ =~= seq!['i', 'm', 'p', 'o', 'r', 't']);
        },
        TokenKind::From => {
            reveal_strlit("from");
            assert("from"@ =~= seq!['f', 'r', 'o', 'm']);
        },
        TokenKind::Fn => {
            reveal_strlit("fn");
            assert("fn"@ =~= seq!['f', 'n']);
        },
        TokenKind::If => {
            reveal_strlit("if");
            assert("if"@ =~= seq!['i', 'f']);
        },
        TokenKind::Else => {
            reveal_strlit("else");
            assert("else"@ =~= seq!['e', 'l', 's', 'e']);
        },
        TokenKind::Foreach => {
            reveal_strlit("foreach");
            assert("foreach"@ =~= seq!['f', 'o', 'r', 'e', 'a', 'c', 'h']);
        },
        TokenKind::While => {
            reveal_strlit("while");
            assert("while"@ =~= seq!['w', 'h', 'i', 'l', 'e']);
        },
        TokenKind::For => {
            reveal_strlit("for");
            assert("for"@ =~= seq!['f', 'o', 'r']);
        },
        TokenKind::Export => {
            reveal_strlit("export");
            assert("export"@ =~= seq!['e', 'x', 'p', 'o', 'r', 't']);
        },
        TokenKind::Typeof => {
            reveal_strlit("typeof");
            assert("typeof"@ =~= seq!['t', 'y', 'p', 'e', 'o', 'f']);
        },
        TokenKind::In => {
            reveal_strlit("in");
            assert("in"@ =~= seq!['i', 'n']);
        },
        TokenKind::Return => {
            reveal_strlit("return");
            assert("return"@ =~= seq!['r', 'e', 't', 'u', 'r', 'n']);
        },
    }
}

/// A word that `from_keyword` resolves is the label of the keyword kind it
/// resolves to.
pub proof fn law_keyword_spelled_by_label(word: Seq<char>)
    ensures
        TokenKind::keyword_of(word) matches Some(k) ==> k.is_keyword() && k.label() == word,
{
}

/// Compares two strings by their UTF-8 bytes.
pub fn text_eq(a: &str, b: &str) -> (same: bool)
    ensures
        same == (a@ == b@),
{
    let x = a.as_bytes();
    let y = b.as_bytes();
    proof {
        broadcast use encode_utf8_decode_utf8;
        assert(decode_utf8(x@) == a@);
        assert(decode_utf8(y@) == b@);
    }
    if x.len() != y.len() {
        return false;
    }
    let n = x.len();
    let mut i: usize = 0;
    while i < n
        invariant
            n == x@.len(),
            n == y@.len(),
            x@ == a.spec_bytes(),
            y@ == b.spec_bytes(),
            i <= n,
            forall|j: int| 0 <= j < i ==> x@[j] == y@[j],
        decreases n - i,
    {
        if x[i] != y[i] {
            return false;
        }
        i = i + 1;
    }
    assert(x@ =~= y@);
    true
}

/// The model of a token: its kind and the text it carries.
pub struct TokenView {
    pub kind: TokenKind,
    pub value: Seq<char>,
}

/// A single lexical token produced by the lexer.
///
/// Each token carries a [`TokenKind`] indicating what category of token it is,
/// and a [`String`] holding the original source text that was matched.
#[derive(Debug, Clone, PartialEq, Eq, Hash)]
pub struct Token {
    /// The category of this token.
    pub kind: TokenKind,
    /// The raw source text that was matched for this token.
    pub value: String,
}

impl View for Token {
    type V = TokenView;

    open spec fn view(&self) -> TokenView {
        TokenView { kind: self.kind, value: self.value@ }
    }
}

/// The line that [`Token::debug_text`] renders for a token.
pub open spec fn debug_line(t: TokenView) -> Seq<char> {
    match t.kind {
        TokenKind::Identifier | TokenKind::Number | TokenKind::String => t.kind.label() + "("@
            + t.value + ")"@,
        _ => t.kind.label() + "()"@,
    }
}

impl Token {
    /// Creates a new token with the given kind and value.
    pub fn new(kind: TokenKind, value: &str) -> (token: Self)
        ensures
            token@ == (TokenView { kind, value: value@ }),
    {
        Token { kind, value: value.to_owned() }
    }

    /// A copy of this token that carries the same kind and text.
    pub fn duplicate(&self) -> (token: Self)
        ensures
            token@ == self@,
    {
        Token { kind: self.kind, value: self.value.clone() }
    }

    /// Returns `true` if this token's kind matches any of the provided kinds.
    ///
    /// This is a convenience method for checking against multiple token kinds
    /// without writing a long chain of `||` comparisons.
    pub fn is_one_of_many(&self, expected: &[TokenKind]) -> (found: bool)
        ensures
            found == expected@.contains(self.kind),
    {
        let n = expected.len();
        let mut i: usize = 0;
        while i < n
            invariant
                n == expected@.len(),
                i <= n,
                forall|j: int| 0 <= j < i ==> expected@[j] != self.kind,
            decreases n - i,
        {
            if expected[i] == self.kind {
                return true;
            }
            i = i + 1;
        }
        false
    }

    /// The human-readable line that describes the token: for tokens that carry
    /// meaningful values (identifiers, numbers, strings) the value is included,
    /// for all other tokens only the kind.
    pub fn debug_text(&self) -> (line: String)
        ensures
            line@ == debug_line(self@),
    {
        let mut line = String::from_str(self.kind.as_str());
        match self.kind {
            TokenKind::Identifier | TokenKind::Number | TokenKind::String => {
                line.append("(");
                line.append(self.value.as_str());
                line.append(")");
            },
            _ => {
                line.append("()");
            },
        }
        line
    }
}

/// The characters of every label.
proof fn lemma_labels_spelled()
    ensures
        "eof"@ == seq!['e', 'o', 'f'],
        "null"@ == seq!['n', 'u', 'l', 'l'],
        "true"@ == seq!['t', 'r', 'u', 'e'],
        "false"@ == seq!['f', 'a', 'l', 's', 'e'],
        "number"@ == seq!['n', 'u', 'm', 'b', 'e', 'r'],
        "string"@ == seq!['s', 't', 'r', 'i', 'n', 'g'],
        "identifier"@ == seq!['i', 'd', 'e', 'n', 't', 'i', 'f', 'i', 'e', 'r'],
        "open_bracket"@ == seq!['o', 'p', 'e', 'n', '_', 'b', 'r', 'a', 'c', 'k', 'e', 't'],
        "close_bracket"@ == seq!['c', 'l', 'o', 's', 'e', '_', 'b', 'r', 'a', 'c', 'k', 'e', 't'],
        "open_curly"@ == seq!['o', 'p', 'e', 'n', '_', 'c', 'u', 'r', 'l', 'y'],
        "close_curly"@ == seq!['c', 'l', 'o', 's', 'e', '_', 'c', 'u', 'r', 'l', 'y'],
        "open_paren"@ == seq!['o', 'p', 'e', 'n', '_', 'p', 'a', 'r', 'e', 'n'],
        "close_paren"@ == seq!['c', 'l', 'o', 's', 'e', '_', 'p', 'a', 'r', 'e', 'n'],
        "assignment"@ == seq!['a', 's', 's', 'i', 'g', 'n', 'm', 'e', 'n', 't'],
        "equals"@ == seq!['e', 'q', 'u', 'a', 'l', 's'],
        "not_equals"@ == seq!['n', 'o', 't', '_', 'e', 'q', 'u', 'a', 'l', 's'],
        "not"@ == seq!['n', 'o', 't'],
        "less"@ == seq!['l', 'e', 's', 's'],
        "less_equals"@ == seq!['l', 'e', 's', 's', '_', 'e', 'q', 'u', 'a', 'l', 's'],
        "greater"@ == seq!['g', 'r', 'e', 'a', 't', 'e', 'r'],
        "greater_equals"@ == seq!['g', 'r', 'e', 'a', 't', 'e', 'r', '_', 'e', 'q', 'u', 'a', 'l', 's'],
        "or"@ == seq!['o', 'r'],
        "and"@ == seq!['a', 'n', 'd'],
        "dot"@ == seq!['d', 'o', 't'],
        "dot_dot"@ == seq!['d', 'o', 't', '_', 'd', 'o', 't'],
        "semi_colon"@ == seq!['s', 'e', 'm', 'i', '_', 'c', 'o', 'l', 'o', 'n'],
        "colon"@ == seq!['c', 'o', 'l', 'o', 'n'],
        "question"@ == seq!['q', 'u', 'e', 's', 't', 'i', 'o', 'n'],
        "comma"@ == seq!['c', 'o', 'm', 'm', 'a'],
        "plus_plus"@ == seq!['p', 'l', 'u', 's', '_', 'p', 'l', 'u', 's'],
        "minus_minus"@ == seq!['m', 'i', 'n', 'u', 's', '_', 'm', 'i', 'n', 'u', 's'],
        "plus_equals"@ == seq!['p', 'l', 'u', 's', '_', 'e', 'q', 'u', 'a', 'l', 's'],
        "minus_equals"@ == seq!['m', 'i', 'n', 'u', 's', '_', 'e', 'q', 'u', 'a', 'l', 's'],
        "nullish_assignment"@ == seq!['n', 'u', 'l', 'l', 'i', 's', 'h', '_', 'a', 's', 's', 'i', 'g', 'n', 'm', 'e', 'n', 't'],
        "plus"@ == seq!['p', 'l', 'u', 's'],
        "dash"@ == seq!['d', 'a', 's', 'h'],
        "slash"@ == seq!['s', 'l', 'a', 's', 'h'],
        "star"@ == seq!['s', 't', 'a', 'r'],
        "percent"@ == seq!['p', 'e', 'r', 'c', 'e', 'n', 't'],
        "let"@ == seq!['l', 'e', 't'],
        "const"@ == seq!['c', 'o', 'n', 's', 't'],
        "class"@ == seq!['c', 'l', 'a', 's', 's'],
        "new"@ == seq!['n', 'e', 'w'],
        "import"@ == seq!['i', 'm', 'p', 'o', 'r', 't'],
        "from"@ == seq!['f', 'r', 'o', 'm'],
        "fn"@ == seq!['f', 'n'],
        "if"@ == seq!['i', 'f'],
        "else"@ == seq!['e', 'l', 's', 'e'],
        "foreach"@ == seq!['f', 'o', 'r', 'e', 'a', 'c', 'h'],
        "while"@ == seq!['w', 'h', 'i', 'l', 'e'],
        "for"@ == seq!['f', 'o', 'r'],
        "export"@ == seq!['e', 'x', 'p', 'o', 'r', 't'],
        "typeof"@ == seq!['t', 'y', 'p', 'e', 'o', 'f'],
        "in"@ == seq!['i', 'n'],
        "return"@ == seq!['r', 'e', 't', 'u', 'r', 'n'],
{
    reveal_strlit("eof");
    reveal_strlit("null");
    reveal_strlit("true");
    reveal_strlit("false");
    reveal_strlit("number");
    reveal_strlit("string");
    reveal_strlit("identifier");
    reveal_strlit("open_bracket");
    reveal_strlit("close_bracket");
    reveal_strlit("open_curly");
    reveal_strlit("close_curly");
    reveal_strlit("open_paren");
    reveal_strlit("close_paren");
    reveal_strlit("assignment");
    reveal_strlit("equals");
    reveal_strlit("not_equals");
    reveal_strlit("not");
    reveal_strlit("less");
    reveal_strlit("less_equals");
    reveal_strlit("greater");
    reveal_strlit("greater_equals");
    reveal_strlit("or");
    reveal_strlit("and");
    reveal_strlit("dot");
    reveal_strlit("dot_dot");
    reveal_strlit("semi_colon");
    reveal_strlit("colon");
    reveal_strlit("question");
    reveal_strlit("comma");
    reveal_strlit("plus_plus");
    reveal_strlit("minus_minus");
    reveal_strlit("plus_equals");
    reveal_strlit("minus_equals");
    reveal_strlit("nullish_assignment");
    reveal_strlit("plus");
    reveal_strlit("dash");
    reveal_strlit("slash");
    reveal_strlit("star");
    reveal_strlit("percent");
    reveal_strlit("let");
    reveal_strlit("const");
    reveal_strlit("class");
    reveal_strlit("new");
    reveal_strlit("import");
    reveal_strlit("from");
    reveal_strlit("fn");
    reveal_strlit("if");
    reveal_strlit("else");
    reveal_strlit("foreach");
    reveal_strlit("while");
    reveal_strlit("for");
    reveal_strlit("export");
    reveal_strlit("typeof");
    reveal_strlit("in");
    reveal_strlit("return");
    assert("eof"@ =~= seq!['e', 'o', 'f']);
    assert("null"@ =~= seq!['n', 'u', 'l', 'l']);
    assert("true"@ =~= seq!['t', 'r', 'u', 'e']);
    assert("false"@ =~= seq!['f', 'a', 'l', 's', 'e']);
    assert("number"@ =~= seq!['n', 'u', 'm', 'b', 'e', 'r']);
    assert("string"@ =~= seq!['s', 't', 'r', 'i', 'n', 'g']);
    assert("identifier"@ =~= seq!['i', 'd', 'e', 'n', 't', 'i', 'f', 'i', 'e', 'r']);
    assert("open_bracket"@ =~= seq!['o', 'p', 'e', 'n', '_', 'b', 'r', 'a', 'c', 'k', 'e', 't']);
    assert("close_bracket"@ =~= seq!['c', 'l', 'o', 's', 'e', '_', 'b', 'r', 'a', 'c', 'k', 'e', 't']);
    assert("open_curly"@ =~= seq!['o', 'p', 'e', 'n', '_', 'c', 'u', 'r', 'l', 'y']);
    assert("close_curly"@ =~= seq!['c', 'l', 'o', 's', 'e', '_', 'c', 'u', 'r', 'l', 'y']);
    assert("open_paren"@ =~= seq!['o', 'p', 'e', 'n', '_', 'p', 'a', 'r', 'e', 'n']);
    assert("close_paren"@ =~= seq!['c', 'l', 'o', 's', 'e', '_', 'p', 'a', 'r', 'e', 'n']);
    assert("assignment"@ =~= seq!['a', 's', 's', 'i', 'g', 'n', 'm', 'e', 'n', 't']);
    assert("equals"@ =~= seq!['e', 'q', 'u', 'a', 'l', 's']);
    assert("not_equals"@ =~= seq!['n', 'o', 't', '_', 'e', 'q', 'u', 'a', 'l', 's']);
    assert("not"@ =~= seq!['n', 'o', 't']);
    assert("less"@ =~= seq!['l', 'e', 's', 's']);
    assert("less_equals"@ =~= seq!['l', 'e', 's', 's', '_', 'e', 'q', 'u', 'a', 'l', 's']);
    assert("greater"@ =~= seq!['g', 'r', 'e', 'a', 't', 'e', 'r']);
    assert("greater_equals"@ =~= seq!['g', 'r', 'e', 'a', 't', 'e', 'r', '_', 'e', 'q', 'u', 'a', 'l', 's']);
    assert("or"@ =~= seq!['o', 'r']);
    assert("and"@ =~= seq!['a', 'n', 'd']);
    assert("dot"@ =~= seq!['d', 'o', 't']);
    assert("dot_dot"@ =~= seq!['d', 'o', 't', '_', 'd', 'o', 't']);
    assert("semi_colon"@ =~= seq!['s', 'e', 'm', 'i', '_', 'c', 'o', 'l', 'o', 'n']);
    assert("colon"@ =~= seq!['c', 'o', 'l', 'o', 'n']);
    assert("question"@ =~= seq!['q', 'u', 'e', 's', 't', 'i', 'o', 'n']);
    assert("comma"@ =~= seq!['c', 'o', 'm', 'm', 'a']);
    assert("plus_plus"@ =~= seq!['p', 'l', 'u', 's', '_', 'p', 'l', 'u', 's']);
    assert("minus_minus"@ =~= seq!['m', 'i', 'n', 'u', 's', '_', 'm', 'i', 'n', 'u', 's']);
    assert("plus_equals"@ =~= seq!['p', 'l', 'u', 's', '_', 'e', 'q', 'u', 'a', 'l', 's']);
    assert("minus_equals"@ =~= seq!['m', 'i', 'n', 'u', 's', '_', 'e', 'q', 'u', 'a', 'l', 's']);
    assert("nullish_assignment"@ =~= seq!['n', 'u', 'l', 'l', 'i', 's', 'h', '_', 'a', 's', 's', 'i', 'g', 'n', 'm', 'e', 'n', 't']);
    assert("plus"@ =~= seq!['p', 'l', 'u', 's']);
    assert("dash"@ =~= seq!['d', 'a', 's', 'h']);
    assert("slash"@ =~= seq!['s', 'l', 'a', 's', 'h']);
    assert("star"@ =~= seq!['s', 't', 'a', 'r']);
    assert("percent"@ =~= seq!['p', 'e', 'r', 'c', 'e', 'n', 't']);
    assert("let"@ =~= seq!['l', 'e', 't']);
    assert("const"@ =~= seq!['c', 'o', 'n', 's', 't']);
    assert("class"@ =~= seq!['c', 'l', 'a', 's', 's']);
    assert("new"@ =~= seq!['n', 'e', 'w']);
    assert("import"@ =~= seq!['i', 'm', 'p', 'o', 'r', 't']);
    assert("from"@ =~= seq!['f', 'r', 'o', 'm']);
    assert("fn"@ =~= seq!['f', 'n']);
    assert("if"@ =~= seq!['i', 'f']);
    assert("else"@ =~= seq!['e', 'l', 's', 'e']);
    assert("foreach"@ =~= seq!['f', 'o', 'r', 'e', 'a', 'c', 'h']);
    assert("while"@ =~= seq!['w', 'h', 'i', 'l', 'e']);
    assert("for"@ =~= seq!['f', 'o', 'r']);
    assert("export"@ =~= seq!['e', 'x', 'p', 'o', 'r', 't']);
    assert("typeof"@ =~= seq!['t', 'y', 'p', 'e', 'o', 'f']);
    assert("in"@ =~= seq!['i', 'n']);
    assert("return"@ =~= seq!['r', 'e', 't', 'u', 'r', 'n']);
}

/// Every kind has its own label: two kinds with the same label (the same
/// [`TokenKind::as_str`]) are the same kind.
#[verifier::spinoff_prover]
#[verifier::rlimit(50)]
pub proof fn law_label_identifies_kind(a: TokenKind, b: TokenKind)
    ensures
        a.label() == b.label() ==> a == b,
{
    lemma_labels_spelled();
    if a.label() == b.label() {
        // Equal labels agree in length and in their first seven characters,
        // which already tell every two kinds apart.
        assert(a.label().len() == b.label().len());
        assert(a.label()[0] == b.label()[0]);
        assert(a.label()[1] == b.label()[1]);
        assert(a.label()[2] == b.label()[2]);
        assert(a.label()[3] == b.label()[3]);
        assert(a.label()[4] == b.label()[4]);
        assert(a.label()[5] == b.label()[5]);
        assert(a.label()[6] == b.label()[6]);
    }
}

/// The label of every kind, character by character: the snake_case name of
/// the kind, and for keywords the reserved word itself.
pub proof fn law_labels_spelled()
    ensures
        TokenKind::Eof.label() == seq!['e', 'o', 'f'],
        TokenKind::Null.label() == seq!['n', 'u', 'l', 'l'],
        TokenKind::True.label() == seq!['t', 'r', 'u', 'e'],
        TokenKind::False.label() == seq!['f', 'a', 'l', 's', 'e'],
        TokenKind::Number.label() == seq!['n', 'u', 'm', 'b', 'e', 'r'],
        TokenKind::String.label() == seq!['s', 't', 'r', 'i', 'n', 'g'],
        TokenKind::Identifier.label() == seq!['i', 'd', 'e', 'n', 't', 'i', 'f', 'i', 'e', 'r'],
        TokenKind::OpenBracket.label() == seq!['o', 'p', 'e', 'n', '_', 'b', 'r', 'a', 'c', 'k', 'e', 't'],
        TokenKind::CloseBracket.label() == seq!['c', 'l', 'o', 's', 'e', '_', 'b', 'r', 'a', 'c', 'k', 'e', 't'],
        TokenKind::OpenCurly.label() == seq!['o', 'p', 'e', 'n', '_', 'c', 'u', 'r', 'l', 'y'],
        TokenKind::CloseCurly.label() == seq!['c', 'l', 'o', 's', 'e', '_', 'c', 'u', 'r', 'l', 'y'],
        TokenKind::OpenParen.label() == seq!['o', 'p', 'e', 'n', '_', 'p', 'a', 'r', 'e', 'n'],
        TokenKind::CloseParen.label() == seq!['c', 'l', 'o', 's', 'e', '_', 'p', 'a', 'r', 'e', 'n'],
        TokenKind::Assignment.label() == seq!['a', 's', 's', 'i', 'g', 'n', 'm', 'e', 'n', 't'],
        TokenKind::Equals.label() == seq!['e', 'q', 'u', 'a', 'l', 's'],
        TokenKind::NotEquals.label() == seq!['n', 'o', 't', '_', 'e', 'q', 'u', 'a', 'l', 's'],
        TokenKind::Not.label() == seq!['n', 'o', 't'],
        TokenKind::Less.label() == seq!['l', 'e', 's', 's'],
        TokenKind::LessEquals.label() == seq!['l', 'e', 's', 's', '_', 'e', 'q', 'u', 'a', 'l', 's'],
        TokenKind::Greater.label() == seq!['g', 'r', 'e', 'a', 't', 'e', 'r'],
        TokenKind::GreaterEquals.label() == seq!['g', 'r', 'e', 'a', 't', 'e', 'r', '_', 'e', 'q', 'u', 'a', 'l', 's'],
        TokenKind::Or.label() == seq!['o', 'r'],
        TokenKind::And.label() == seq!['a', 'n', 'd'],
        TokenKind::Dot.label() == seq!['d', 'o', 't'],
        TokenKind::DotDot.label() == seq!['d', 'o', 't', '_', 'd', 'o', 't'],
        TokenKind::SemiColon.label() == seq!['s', 'e', 'm', 'i', '_', 'c', 'o', 'l', 'o', 'n'],
        TokenKind::Colon.label() == seq!['c', 'o', 'l', 'o', 'n'],
        TokenKind::Question.label() == seq!['q', 'u', 'e', 's', 't', 'i', 'o', 'n'],
        TokenKind::Comma.label() == seq!['c', 'o', 'm', 'm', 'a'],
        TokenKind::PlusPlus.label() == seq!['p', 'l', 'u', 's', '_', 'p', 'l', 'u', 's'],
        TokenKind::MinusMinus.label() == seq!['m', 'i', 'n', 'u', 's', '_', 'm', 'i', 'n', 'u', 's'],
        TokenKind::PlusEquals.label() == seq!['p', 'l', 'u', 's', '_', 'e', 'q', 'u', 'a', 'l', 's'],
        TokenKind::MinusEquals.label() == seq!['m', 'i', 'n', 'u', 's', '_', 'e', 'q', 'u', 'a', 'l', 's'],
        TokenKind::NullishAssignment.label() == seq!['n', 'u', 'l', 'l', 'i', 's', 'h', '_', 'a', 's', 's', 'i', 'g', 'n', 'm', 'e', 'n', 't'],
        TokenKind::Plus.label() == seq!['p', 'l', 'u', 's'],
        TokenKind::Dash.label() == seq!['d', 'a', 's', 'h'],
        TokenKind::Slash.label() == seq!['s', 'l', 'a', 's', 'h'],
        TokenKind::Star.label() == seq!['s', 't', 'a', 'r'],
        TokenKind::Percent.label() == seq!['p', 'e', 'r', 'c', 'e', 'n', 't'],
        TokenKind::Let.label() == seq!['l', 'e', 't'],
        TokenKind::Const.label() == seq!['c', 'o', 'n', 's', 't'],
        TokenKind::Class.label() == seq!['c', 'l', 'a', 's', 's'],
        TokenKind::New.label() == seq!['n', 'e', 'w'],
        TokenKind::Import.label() == seq!['i', 'm', 'p', 'o', 'r', 't'],
        TokenKind::From.label() == seq!['f', 'r', 'o', 'm'],
        TokenKind::Fn.label() == seq!['f', 'n'],
        TokenKind::If.label() == seq!['i', 'f'],
        TokenKind::Else.label() == seq!['e', 'l', 's', 'e'],
        TokenKind::Foreach.label() == seq!['f', 'o', 'r', 'e', 'a', 'c', 'h'],
        TokenKind::While.label() == seq!['w', 'h', 'i', 'l', 'e'],
        TokenKind::For.label() == seq!['f', 'o', 'r'],
        TokenKind::Export.label() == seq!['e', 'x', 'p', 'o', 'r', 't'],
        TokenKind::Typeof.label() == seq!['t', 'y', 'p', 'e', 'o', 'f'],
        TokenKind::In.label() == seq!['i', 'n'],
        TokenKind::Return.label() == seq!['r', 'e', 't', 'u', 'r', 'n'],
{
    lemma_labels_spelled();
}

} // verus!
