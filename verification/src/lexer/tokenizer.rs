//! The regex-driven lexer: an ordered table of patterns is tried against the
//! remaining input, and the first one that matches at the start wins.

use super::matcher::{compile, find, regex_compiles, regex_find, CompiledPattern};
use super::token::{Token, TokenKind, TokenView};
use crate::error::RelixError;
use vstd::prelude::*;
use vstd::string::StringSliceAdditionalSpecFns;
use vstd::string::StrSliceExecFns;
use vstd::utf8::*;

verus! {

/// What the lexer does with the text a pattern matched.
#[derive(Debug, Clone, Copy, PartialEq, Eq, Structural)]
pub enum LexAction {
    /// Whitespace: consumed, no token.
    Skip,
    /// A line comment: consumed, no token.
    Comment,
    /// A string literal token holding the matched text.
    StringLiteral,
    /// A number literal token holding the matched text.
    NumberLiteral,
    /// An identifier, or the keyword the matched word spells.
    Symbol,
    /// A punctuation or operator token of the given kind, holding the rule's text.
    Fixed(TokenKind),
}

/// One row of the lexer's pattern table.
pub struct LexRule {
    /// The regular expression, anchored at the start of the remaining input.
    pub pattern: Seq<char>,
    /// What a match produces.
    pub action: LexAction,
    /// The token text of a [`LexAction::Fixed`] rule.
    pub text: Seq<char>,
}

/// The pattern table, in the order the patterns are tried (longer and more
/// specific patterns first).
pub open spec fn lex_rules() -> Seq<LexRule> {
    seq![
        LexRule { pattern: "^\\s+"@, action: LexAction::Skip, text: ""@ },
        LexRule { pattern: "^//.*"@, action: LexAction::Comment, text: ""@ },
        LexRule { pattern: "^\"[^\"]*\""@, action: LexAction::StringLiteral, text: ""@ },
        LexRule { pattern: "^[0-9]+(\\.[0-9]+)?"@, action: LexAction::NumberLiteral, text: ""@ },
        LexRule { pattern: "^[a-zA-Z_][a-zA-Z0-9_]*"@, action: LexAction::Symbol, text: ""@ },
        LexRule { pattern: "^\\["@, action: LexAction::Fixed(TokenKind::OpenBracket), text: "["@ },
        LexRule { pattern: "^\\]"@, action: LexAction::Fixed(TokenKind::CloseBracket), text: "]"@ },
        LexRule { pattern: "^\\{"@, action: LexAction::Fixed(TokenKind::OpenCurly), text: "{"@ },
        LexRule { pattern: "^\\}"@, action: LexAction::Fixed(TokenKind::CloseCurly), text: "}"@ },
        LexRule { pattern: "^\\("@, action: LexAction::Fixed(TokenKind::OpenParen), text: "("@ },
        LexRule { pattern: "^\\)"@, action: LexAction::Fixed(TokenKind::CloseParen), text: ")"@ },
        LexRule { pattern: "^=="@, action: LexAction::Fixed(TokenKind::Equals), text: "=="@ },
        LexRule { pattern: "^!="@, action: LexAction::Fixed(TokenKind::NotEquals), text: "!="@ },
        LexRule { pattern: "^="@, action: LexAction::Fixed(TokenKind::Assignment), text: "="@ },
        LexRule { pattern: "^!"@, action: LexAction::Fixed(TokenKind::Not), text: "!"@ },
        LexRule { pattern: "^<="@, action: LexAction::Fixed(TokenKind::LessEquals), text: "<="@ },
        LexRule { pattern: "^<"@, action: LexAction::Fixed(TokenKind::Less), text: "<"@ },
        LexRule { pattern: "^>="@, action: LexAction::Fixed(TokenKind::GreaterEquals), text: ">="@ },
        LexRule { pattern: "^>"@, action: LexAction::Fixed(TokenKind::Greater), text: ">"@ },
        LexRule { pattern: "^\\|\\|"@, action: LexAction::Fixed(TokenKind::Or), text: "||"@ },
        LexRule { pattern: "^&&"@, action: LexAction::Fixed(TokenKind::And), text: "&&"@ },
        LexRule { pattern: "^\\.\\."@, action: LexAction::Fixed(TokenKind::DotDot), text: ".."@ },
        LexRule { pattern: "^\\."@, action: LexAction::Fixed(TokenKind::Dot), text: "."@ },
        LexRule { pattern: "^;"@, action: LexAction::Fixed(TokenKind::SemiColon), text: ";"@ },
        LexRule { pattern: "^:"@, action: LexAction::Fixed(TokenKind::Colon), text: ":"@ },
        LexRule { pattern: "^\\?\\?="@, action: LexAction::Fixed(TokenKind::NullishAssignment), text: "??="@ },
        LexRule { pattern: "^\\?"@, action: LexAction::Fixed(TokenKind::Question), text: "?"@ },
        LexRule { pattern: "^,"@, action: LexAction::Fixed(TokenKind::Comma), text: ","@ },
        LexRule { pattern: "^\\+\\+"@, action: LexAction::Fixed(TokenKind::PlusPlus), text: "++"@ },
        LexRule { pattern: "^--"@, action: LexAction::Fixed(TokenKind::MinusMinus), text: "--"@ },
        LexRule { pattern: "^\\+="@, action: LexAction::Fixed(TokenKind::PlusEquals), text: "+="@ },
        LexRule { pattern: "^-="@, action: LexAction::Fixed(TokenKind::MinusEquals), text: "-="@ },
        LexRule { pattern: "^\\+"@, action: LexAction::Fixed(TokenKind::Plus), text: "+"@ },
        LexRule { pattern: "^-"@, action: LexAction::Fixed(TokenKind::Dash), text: "-"@ },
        LexRule { pattern: "^/"@, action: LexAction::Fixed(TokenKind::Slash), text: "/"@ },
        LexRule { pattern: "^\\*"@, action: LexAction::Fixed(TokenKind::Star), text: "*"@ },
        LexRule { pattern: "^%"@, action: LexAction::Fixed(TokenKind::Percent), text: "%"@ },
    ]
}

/// Whether the regex crate accepts every pattern of the table.
pub open spec fn lex_rules_compile() -> bool {
    forall|i: int| 0 <= i < lex_rules().len() ==> #[trigger] regex_compiles(lex_rules()[i].pattern)
}

/// The message of the error returned when a table pattern does not compile.
pub open spec fn invalid_pattern_message() -> Seq<char> {
    "lexer error: invalid token pattern"@
}

/// The message of the error returned when no pattern matches the start of the
/// remaining input `rest`; it quotes up to the first twenty characters.
pub open spec fn unrecognized_message(rest: Seq<char>) -> Seq<char> {
    "lexer error: unrecognized token near '"@ + (if rest.len() < 20 {
        rest
    } else {
        rest.take(20)
    }) + "'"@
}

/// What each pattern of the table finds in `rest`, in table order.
pub open spec fn rule_matches(rest: Seq<char>) -> Seq<Option<(usize, usize)>> {
    lex_rules().map_values(|r: LexRule| regex_find(r.pattern, rest))
}

/// The first entry, at index `from` or later, of `found` that is a match
/// starting at byte zero with a non-empty end of at most `n_bytes`: its index
/// and that end.
pub open spec fn first_match(found: Seq<Option<(usize, usize)>>, n_bytes: int, from: int) -> Option<
    (int, int),
>
    decreases found.len() - from,
{
    if from < 0 || from >= found.len() {
        None
    } else {
        match found[from] {
            Some((start, end)) => if start == 0 && 0 < end <= n_bytes {
                Some((from, end as int))
            } else {
                first_match(found, n_bytes, from + 1)
            },
            None => first_match(found, n_bytes, from + 1),
        }
    }
}

/// The first rule, at index `from` or later, whose pattern matches a non-empty
/// prefix of `rest` (whose UTF-8 encoding is `n_bytes` long), with the byte
/// length of that match.
pub open spec fn first_rule(rest: Seq<char>, n_bytes: int, from: int) -> Option<(int, int)> {
    first_match(rule_matches(rest), n_bytes, from)
}

/// The tokens a rule produces for the text `chunk` it matched.
pub open spec fn emitted(rule: LexRule, chunk: Seq<char>) -> Seq<TokenView> {
    emitted_by(rule.action, rule.text, chunk)
}

/// The tokens that the action `action`, with the fixed text `text`, produces
/// for the matched text `chunk`.
pub open spec fn emitted_by(action: LexAction, text: Seq<char>, chunk: Seq<char>) -> Seq<TokenView> {
    match action {
        LexAction::Skip | LexAction::Comment => Seq::empty(),
        LexAction::StringLiteral => seq![TokenView { kind: TokenKind::String, value: chunk }],
        LexAction::NumberLiteral => seq![TokenView { kind: TokenKind::Number, value: chunk }],
        LexAction::Symbol => seq![
            TokenView {
                kind: match TokenKind::keyword_of(chunk) {
                    Some(k) => k,
                    None => TokenKind::Identifier,
                },
                value: chunk,
            },
        ],
        LexAction::Fixed(kind) => seq![TokenView { kind, value: text }],
    }
}

/// The end-of-file token that closes every token stream.
pub open spec fn eof_token() -> TokenView {
    TokenView { kind: TokenKind::Eof, value: "EOF"@ }
}

/// Prepends tokens to a lexing outcome.
pub open spec fn prepend_tokens(
    prefix: Seq<TokenView>,
    outcome: Result<Seq<TokenView>, Seq<char>>,
) -> Result<Seq<TokenView>, Seq<char>> {
    match outcome {
        Ok(ts) => Ok(prefix + ts),
        Err(m) => Err(m),
    }
}

/// Lexes the UTF-8 encoded remaining input `bytes`.
pub open spec fn lex_bytes(bytes: Seq<u8>) -> Result<Seq<TokenView>, Seq<char>>
    decreases bytes.len(),
{
    if bytes.len() == 0 {
        Ok(seq![eof_token()])
    } else {
        let rest = decode_utf8(bytes);
        match first_rule(rest, bytes.len() as int, 0) {
            None => Err(unrecognized_message(rest)),
            Some((i, end)) => if 0 < end <= bytes.len() {
                prepend_tokens(
                    emitted(lex_rules()[i], decode_utf8(bytes.subrange(0, end))),
                    lex_bytes(bytes.subrange(end, bytes.len() as int)),
                )
            } else {
                Err(unrecognized_message(rest))
            },
        }
    }
}

/// The outcome of tokenizing `source`.
pub open spec fn spec_tokenize(source: Seq<char>) -> Result<Seq<TokenView>, Seq<char>> {
    if !lex_rules_compile() {
        Err(invalid_pattern_message())
    } else {
        lex_bytes(encode_utf8(source))
    }
}

/// The models of a sequence of tokens.
pub open spec fn token_views(tokens: Seq<Token>) -> Seq<TokenView> {
    tokens.map_values(|t: Token| t@)
}

/// A compiled table row.
struct Pattern {
    compiled: CompiledPattern,
    action: LexAction,
    text: &'static str,
}

impl Pattern {
    spec fn rule(&self) -> LexRule {
        LexRule { pattern: self.compiled.source(), action: self.action, text: self.text@ }
    }
}

fn rule_table() -> (table: Vec<(&'static str, LexAction, &'static str)>)
    ensures
        table@.len() == lex_rules().len(),
        forall|i: int|
            0 <= i < table@.len() ==> (LexRule {
                pattern: table@[i].0@,
                action: table@[i].1,
                text: table@[i].2@,
            }) == #[trigger] lex_rules()[i],
{
    let table = vec![
        ("^\\s+", LexAction::Skip, ""),
        ("^//.*", LexAction::Comment, ""),
        ("^\"[^\"]*\"", LexAction::StringLiteral, ""),
        ("^[0-9]+(\\.[0-9]+)?", LexAction::NumberLiteral, ""),
        ("^[a-zA-Z_][a-zA-Z0-9_]*", LexAction::Symbol, ""),
        ("^\\[", LexAction::Fixed(TokenKind::OpenBracket), "["),
        ("^\\]", LexAction::Fixed(TokenKind::CloseBracket), "]"),
        ("^\\{", LexAction::Fixed(TokenKind::OpenCurly), "{"),
        ("^\\}", LexAction::Fixed(TokenKind::CloseCurly), "}"),
        ("^\\(", LexAction::Fixed(TokenKind::OpenParen), "("),
        ("^\\)", LexAction::Fixed(TokenKind::CloseParen), ")"),
        ("^==", LexAction::Fixed(TokenKind::Equals), "=="),
        ("^!=", LexAction::Fixed(TokenKind::NotEquals), "!="),
        ("^=", LexAction::Fixed(TokenKind::Assignment), "="),
        ("^!", LexAction::Fixed(TokenKind::Not), "!"),
        ("^<=", LexAction::Fixed(TokenKind::LessEquals), "<="),
        ("^<", LexAction::Fixed(TokenKind::Less), "<"),
        ("^>=", LexAction::Fixed(TokenKind::GreaterEquals), ">="),
        ("^>", LexAction::Fixed(TokenKind::Greater), ">"),
        ("^\\|\\|", LexAction::Fixed(TokenKind::Or), "||"),
        ("^&&", LexAction::Fixed(TokenKind::And), "&&"),
        ("^\\.\\.", LexAction::Fixed(TokenKind::DotDot), ".."),
        ("^\\.", LexAction::Fixed(TokenKind::Dot), "."),
        ("^;", LexAction::Fixed(TokenKind::SemiColon), ";"),
        ("^:", LexAction::Fixed(TokenKind::Colon), ":"),
        ("^\\?\\?=", LexAction::Fixed(TokenKind::NullishAssignment), "??="),
        ("^\\?", LexAction::Fixed(TokenKind::Question), "?"),
        ("^,", LexAction::Fixed(TokenKind::Comma), ","),
        ("^\\+\\+", LexAction::Fixed(TokenKind::PlusPlus), "++"),
        ("^--", LexAction::Fixed(TokenKind::MinusMinus), "--"),
        ("^\\+=", LexAction::Fixed(TokenKind::PlusEquals), "+="),
        ("^-=", LexAction::Fixed(TokenKind::MinusEquals), "-="),
        ("^\\+", LexAction::Fixed(TokenKind::Plus), "+"),
        ("^-", LexAction::Fixed(TokenKind::Dash), "-"),
        ("^/", LexAction::Fixed(TokenKind::Slash), "/"),
        ("^\\*", LexAction::Fixed(TokenKind::Star), "*"),
        ("^%", LexAction::Fixed(TokenKind::Percent), "%"),
    ];
    table
}

/// Compiles the pattern table.
fn build_patterns() -> (patterns: Result<Vec<Pattern>, RelixError>)
    ensures
        patterns is Ok <==> lex_rules_compile(),
        patterns matches Ok(ps) ==> {
            &&& ps@.len() == lex_rules().len()
            &&& forall|i: int| 0 <= i < ps@.len() ==> #[trigger] ps@[i].rule() == lex_rules()[i]
        },
        patterns matches Err(e) ==> e@ == invalid_pattern_message(),
{
    let table = rule_table();
    let mut patterns: Vec<Pattern> = Vec::new();
    let n = table.len();
    let mut i: usize = 0;
    while i < n
        invariant
            n == table@.len(),
            n == lex_rules().len(),
            i <= n,
            patterns@.len() == i,
            forall|j: int|
                0 <= j < table@.len() ==> (LexRule {
                    pattern: table@[j].0@,
                    action: table@[j].1,
                    text: table@[j].2@,
                }) == #[trigger] lex_rules()[j],
            forall|j: int| 0 <= j < i ==> #[trigger] patterns@[j].rule() == lex_rules()[j],
            forall|j: int| 0 <= j < i ==> #[trigger] regex_compiles(lex_rules()[j].pattern),
        decreases n - i,
    {
        let (source, action, text) = table[i];
        assert(lex_rules()[i as int].pattern == source@);
        match compile(source) {
            Some(compiled) => {
                patterns.push(Pattern { compiled, action, text });
            },
            None => {
                return Err(RelixError::new("lexer error: invalid token pattern"));
            },
        }
        i = i + 1;
    }
    Ok(patterns)
}

/// The error for input that no pattern recognizes.
fn unrecognized(rest: &str) -> (err: RelixError)
    ensures
        err@ == unrecognized_message(rest@),
{
    let n = rest.unicode_len();
    let shown = if n < 20 {
        rest.substring_char(0, n)
    } else {
        rest.substring_char(0, 20)
    };
    let mut message = String::from_str("lexer error: unrecognized token near '");
    message.append(shown);
    message.append("'");
    proof {
        if n < 20 {
            assert(shown@ =~= rest@);
        }
    }
    RelixError::from_message(message)
}

/// Picks the rule the lexer applies, given what each pattern of the table
/// found in the remaining input (in table order) and the input's byte length:
/// the first match that starts at byte zero and is non-empty, with its end.
pub fn select_rule(found: &Vec<Option<(usize, usize)>>, n_bytes: usize) -> (r: Option<(usize, usize)>)
    ensures
        match r {
            Some((i, end)) => {
                &&& first_match(found@, n_bytes as int, 0) == Some((i as int, end as int))
                &&& i < found@.len()
                &&& found@[i as int] == Some((0usize, end))
                &&& 0 < end <= n_bytes
            },
            None => first_match(found@, n_bytes as int, 0) is None,
        },
{
    let n = found.len();
    let mut i: usize = 0;
    while i < n
        invariant
            n == found@.len(),
            i <= n,
            first_match(found@, n_bytes as int, 0) == first_match(found@, n_bytes as int, i as int),
        decreases n - i,
    {
        match found[i] {
            Some((start, end)) => {
                if start == 0 && 0 < end && end <= n_bytes {
                    return Some((i, end));
                }
            },
            None => {},
        }
        i = i + 1;
    }
    None
}

/// The tokens that a rule with action `action` and fixed text `text` produces
/// for the text `chunk` it matched: none for whitespace and comments, a
/// string, number, keyword or identifier token holding the chunk, or a token
/// of the fixed kind holding the rule's text.
pub fn tokens_for(action: LexAction, text: &str, chunk: &str) -> (ts: Vec<Token>)
    ensures
        token_views(ts@) == emitted_by(action, text@, chunk@),
{
    let mut ts: Vec<Token> = Vec::new();
    match action {
        LexAction::Skip => {},
        LexAction::Comment => {},
        LexAction::StringLiteral => {
            ts.push(Token::new(TokenKind::String, chunk));
        },
        LexAction::NumberLiteral => {
            ts.push(Token::new(TokenKind::Number, chunk));
        },
        LexAction::Symbol => {
            let kind = match TokenKind::from_keyword(chunk) {
                Some(kw) => kw,
                None => TokenKind::Identifier,
            };
            ts.push(Token::new(kind, chunk));
        },
        LexAction::Fixed(kind) => {
            ts.push(Token::new(kind, text));
        },
    }
    assert(token_views(ts@) =~= emitted_by(action, text@, chunk@));
    ts
}

/// Converts source text into the token stream, closed by an end-of-file token.
///
/// # Errors
///
/// Returns a [`RelixError`] when no pattern matches the start of the remaining
/// input.
pub fn tokenize(source: &str) -> (tokens: Result<Vec<Token>, RelixError>)
    ensures
        spec_tokenize(source@) == match tokens {
            Ok(ts) => Ok(token_views(ts@)),
            Err(e) => Err(e@),
        },
{
    let patterns = match build_patterns() {
        Ok(ps) => ps,
        Err(e) => {
            return Err(e);
        },
    };
    let mut tokens: Vec<Token> = Vec::new();
    let mut rest: &str = source;
    let ghost whole = source.spec_bytes();
    proof {
        assert(token_views(tokens@) =~= Seq::<TokenView>::empty());
        match lex_bytes(whole) {
            Ok(ts) => assert(Seq::<TokenView>::empty() + ts =~= ts),
            Err(_) => {},
        }
    }
    while !rest.is_empty()
        invariant
            lex_rules_compile(),
            patterns@.len() == lex_rules().len(),
            forall|i: int| 0 <= i < patterns@.len() ==> #[trigger] patterns@[i].rule() == lex_rules()[i],
            whole == source.spec_bytes(),
            lex_bytes(whole) == prepend_tokens(token_views(tokens@), lex_bytes(rest.spec_bytes())),
        decreases rest.spec_bytes().len(),
    {
        let ghost bytes = rest.spec_bytes();
        proof {
            broadcast use encode_utf8_decode_utf8;
            assert(decode_utf8(bytes) == rest@);
        }
        let n_patterns = patterns.len();
        let mut found: Vec<Option<(usize, usize)>> = Vec::new();
        let mut i: usize = 0;
        while i < n_patterns
            invariant
                n_patterns == patterns@.len(),
                n_patterns == lex_rules().len(),
                forall|j: int| 0 <= j < patterns@.len() ==> #[trigger] patterns@[j].rule() == lex_rules()[j],
                bytes == rest.spec_bytes(),
                i <= n_patterns,
                found@.len() == i,
                forall|j: int|
                    0 <= j < i ==> {
                        &&& #[trigger] found@[j] == rule_matches(rest@)[j]
                        &&& found@[j] matches Some((_, e)) ==> e <= bytes.len()
                            && is_char_boundary(bytes, e as int)
                    },
            decreases n_patterns - i,
        {
            assert(patterns@[i as int].rule() == lex_rules()[i as int]);
            let m = find(&patterns[i].compiled, rest);
            found.push(m);
            i = i + 1;
        }
        assert(found@ =~= rule_matches(rest@));
        let n_bytes = rest.as_bytes().len();
        assert(n_bytes as int == bytes.len());
        match select_rule(&found, n_bytes) {
            None => {
                assert(first_rule(rest@, bytes.len() as int, 0) is None);
                assert(lex_bytes(bytes) == Err::<Seq<TokenView>, Seq<char>>(
                    unrecognized_message(rest@),
                ));
                return Err(unrecognized(rest));
            },
            Some((k, end)) => {
                assert(found@[k as int] == rule_matches(rest@)[k as int]);
                assert(first_rule(rest@, bytes.len() as int, 0) == Some((k as int, end as int)));
                let (chunk, after) = rest.split_at(end);
                let ghost before = token_views(tokens@);
                proof {
                    broadcast use encode_utf8_decode_utf8;
                    assert(decode_utf8(chunk.spec_bytes()) == chunk@);
                    assert(chunk@ == decode_utf8(bytes.subrange(0, end as int)));
                    assert(after.spec_bytes() == bytes.subrange(end as int, bytes.len() as int));
                }
                assert(patterns@[k as int].rule() == lex_rules()[k as int]);
                let mut produced = tokens_for(patterns[k].action, patterns[k].text, chunk);
                let ghost old_tokens = tokens@;
                let ghost fresh = produced@;
                tokens.append(&mut produced);
                proof {
                    let e = emitted(lex_rules()[k as int], chunk@);
                    assert(tokens@ == old_tokens + fresh);
                    assert(token_views(tokens@) =~= before + e);
                    match lex_bytes(after.spec_bytes()) {
                        Ok(ts) => assert(before + (e + ts) =~= (before + e) + ts),
                        Err(_) => {},
                    }
                }
                rest = after;
            },
        }
    }
    proof {
        assert(rest@.len() == 0);
        assert(rest.spec_bytes().len() == 0);
    }
    let ghost before = token_views(tokens@);
    tokens.push(Token::new(TokenKind::Eof, "EOF"));
    proof {
        assert(token_views(tokens@) =~= before + seq![eof_token()]);
    }
    Ok(tokens)
}

/// No rule of the table produces an end-of-file token.
proof fn lemma_rule_never_emits_eof(i: int, chunk: Seq<char>)
    requires
        0 <= i < lex_rules().len(),
    ensures
        forall|j: int|
            0 <= j < emitted(lex_rules()[i], chunk).len() ==> #[trigger] emitted(
                lex_rules()[i],
                chunk,
            )[j].kind != TokenKind::Eof,
{
    assert(lex_rules()[i].action != LexAction::Fixed(TokenKind::Eof));
}

/// A successful lexing of a byte sequence ends with the end-of-file token,
/// and no earlier token is of the end-of-file kind.
pub proof fn lemma_lex_bytes_ends_with_eof(bytes: Seq<u8>)
    ensures
        lex_bytes(bytes) matches Ok(ts) ==> {
            &&& ts.len() > 0
            &&& ts.last() == eof_token()
            &&& forall|j: int| 0 <= j < ts.len() - 1 ==> #[trigger] ts[j].kind != TokenKind::Eof
        },
    decreases bytes.len(),
{
    if bytes.len() > 0 {
        let rest = decode_utf8(bytes);
        match first_rule(rest, bytes.len() as int, 0) {
            None => {},
            Some((i, end)) => {
                if 0 < end <= bytes.len() {
                    let tail = bytes.subrange(end, bytes.len() as int);
                    lemma_lex_bytes_ends_with_eof(tail);
                    lemma_first_rule_in_table(rest, bytes.len() as int, 0);
                    let e = emitted(lex_rules()[i], decode_utf8(bytes.subrange(0, end)));
                    lemma_rule_never_emits_eof(i, decode_utf8(bytes.subrange(0, end)));
                    match lex_bytes(tail) {
                        Ok(ts) => {
                            let all = e + ts;
                            assert forall|j: int| 0 <= j < all.len() - 1 implies #[trigger] all[j].kind
                                != TokenKind::Eof by {
                                if j >= e.len() {
                                    assert(all[j] == ts[j - e.len()]);
                                }
                            }
                        },
                        Err(_) => {},
                    }
                }
            },
        }
    }
}

/// The rule [`first_rule`] finds is a row of the table.
proof fn lemma_first_rule_in_table(rest: Seq<char>, n_bytes: int, from: int)
    ensures
        first_rule(rest, n_bytes, from) matches Some((i, _)) ==> 0 <= i < lex_rules().len(),
    decreases lex_rules().len() - from,
{
    if 0 <= from < lex_rules().len() {
        lemma_first_rule_in_table(rest, n_bytes, from + 1);
    }
}

/// Tokenizing either fails or gives a stream that ends with the end-of-file
/// token `EOF`, with no other token of the end-of-file kind.
pub proof fn law_token_stream_ends_with_eof(source: Seq<char>)
    ensures
        spec_tokenize(source) matches Ok(ts) ==> {
            &&& ts.len() > 0
            &&& ts.last() == eof_token()
            &&& forall|j: int| 0 <= j < ts.len() - 1 ==> #[trigger] ts[j].kind != TokenKind::Eof
        },
{
    lemma_lex_bytes_ends_with_eof(encode_utf8(source));
}

/// Whether the rule at `i` matches a non-empty prefix of `rest` (of
/// `n_bytes` bytes), as [`first_rule`] tests it.
pub open spec fn rule_matches_at_start(i: int, rest: Seq<char>, n_bytes: int) -> bool {
    match regex_find(lex_rules()[i].pattern, rest) {
        Some((start, end)) => start == 0 && 0 < end <= n_bytes,
        None => false,
    }
}

/// The first match at position zero wins: the rule the lexer applies is the
/// first one, in table order, whose pattern matches a non-empty prefix of the
/// remaining input; when no rule matches, none is applied.
pub proof fn law_first_matching_rule_wins(rest: Seq<char>, n_bytes: int, from: int)
    requires
        0 <= from,
    ensures
        first_rule(rest, n_bytes, from) matches Some((i, end)) ==> {
            &&& from <= i < lex_rules().len()
            &&& rule_matches_at_start(i, rest, n_bytes)
            &&& regex_find(lex_rules()[i].pattern, rest) matches Some((_, e)) && e == end
            &&& forall|j: int| from <= j < i ==> !#[trigger] rule_matches_at_start(j, rest, n_bytes)
        },
        first_rule(rest, n_bytes, from) is None ==> forall|j: int|
            from <= j < lex_rules().len() ==> !#[trigger] rule_matches_at_start(j, rest, n_bytes),
    decreases lex_rules().len() - from,
{
    if from < lex_rules().len() {
        law_first_matching_rule_wins(rest, n_bytes, from + 1);
    }
}

/// The lexer's word-like patterns, as literal text, in the order they are
/// tried, before every punctuation and operator rule: whitespace, line
/// comments, double-quoted strings, numbers with an optional fraction, and
/// words `[a-zA-Z_][a-zA-Z0-9_]*`, which give identifiers and keywords. A
/// word may thus hold underscores and digits after its first character.
pub proof fn law_word_patterns()
    ensures
        lex_rules().len() == 37,
        lex_rules()[0] == (LexRule { pattern: "^\\s+"@, action: LexAction::Skip, text: ""@ }),
        lex_rules()[1] == (LexRule { pattern: "^//.*"@, action: LexAction::Comment, text: ""@ }),
        lex_rules()[2] == (LexRule {
            pattern: "^\"[^\"]*\""@,
            action: LexAction::StringLiteral,
            text: ""@,
        }),
        lex_rules()[3] == (LexRule {
            pattern: "^[0-9]+(\\.[0-9]+)?"@,
            action: LexAction::NumberLiteral,
            text: ""@,
        }),
        lex_rules()[4] == (LexRule {
            pattern: "^[a-zA-Z_][a-zA-Z0-9_]*"@,
            action: LexAction::Symbol,
            text: ""@,
        }),
        forall|i: int| 5 <= i < lex_rules().len() ==> #[trigger] lex_rules()[i].action is Fixed,
{
}

/// The punctuation and operator patterns, as literal text, in the order they
/// are tried: a longer operator is tried before any operator it starts with
/// (`==` before `=`, `??=` before `?`, `..` before `.`, `++` and `+=` before
/// `+`), and each produces the token of its kind holding exactly its text.
pub proof fn law_operator_patterns()
    ensures
        lex_rules()[5] == (LexRule {
            pattern: "^\\["@,
            action: LexAction::Fixed(TokenKind::OpenBracket),
            text: "["@,
        }),
        lex_rules()[6] == (LexRule {
            pattern: "^\\]"@,
            action: LexAction::Fixed(TokenKind::CloseBracket),
            text: "]"@,
        }),
        lex_rules()[7] == (LexRule {
            pattern: "^\\{"@,
            action: LexAction::Fixed(TokenKind::OpenCurly),
            text: "{"@,
        }),
        lex_rules()[8] == (LexRule {
            pattern: "^\\}"@,
            action: LexAction::Fixed(TokenKind::CloseCurly),
            text: "}"@,
        }),
        lex_rules()[9] == (LexRule {
            pattern: "^\\("@,
            action: LexAction::Fixed(TokenKind::OpenParen),
            text: "("@,
        }),
        lex_rules()[10] == (LexRule {
            pattern: "^\\)"@,
            action: LexAction::Fixed(TokenKind::CloseParen),
            text: ")"@,
        }),
        lex_rules()[11] == (LexRule {
            pattern: "^=="@,
            action: LexAction::Fixed(TokenKind::Equals),
            text: "=="@,
        }),
        lex_rules()[12] == (LexRule {
            pattern: "^!="@,
            action: LexAction::Fixed(TokenKind::NotEquals),
            text: "!="@,
        }),
        lex_rules()[13] == (LexRule {
            pattern: "^="@,
            action: LexAction::Fixed(TokenKind::Assignment),
            text: "="@,
        }),
        lex_rules()[14] == (LexRule {
            pattern: "^!"@,
            action: LexAction::Fixed(TokenKind::Not),
            text: "!"@,
        }),
        lex_rules()[15] == (LexRule {
            pattern: "^<="@,
            action: LexAction::Fixed(TokenKind::LessEquals),
            text: "<="@,
        }),
        lex_rules()[16] == (LexRule {
            pattern: "^<"@,
            action: LexAction::Fixed(TokenKind::Less),
            text: "<"@,
        }),
        lex_rules()[17] == (LexRule {
            pattern: "^>="@,
            action: LexAction::Fixed(TokenKind::GreaterEquals),
            text: ">="@,
        }),
        lex_rules()[18] == (LexRule {
            pattern: "^>"@,
            action: LexAction::Fixed(TokenKind::Greater),
            text: ">"@,
        }),
        lex_rules()[19] == (LexRule {
            pattern: "^\\|\\|"@,
            action: LexAction::Fixed(TokenKind::Or),
            text: "||"@,
        }),
        lex_rules()[20] == (LexRule {
            pattern: "^&&"@,
            action: LexAction::Fixed(TokenKind::And),
            text: "&&"@,
        }),
        lex_rules()[21] == (LexRule {
            pattern: "^\\.\\."@,
            action: LexAction::Fixed(TokenKind::DotDot),
            text: ".."@,
        }),
        lex_rules()[22] == (LexRule {
            pattern: "^\\."@,
            action: LexAction::Fixed(TokenKind::Dot),
            text: "."@,
        }),
        lex_rules()[23] == (LexRule {
            pattern: "^;"@,
            action: LexAction::Fixed(TokenKind::SemiColon),
            text: ";"@,
        }),
        lex_rules()[24] == (LexRule {
            pattern: "^:"@,
            action: LexAction::Fixed(TokenKind::Colon),
            text: ":"@,
        }),
        lex_rules()[25] == (LexRule {
            pattern: "^\\?\\?="@,
            action: LexAction::Fixed(TokenKind::NullishAssignment),
            text: "??="@,
        }),
        lex_rules()[26] == (LexRule {
            pattern: "^\\?"@,
            action: LexAction::Fixed(TokenKind::Question),
            text: "?"@,
        }),
        lex_rules()[27] == (LexRule {
            pattern: "^,"@,
            action: LexAction::Fixed(TokenKind::Comma),
            text: ","@,
        }),
        lex_rules()[28] == (LexRule {
            pattern: "^\\+\\+"@,
            action: LexAction::Fixed(TokenKind::PlusPlus),
            text: "++"@,
        }),
        lex_rules()[29] == (LexRule {
            pattern: "^--"@,
            action: LexAction::Fixed(TokenKind::MinusMinus),
            text: "--"@,
        }),
        lex_rules()[30] == (LexRule {
            pattern: "^\\+="@,
            action: LexAction::Fixed(TokenKind::PlusEquals),
            text: "+="@,
        }),
        lex_rules()[31] == (LexRule {
            pattern: "^-="@,
            action: LexAction::Fixed(TokenKind::MinusEquals),
            text: "-="@,
        }),
        lex_rules()[32] == (LexRule {
            pattern: "^\\+"@,
            action: LexAction::Fixed(TokenKind::Plus),
            text: "+"@,
        }),
        lex_rules()[33] == (LexRule {
            pattern: "^-"@,
            action: LexAction::Fixed(TokenKind::Dash),
            text: "-"@,
        }),
        lex_rules()[34] == (LexRule {
            pattern: "^/"@,
            action: LexAction::Fixed(TokenKind::Slash),
            text: "/"@,
        }),
        lex_rules()[35] == (LexRule {
            pattern: "^\\*"@,
            action: LexAction::Fixed(TokenKind::Star),
            text: "*"@,
        }),
        lex_rules()[36] == (LexRule {
            pattern: "^%"@,
            action: LexAction::Fixed(TokenKind::Percent),
            text: "%"@,
        }),
{
}

} // verus!
