//! Lexical analysis (tokenization) for the Relix language.
//!
//! This module converts raw source text into a sequence of [`Token`] values
//! that the parser can consume. The lexer is regex-driven: each pattern in an
//! ordered table is tested against the remaining input, and the first match at
//! position zero wins.

mod matcher;
mod token;
mod tokenizer;

pub use matcher::{regex_compiles, regex_find, CompiledPattern};
pub use token::{
    debug_line, law_keyword_label_roundtrip, law_keyword_spelled_by_label,
    law_label_identifies_kind, law_labels_spelled, lemma_ordinal_inverse, text_eq, Token,
    TokenKind, TokenView, TOKEN_KIND_COUNT,
};
pub use tokenizer::{
    emitted, emitted_by, eof_token, first_match, first_rule, invalid_pattern_message,
    law_first_matching_rule_wins, law_operator_patterns, law_token_stream_ends_with_eof,
    law_word_patterns, lemma_lex_bytes_ends_with_eof, lex_bytes, lex_rules, lex_rules_compile,
    prepend_tokens, rule_matches, rule_matches_at_start, select_rule, spec_tokenize, token_views,
    tokenize, tokens_for, unrecognized_message, LexAction, LexRule,
};
