//! The lexer's use of the `regex` crate: compiling a pattern and finding its
//! first match in a piece of source text.

use regex::Regex;
use vstd::prelude::*;
use vstd::string::StringSliceAdditionalSpecFns;
use vstd::utf8::*;

verus! {

/// `regex::Regex`, carried through the lexer as an opaque value.
#[verifier::external_type_specification]
#[verifier::external_body]
pub struct ExRegex(Regex);

/// A compiled regular expression together with the pattern text it was
/// compiled from.
///
/// Values of this type are only made by [`compile`], which keeps the two
/// fields in step: the regex is the compilation of `source`.
pub struct CompiledPattern {
    regex: Regex,
    source: String,
}

impl CompiledPattern {
    /// The pattern text the regex was compiled from.
    pub closed spec fn source(&self) -> Seq<char> {
        self.source@
    }
}

/// Whether `regex::Regex::new` accepts a pattern (it depends on the pattern
/// text alone).
pub uninterp spec fn regex_compiles(pattern: Seq<char>) -> bool;

/// What `regex::Regex::find` returns, as byte offsets `(start, end)`, for the
/// regex compiled from `pattern` searched over `haystack`.
pub uninterp spec fn regex_find(pattern: Seq<char>, haystack: Seq<char>) -> Option<(usize, usize)>;

/// Calls `regex::Regex::new` on `source`.
///
/// Trusted: the result is `Some` exactly when the regex crate accepts the
/// pattern (named [`regex_compiles`]), and a returned value remembers the
/// pattern text it was compiled from.
#[verifier::external_body]
pub(crate) fn compile(source: &str) -> (compiled: Option<CompiledPattern>)
    ensures
        compiled is Some <==> regex_compiles(source@),
        compiled matches Some(c) ==> c.source() == source@,
{
    match Regex::new(source) {
        Ok(regex) => Some(CompiledPattern { regex, source: source.to_string() }),
        Err(_) => None,
    }
}

/// Calls `regex::Regex::find` and returns the match's byte offsets.
///
/// Trusted: the result is the named [`regex_find`] of the compiled pattern
/// text and the haystack; as the regex crate documents for `Match`, the start
/// is at most the end, and both offsets lie on UTF-8 character boundaries of
/// the haystack (so slicing the haystack at them is valid).
#[verifier::external_body]
pub(crate) fn find(pattern: &CompiledPattern, haystack: &str) -> (found: Option<(usize, usize)>)
    ensures
        found == regex_find(pattern.source(), haystack@),
        found matches Some((start, end)) ==> {
            &&& start <= end <= haystack.spec_bytes().len()
            &&& is_char_boundary(haystack.spec_bytes(), start as int)
            &&& is_char_boundary(haystack.spec_bytes(), end as int)
        },
{
    pattern.regex.find(haystack).map(|m| (m.start(), m.end()))
}

} // verus!
