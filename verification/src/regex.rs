//! Regular expressions, as the `fancy_regex` crate provides them.

use fancy_regex::Regex;
use vstd::prelude::*;
use vstd::string::StringSliceAdditionalSpecFns;
use vstd::utf8::is_char_boundary;

verus! {

/// `fancy_regex::Regex`: a compiled regular expression. Nothing is known of
/// it but the text that it was compiled from.
#[verifier::external_type_specification]
#[verifier::external_body]
pub struct ExRegex(Regex);

/// `fancy_regex::Error`: why a pattern was refused. It is only passed on.
#[verifier::external_type_specification]
#[verifier::external_body]
pub struct ExRegexError(fancy_regex::Error);

/// What one search of a compiled pattern reports.
#[derive(Clone, Copy, Debug, PartialEq, Eq, Structural)]
pub enum Found {
    /// The leftmost match, as byte offsets into the text searched.
    Span(usize, usize),
    /// The pattern matches nowhere at or after the starting position.
    Nothing,
    /// The engine gave up.
    Failed,
}

/// The pattern text that a compiled expression was built from.
pub uninterp spec fn regex_source(re: Regex) -> Seq<char>;

/// Whether the engine, with its default options, compiles `pattern`.
pub uninterp spec fn regex_accepts(pattern: Seq<char>) -> bool;

/// What searching `text` for `pattern` from byte offset `from` reports.
pub uninterp spec fn regex_find(pattern: Seq<char>, text: Seq<char>, from: int) -> Found;

/// `Regex::new`: compiles `pattern` with the default options. Whether that
/// succeeds depends on the pattern alone. A compiled expression remembers
/// the text it was built from.
#[verifier::external_body]
pub(crate) fn compile(pattern: &str) -> (r: Result<Regex, fancy_regex::Error>)
    ensures
        r is Ok == regex_accepts(pattern@),
        r matches Ok(re) ==> regex_source(re) == pattern@,
{
    Regex::new(pattern)
}

/// `Regex::find_from_pos`: the first match in `text` that starts at or after
/// the byte offset `from`, which lies on a character boundary. The outcome
/// depends on the pattern, the text and the offset alone. A search that the
/// engine gives up on is reported as `Failed`.
#[verifier::external_body]
pub(crate) fn find_from(re: &Regex, text: &str, from: usize) -> (r: Found)
    requires
        from <= text.spec_bytes().len(),
        is_char_boundary(text.spec_bytes(), from as int),
    ensures
        r == regex_find(regex_source(*re), text@, from as int),
{
    match re.find_from_pos(text, from) {
        Ok(Some(m)) => Found::Span(m.start(), m.end()),
        Ok(None) => Found::Nothing,
        Err(_) => Found::Failed,
    }
}

} // verus!
