//! Putting diagnostics into words.

use crate::syntax::TokenKind;
use vstd::prelude::*;
use vstd::string::StringExecFns;

verus! {

/// A string as Rust's debug formatting shows it: in double quotes, with
/// what cannot stand there plainly written as an escape.
pub uninterp spec fn debug_text(text: Seq<char>) -> Seq<char>;

/// `<str as Debug>::fmt`, through `format!`: the string in quotes, escaped.
#[verifier::external_body]
pub(crate) fn debug_string(text: &str) -> (r: String)
    ensures
        r@ == debug_text(text@),
{
    format!("{:?}", text)
}

/// A kind that may be missing, in words: `Some(..)` around its name, or
/// `None`.
pub open spec fn optional_kind_text(kind: Option<TokenKind>) -> Seq<char> {
    match kind {
        Some(k) => "Some("@ + k.name_spec() + ")"@,
        None => "None"@,
    }
}

pub(crate) fn optional_kind(kind: Option<TokenKind>) -> (r: String)
    ensures
        r@ == optional_kind_text(kind),
{
    match kind {
        Some(k) => {
            let mut r = String::from_str("Some(");
            r.append(k.name());
            r.append(")");
            r
        },
        None => String::from_str("None"),
    }
}

/// The names of the first `n` kinds, with `, ` between them.
pub open spec fn kind_names(kinds: Seq<TokenKind>, n: int) -> Seq<char>
    decreases n,
{
    if n <= 0 || n > kinds.len() {
        Seq::empty()
    } else if n == 1 {
        kinds[0].name_spec()
    } else {
        kind_names(kinds, n - 1) + ", "@ + kinds[n - 1].name_spec()
    }
}

/// A list of kinds in words: their names in square brackets.
pub open spec fn kind_list_text(kinds: Seq<TokenKind>) -> Seq<char> {
    "["@ + kind_names(kinds, kinds.len() as int) + "]"@
}

pub(crate) fn kind_list(kinds: &[TokenKind]) -> (r: String)
    ensures
        r@ == kind_list_text(kinds@),
{
    let mut r = String::from_str("[");
    let mut i: usize = 0;
    while i < kinds.len()
        invariant
            i <= kinds@.len(),
            r@ == "["@ + kind_names(kinds@, i as int),
        decreases kinds.len() - i,
    {
        if i > 0 {
            r.append(", ");
        }
        r.append(kinds[i].name());
        i += 1;
        assert(r@ =~= "["@ + kind_names(kinds@, i as int));
    }
    r.append("]");
    r
}

/// Three pieces of text, one after the other.
pub(crate) fn join3(a: &str, b: &str, c: &str) -> (r: String)
    ensures
        r@ == a@ + b@ + c@,
{
    let mut r = String::from_str(a);
    r.append(b);
    r.append(c);
    r
}

/// Two pieces of text, one after the other.
pub(crate) fn join2(a: &str, b: &str) -> (r: String)
    ensures
        r@ == a@ + b@,
{
    let mut r = String::from_str(a);
    r.append(b);
    r
}

} // verus!
