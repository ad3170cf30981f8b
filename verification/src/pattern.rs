//! Searching text for a regular expression.

use vstd::prelude::*;

verus! {

/// Whether the regular expression `pattern` matches anywhere in `haystack`,
/// or `None` where `pattern` is not a regular expression that can be
/// compiled.
pub uninterp spec fn regex_search(pattern: Seq<char>, haystack: Seq<char>) -> Option<bool>;

/// Compiles `pattern` with `regex::Regex::new` and searches `haystack` with
/// `regex::Regex::is_match`.
///
/// Trusted: the answer depends on the two texts alone, so it is given the
/// name `regex_search`; nothing more is claimed of it. Compiling reports a
/// pattern it rejects as an error, which is handed on as `None`, and neither
/// call panics.
#[verifier::external_body]
pub(crate) fn search(pattern: &str, haystack: &str) -> (found: Option<bool>)
    ensures
        found == regex_search(pattern@, haystack@),
{
    match regex::Regex::new(pattern) {
        Ok(compiled) => Some(compiled.is_match(haystack)),
        Err(_) => None,
    }
}

} // verus!
