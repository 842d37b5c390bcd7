//! Regular-expression search over a line, through the `regex` crate.
use vstd::prelude::*;

verus! {

/// Whether `regex::Regex::new` accepts the pattern (its syntax is valid and
/// the compiled program fits the crate's default size limits).
pub uninterp spec fn pattern_compiles(pattern: Seq<char>) -> bool;

/// Whether the regular expression compiled from `pattern` matches somewhere
/// in `text` (`regex::Regex::is_match`).
pub uninterp spec fn pattern_found(pattern: Seq<char>, text: Seq<char>) -> bool;

/// Compiles `pattern` with `regex::Regex::new` and, when that succeeds,
/// searches `text` with `Regex::is_match`. `Err` when the pattern does not
/// compile, holding the crate's error formatted for debugging (its text is
/// not stated); otherwise whether a match was found. Both results depend only
/// on the two strings, and are named, not stated.
#[verifier::external_body]
fn compile_and_search(text: &str, pattern: &str) -> (r: Result<bool, String>)
    ensures
        r is Err <==> !pattern_compiles(pattern@),
        r matches Ok(b) ==> b == pattern_found(pattern@, text@),
{
    match ::regex::Regex::new(pattern) {
        Ok(re) => Ok(re.is_match(text)),
        Err(e) => Err(format!("{:?}", e)),
    }
}

/// Searches `text` for the regular expression `ptn`: whether it holds a
/// match, or, when `ptn` is not a valid pattern, the error to report.
pub fn search(text: &str, ptn: &str) -> (r: Result<bool, String>)
    ensures
        r is Err <==> !pattern_compiles(ptn@),
        r matches Ok(b) ==> b == pattern_found(ptn@, text@),
{
    compile_and_search(text, ptn)
}

/// Whether `text` holds a match of the regular expression `ptn`; `false`
/// when `ptn` is not a valid pattern (`search` gives the error to report).
pub fn contains(text: &str, ptn: &str) -> (r: bool)
    ensures
        r == (pattern_compiles(ptn@) && pattern_found(ptn@, text@)),
{
    match search(text, ptn) {
        Ok(b) => b,
        Err(_) => false,
    }
}

} // verus!
