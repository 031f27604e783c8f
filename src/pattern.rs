//! Regular-expression matching through the `regex` crate.
use vstd::prelude::*;

verus! {

#[verifier::external_type_specification]
#[verifier::external_body]
pub struct ExRegexError(regex::Error);

/// Whether `regex::Regex::new` accepts a pattern.
pub uninterp spec fn pattern_compiles(pattern: Seq<char>) -> bool;

/// Whether a compiled pattern matches anywhere in a haystack.
pub uninterp spec fn pattern_matches(pattern: Seq<char>, haystack: Seq<char>) -> bool;

/// The text of capture group 1 in the leftmost match, if there is one.
pub uninterp spec fn pattern_group_one(pattern: Seq<char>, haystack: Seq<char>) -> Option<
    Seq<char>,
>;

/// Relies on `regex::Regex::new`, which fails exactly on patterns it cannot
/// compile, and on `Regex::is_match`, a function of pattern and haystack.
/// A compiled `Regex` shows the proofs nothing of its pattern, so compiling
/// and matching stay in one call.
#[verifier::external_body]
pub(crate) fn regex_is_match(pattern: &str, haystack: &str) -> (r: Result<bool, regex::Error>)
    ensures
        r is Ok <==> pattern_compiles(pattern@),
        r is Ok ==> r->Ok_0 == pattern_matches(pattern@, haystack@),
{
    match regex::Regex::new(pattern) {
        Ok(re) => Ok(re.is_match(haystack)),
        Err(e) => Err(e),
    }
}

/// Relies on `regex::Regex::new` as above, and on `Regex::captures` with
/// `Captures::get(1)`: the first group of the leftmost match.
#[verifier::external_body]
pub(crate) fn regex_group_one(pattern: &str, haystack: &str) -> (r: Result<
    Option<String>,
    regex::Error,
>)
    ensures
        r is Ok <==> pattern_compiles(pattern@),
        r is Ok ==> (r->Ok_0 is Some <==> pattern_group_one(pattern@, haystack@) is Some),
        r is Ok && r->Ok_0 is Some ==> r->Ok_0->0@ == pattern_group_one(pattern@, haystack@)->0,
{
    match regex::Regex::new(pattern) {
        Ok(re) => match re.captures(haystack) {
            Some(caps) => match caps.get(1) {
                Some(m) => Ok(Some(m.as_str().to_string())),
                None => Ok(None),
            },
            None => Ok(None),
        },
        Err(e) => Err(e),
    }
}

} // verus!
