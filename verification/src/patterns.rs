//! Regular expressions: what the library asks of the `regex` crate.

use vstd::prelude::*;

verus! {

/// Whether `pattern` is a regular expression that the `regex` crate
/// accepts.
pub uninterp spec fn regex_compiles(pattern: Seq<char>) -> bool;

/// Whether the regular expression `pattern` matches somewhere in `text`.
pub uninterp spec fn regex_is_match(pattern: Seq<char>, text: Seq<char>) -> bool;

/// `Regex::new` and `Regex::is_match` of the `regex` crate: compiles
/// `pattern` and says whether it matches anywhere in `text`.  A pattern
/// that does not compile gives the crate's description of the fault.
#[verifier::external_body]
pub(crate) fn pattern_matches(pattern: &str, text: &str) -> (out: Result<bool, String>)
    ensures
        out is Ok <==> regex_compiles(pattern@),
        out matches Ok(hit) ==> hit == regex_is_match(pattern@, text@),
{
    match regex::Regex::new(pattern) {
        Ok(re) => Ok(re.is_match(text)),
        Err(e) => Err(e.to_string()),
    }
}

/// What is left of `text` when the first match of the regular expression
/// `pattern` in it is replaced as `with` says; `text` itself where nothing
/// matches.
pub uninterp spec fn regex_replaced(pattern: Seq<char>, text: Seq<char>, with: Seq<char>) -> Seq<
    char,
>;

/// `Regex::new` and `Regex::replace` of the `regex` crate: compiles
/// `pattern` and replaces its first match in `text` as `with` says.  A
/// pattern that does not compile gives the crate's description of the fault.
#[verifier::external_body]
pub(crate) fn pattern_replaces(pattern: &str, text: &str, with: &str) -> (out: Result<
    String,
    String,
>)
    ensures
        out is Ok <==> regex_compiles(pattern@),
        out matches Ok(changed) ==> changed@ == regex_replaced(pattern@, text@, with@),
{
    match regex::Regex::new(pattern) {
        Ok(re) => Ok(re.replace(text, with).into_owned()),
        Err(e) => Err(e.to_string()),
    }
}

} // verus!
