//! The link criterion: whether the text names a recognized video host.

use regex::Regex;
use vstd::prelude::*;

verus! {

/// `regex::Error`, the reason a pattern was rejected. Nothing of it is
/// visible here.
#[verifier::external_type_specification]
#[verifier::external_body]
pub struct ExRegexError(regex::Error);

/// Whether `regex::Regex::new` accepts `pattern`.
pub uninterp spec fn regex_compiles(pattern: Seq<char>) -> bool;

/// Whether the regular expression compiled from `pattern` matches anywhere in
/// `haystack`, as `regex::Regex::is_match` reports it.
pub uninterp spec fn regex_is_match(pattern: Seq<char>, haystack: Seq<char>) -> bool;

/// The pattern of the recognized video hosts.
pub const LINK_PATTERN: &'static str = r"((youtube.com)|(youtu.be)|(tiktok.com))\/";

/// A pattern that the regular-expression engine does not accept.
#[derive(Clone, Copy, Debug, PartialEq, Eq, Structural)]
pub struct BadPattern;

/// Compiles `pattern` with `regex::Regex::new` and searches `haystack` with
/// `Regex::is_match`. Not proved: the outcome is the one the `regex` crate
/// gives; it is an error exactly when the crate rejects the pattern, and both
/// depend on the two strings alone.
#[verifier::external_body]
fn search(pattern: &str, haystack: &str) -> (found: Result<bool, regex::Error>)
    ensures
        found is Ok <==> regex_compiles(pattern@),
        found matches Ok(hit) ==> hit == regex_is_match(pattern@, haystack@),
{
    match Regex::new(pattern) {
        Ok(regex) => Ok(regex.is_match(haystack)),
        Err(error) => Err(error),
    }
}

/// Whether `pattern` matches anywhere in `contents`.
pub fn matches_pattern(pattern: &str, contents: &str) -> (found: Result<bool, BadPattern>)
    ensures
        found is Ok <==> regex_compiles(pattern@),
        found matches Ok(hit) ==> hit == regex_is_match(pattern@, contents@),
{
    match search(pattern, contents) {
        Ok(hit) => Ok(hit),
        Err(_) => Err(BadPattern),
    }
}

/// Whether `contents` holds a link to a recognized video host.
pub fn contains_link(contents: &str) -> (found: Result<bool, BadPattern>)
    ensures
        found is Ok <==> regex_compiles(LINK_PATTERN@),
        found matches Ok(hit) ==> hit == regex_is_match(LINK_PATTERN@, contents@),
{
    matches_pattern(LINK_PATTERN, contents)
}

} // verus!
