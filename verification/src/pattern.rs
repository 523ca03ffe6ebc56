//! Regular-expression matching, done by the `regex` crate.

use vstd::prelude::*;

verus! {

/// The capture groups of one match: the text that each group matched, by
/// the group's index, or nothing for a group that took no part. Group 0 is
/// the whole match.
pub type Groups = Seq<Option<Seq<char>>>;

/// What `regex::Regex::captures_iter` yields for the regular expression
/// `pattern` on `haystack`: the capture groups of the successive
/// non-overlapping matches, in the order in which the scan meets them.
/// Nothing where `regex::Regex::new` refuses the pattern.
pub uninterp spec fn regex_captures_iter(pattern: Seq<char>, haystack: Seq<char>) -> Option<
    Seq<Groups>,
>;

/// What `regex::Regex::captures` returns for the regular expression
/// `pattern` on `haystack`: the capture groups of the leftmost match, or
/// nothing where there is no match. The outer option holds nothing where
/// `regex::Regex::new` refuses the pattern.
pub uninterp spec fn regex_captures(pattern: Seq<char>, haystack: Seq<char>) -> Option<
    Option<Groups>,
>;

/// Compiles `pattern` with `regex::Regex::new` and collects what
/// `regex::Regex::captures_iter` yields on `haystack`, each group as an
/// owned string. The contract gives that result a name and claims nothing
/// else of it.
#[verifier::external_body]
pub(crate) fn captures_iter(pattern: &str, haystack: &str) -> (r: Option<Vec<Vec<Option<String>>>>)
    ensures
        r.deep_view() == regex_captures_iter(pattern@, haystack@),
{
    let re = regex::Regex::new(pattern).ok()?;
    let groups = |c: regex::Captures| c.iter().map(|m| m.map(|m| m.as_str().to_owned())).collect();
    Some(re.captures_iter(haystack).map(groups).collect())
}

/// Compiles `pattern` with `regex::Regex::new` and hands on what
/// `regex::Regex::captures` returns on `haystack`, each group as an owned
/// string. The contract gives that result a name and claims nothing else of
/// it.
#[verifier::external_body]
pub(crate) fn captures(pattern: &str, haystack: &str) -> (r: Option<Option<Vec<Option<String>>>>)
    ensures
        r.deep_view() == regex_captures(pattern@, haystack@),
{
    let re = regex::Regex::new(pattern).ok()?;
    let found = re.captures(haystack);
    Some(found.map(|c| c.iter().map(|m| m.map(|m| m.as_str().to_owned())).collect()))
}

} // verus!
