//! Regular expressions, compiled and matched by the `regex` crate.

use regex::Regex;
use vstd::prelude::*;

verus! {

/// `regex::Regex`: a compiled expression, carried as it is.
#[verifier::external_type_specification]
#[verifier::external_body]
pub struct ExRegex(Regex);

/// Whether `regex::Regex::new` takes the pattern.
pub uninterp spec fn regex_compiles(pattern: Seq<char>) -> bool;

/// The pattern that an expression was compiled from.
pub uninterp spec fn regex_source(re: Regex) -> Seq<char>;

/// What `regex::Regex::captures` finds for a pattern in a text: nothing, or
/// the capture groups of the first match, the whole match first, each with
/// the text it took part with.
pub uninterp spec fn regex_captures(pattern: Seq<char>, text: Seq<char>) -> Option<
    Seq<Option<Seq<char>>>,
>;

/// What `regex::Regex::captures_iter` finds for a pattern in a text: the
/// capture groups of each of the successive matches that do not overlap.
pub uninterp spec fn regex_captures_iter(pattern: Seq<char>, text: Seq<char>) -> Seq<
    Seq<Option<Seq<char>>>,
>;

/// The capture groups of one match, each as the text it holds.
pub open spec fn groups_text(groups: Seq<Option<String>>) -> Seq<Option<Seq<char>>> {
    Seq::new(
        groups.len(),
        |i: int|
            match groups[i] {
                Some(s) => Some(s@),
                None => None,
            },
    )
}

/// The capture groups of a run of matches, each as the text it holds.
pub open spec fn matches_text(found: Seq<Vec<Option<String>>>) -> Seq<Seq<Option<Seq<char>>>> {
    Seq::new(found.len(), |i: int| groups_text(found[i]@))
}

/// Compiles a pattern with `regex::Regex::new`. The contract claims that
/// whether this succeeds depends on the pattern alone, and that the compiled
/// expression is that of the pattern.
#[verifier::external_body]
pub(crate) fn compile(pattern: &str) -> (r: Option<Regex>)
    ensures
        r is Some <==> regex_compiles(pattern@),
        r matches Some(re) ==> regex_source(re) == pattern@,
{
    Regex::new(pattern).ok()
}

/// Searches a text for the first match with `regex::Regex::captures` and
/// copies out the text of each capture group, in the order of
/// `regex::Captures::iter`. The contract claims, of an expression that
/// `compile` made, that the result depends on the pattern and the text alone.
#[verifier::external_body]
pub(crate) fn captures(re: &Regex, text: &str) -> (r: Option<Vec<Option<String>>>)
    ensures
        match r {
            Some(groups) => regex_captures(regex_source(*re), text@) == Some(groups_text(groups@)),
            None => regex_captures(regex_source(*re), text@) is None,
        },
{
    re.captures(text).map(|c| c.iter().map(|m| m.map(|x| x.as_str().to_owned())).collect())
}

/// Searches a text for all matches with `regex::Regex::captures_iter` and
/// copies out the text of each capture group of each. The contract claims,
/// of an expression that `compile` made, that the result depends on the
/// pattern and the text alone.
#[verifier::external_body]
pub(crate) fn captures_iter(re: &Regex, text: &str) -> (r: Vec<Vec<Option<String>>>)
    ensures
        regex_captures_iter(regex_source(*re), text@) == matches_text(r@),
{
    re.captures_iter(text).map(
        |c| c.iter().map(|m| m.map(|x| x.as_str().to_owned())).collect(),
    ).collect()
}

} // verus!
