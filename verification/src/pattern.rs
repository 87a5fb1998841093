//! Regular-expression search, done by the `regex` crate.

use crate::progress::opt_text;
use vstd::prelude::*;

verus! {

/// What `regex::Regex::captures` finds for a pattern in a haystack: `None`
/// where the pattern does not compile or matches nowhere, else the text of
/// each capture group of the leftmost match, group 0 being the whole match
/// and `None` standing for a group that took no part.
pub uninterp spec fn regex_captures(pattern: Seq<char>, haystack: Seq<char>) -> Option<
    Seq<Option<Seq<char>>>,
>;

/// The characters of each group of a match.
pub open spec fn groups_view(groups: Option<Vec<Option<String>>>) -> Option<Seq<Option<Seq<char>>>> {
    match groups {
        Some(g) => Some(g@.map_values(|t: Option<String>| opt_text(t))),
        None => None,
    }
}

/// The text of group `i` of a match, if there is a match and the group took
/// part in it.
pub open spec fn group(groups: Option<Seq<Option<Seq<char>>>>, i: int) -> Option<Seq<char>> {
    match groups {
        Some(g) => if 0 <= i < g.len() {
            g[i]
        } else {
            None
        },
        None => None,
    }
}

/// Compiles `pattern` with `regex::Regex::new` and searches `haystack` with
/// `Regex::captures`. The contract only names the result: the same pattern
/// and haystack always give the same groups.
#[verifier::external_body]
pub(crate) fn captures(pattern: &str, haystack: &str) -> (groups: Option<Vec<Option<String>>>)
    ensures
        groups_view(groups) == regex_captures(pattern@, haystack@),
{
    let re = regex::Regex::new(pattern).ok()?;
    let caps = re.captures(haystack)?;
    Some(caps.iter().map(|m| m.map(|m| m.as_str().to_string())).collect())
}

/// What `regex::Regex::captures_iter` finds: the groups of each match of the
/// pattern in the haystack, from left to right, none overlapping another;
/// nothing where the pattern does not compile.
pub uninterp spec fn regex_captures_all(pattern: Seq<char>, haystack: Seq<char>) -> Seq<
    Seq<Option<Seq<char>>>,
>;

/// What `regex::Regex::replace_all` makes of a haystack: each match of the
/// pattern replaced; the haystack itself where the pattern does not compile.
pub uninterp spec fn regex_replace_all(
    pattern: Seq<char>,
    haystack: Seq<char>,
    replacement: Seq<char>,
) -> Seq<char>;

/// What `regex::Regex::replace` makes of a haystack: the leftmost match of
/// the pattern replaced; the haystack itself where the pattern does not
/// compile.
pub uninterp spec fn regex_replace_first(
    pattern: Seq<char>,
    haystack: Seq<char>,
    replacement: Seq<char>,
) -> Seq<char>;

/// The characters of the groups of each match.
pub open spec fn matches_view(found: Seq<Vec<Option<String>>>) -> Seq<Seq<Option<Seq<char>>>> {
    found.map_values(|g: Vec<Option<String>>| g@.map_values(|t: Option<String>| opt_text(t)))
}

/// Compiles `pattern` with `regex::Regex::new` and collects what
/// `Regex::captures_iter` yields for `haystack`. The contract only names the
/// result.
#[verifier::external_body]
pub(crate) fn captures_all(pattern: &str, haystack: &str) -> (found: Vec<Vec<Option<String>>>)
    ensures
        matches_view(found@) == regex_captures_all(pattern@, haystack@),
{
    match regex::Regex::new(pattern) {
        Ok(re) => re.captures_iter(haystack).map(
            |caps| caps.iter().map(|m| m.map(|m| m.as_str().to_string())).collect(),
        ).collect(),
        Err(_) => Vec::new(),
    }
}

/// Compiles `pattern` with `regex::Regex::new` and replaces every match in
/// `haystack` with `Regex::replace_all`. The contract only names the result.
#[verifier::external_body]
pub(crate) fn replace_all(pattern: &str, haystack: &str, replacement: &str) -> (out: String)
    ensures
        out@ == regex_replace_all(pattern@, haystack@, replacement@),
{
    match regex::Regex::new(pattern) {
        Ok(re) => re.replace_all(haystack, replacement).into_owned(),
        Err(_) => haystack.to_string(),
    }
}

/// Compiles `pattern` with `regex::Regex::new` and replaces the leftmost
/// match in `haystack` with `Regex::replace`. The contract only names the
/// result.
#[verifier::external_body]
pub(crate) fn replace_first(pattern: &str, haystack: &str, replacement: &str) -> (out: String)
    ensures
        out@ == regex_replace_first(pattern@, haystack@, replacement@),
{
    match regex::Regex::new(pattern) {
        Ok(re) => re.replace(haystack, replacement).into_owned(),
        Err(_) => haystack.to_string(),
    }
}

/// The text of group `i` of one of several matches.
pub fn nth_group_text(groups: &Vec<Option<String>>, i: usize) -> (text: Option<String>)
    ensures
        opt_text(text) == group(Some(groups@.map_values(|t: Option<String>| opt_text(t))), i as int),
{
    if i < groups.len() {
        groups[i].clone()
    } else {
        None
    }
}

/// The text of group `i` of a match.
pub fn group_text(groups: &Option<Vec<Option<String>>>, i: usize) -> (text: Option<String>)
    ensures
        opt_text(text) == group(groups_view(*groups), i as int),
{
    match groups {
        Some(g) => if i < g.len() {
            g[i].clone()
        } else {
            None
        },
        None => None,
    }
}

} // verus!
