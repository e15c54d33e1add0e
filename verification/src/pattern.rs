//! Regular expressions. The searching itself is done by the `regex` crate;
//! this module names what a search gives and picks groups out of it.
use crate::text::opt_text;
use vstd::prelude::*;

verus! {

/// What a search of `haystack` for the regular expression `pattern` gives.
///
/// Nothing, where `pattern` is no valid regular expression or matches
/// nowhere in `haystack`. Else, for the leftmost match, one entry for each
/// capture group of the pattern, in the order of their opening parentheses
/// and after an entry for the match as a whole: the text that the group
/// matched, or nothing where the group took no part in the match.
pub uninterp spec fn regex_groups(pattern: Seq<char>, haystack: Seq<char>) -> Option<
    Seq<Option<Seq<char>>>,
>;

/// The view of the groups of a search.
pub open spec fn groups_view(groups: Option<Vec<Option<String>>>) -> Option<
    Seq<Option<Seq<char>>>,
> {
    match groups {
        Some(v) => Some(
            Seq::new(
                v@.len(),
                |i: int|
                    match v@[i] {
                        Some(s) => Some(s@),
                        None => None,
                    },
            ),
        ),
        None => None,
    }
}

/// Compiles `pattern` with `regex::Regex::new` and searches `haystack` with
/// `Regex::captures`. The contract claims only that the outcome is a
/// function of the two texts, [`regex_groups`]: a pattern that does not
/// compile gives nothing, as a search without a match does, and each group of
/// a match is handed out as the text it matched.
#[verifier::external_body]
pub(crate) fn regex_captures(pattern: &str, haystack: &str) -> (r: Option<Vec<Option<String>>>)
    ensures
        groups_view(r) == regex_groups(pattern@, haystack@),
{
    match regex::Regex::new(pattern) {
        Ok(re) => re.captures(haystack).map(
            |found| found.iter().map(|group| group.map(|m| m.as_str().to_string())).collect(),
        ),
        Err(_) => None,
    }
}

/// The text of group `i` of a search: nothing where the search gave nothing,
/// where it has no group `i`, or where that group took no part in the match.
pub open spec fn group_of(groups: Option<Seq<Option<Seq<char>>>>, i: int) -> Option<Seq<char>> {
    match groups {
        Some(g) => if 0 <= i < g.len() {
            g[i]
        } else {
            None
        },
        None => None,
    }
}

/// The text of group `i` of a search, or the empty text where
/// [`group_of`] gives nothing.
pub open spec fn group_or_empty(groups: Option<Seq<Option<Seq<char>>>>, i: int) -> Seq<char> {
    match group_of(groups, i) {
        Some(s) => s,
        None => Seq::empty(),
    }
}

/// The text of group `i` of `groups`.
pub fn group(groups: &Option<Vec<Option<String>>>, i: usize) -> (r: Option<String>)
    ensures
        opt_text(r) == group_of(groups_view(*groups), i as int),
{
    match groups {
        Some(v) => {
            if i < v.len() {
                match &v[i] {
                    Some(s) => Some(s.clone()),
                    None => None,
                }
            } else {
                None
            }
        },
        None => None,
    }
}

/// The text of group `i` of `groups`, or the empty text.
pub fn group_or_default(groups: &Option<Vec<Option<String>>>, i: usize) -> (r: String)
    ensures
        r@ == group_or_empty(groups_view(*groups), i as int),
{
    match group(groups, i) {
        Some(s) => s,
        None => String::new(),
    }
}

} // verus!
