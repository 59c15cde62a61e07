//! Regular expressions, as the `regex` crate matches them.

use vstd::prelude::*;
use crate::text::text_of;

verus! {

/// The first match of `pattern` in `text`, as what its first capture group
/// holds: `None` where `pattern` is no valid expression or matches nowhere
/// in `text`; `Some(None)` where it matches and the expression has no such
/// group or the group takes no part in the match.
pub uninterp spec fn first_capture(pattern: Seq<char>, text: Seq<char>) -> Option<
    Option<Seq<char>>,
>;

/// The successive matches of `pattern` in `text` that do not overlap, from
/// left to right, each as what its first capture group holds, `None` for a
/// match in which the group takes no part or where the expression has no
/// such group; empty where `pattern` is no valid expression.
pub uninterp spec fn all_captures(pattern: Seq<char>, text: Seq<char>) -> Seq<Option<Seq<char>>>;

/// Compiles `pattern` with `regex::Regex::new` and searches `text` with
/// `Regex::captures`; the result holds the text of group 1 of the match
/// (`Captures::get`, `Match::as_str`). Nothing is proved of the matching:
/// the contract only gives the result its name.
#[verifier::external_body]
pub(crate) fn capture_first(pattern: &str, text: &str) -> (r: Option<Option<String>>)
    ensures
        match r {
            Some(group) => first_capture(pattern@, text@) == Some(text_of(group)),
            None => first_capture(pattern@, text@) is None,
        },
{
    match regex::Regex::new(pattern) {
        Ok(re) => re.captures(text).map(|c| c.get(1).map(|m| m.as_str().to_string())),
        Err(_) => None,
    }
}

/// Compiles `pattern` with `regex::Regex::new` and walks the matches in
/// `text` with `Regex::captures_iter`; the result holds, for each match, the
/// text of group 1 (`Captures::get`, `Match::as_str`). Nothing is proved of
/// the matching: the contract only gives the result its name.
#[verifier::external_body]
pub(crate) fn capture_all(pattern: &str, text: &str) -> (r: Vec<Option<String>>)
    ensures
        r@.map_values(|group: Option<String>| text_of(group)) == all_captures(pattern@, text@),
{
    match regex::Regex::new(pattern) {
        Ok(re) => re.captures_iter(text).map(|c| c.get(1).map(|m| m.as_str().to_string())).collect(),
        Err(_) => Vec::new(),
    }
}

} // verus!
