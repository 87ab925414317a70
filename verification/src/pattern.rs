//! The regular expressions that recognise the lines of a report, and the
//! door to the `regex` crate through which they are matched.

use crate::error::ParseError;
use vstd::prelude::*;

verus! {

/// The summary line: a request count, then a duration and the amount of data
/// read, each a decimal fraction with the unit that follows it. A unit is the
/// run of characters other than whitespace behind the number; that of the
/// duration ends before the comma.
pub const SUMMARY_PATTERN: &'static str = r"(\d+) requests in (\d+\.\d+\S+), (\d+\.\d+\S+) read";

/// The line with the rate of requests, a decimal fraction.
pub const REQUESTS_PATTERN: &'static str = r"Requests/sec:\s+(\d+\.\d+)";

/// The line with the rate of transfer, a decimal fraction with its unit.
pub const TRANSFER_PATTERN: &'static str = r"Transfer/sec:\s+(\d+\.\d+\S+)";

/// A line of the latency table: a percentile, a percent sign, and the latency
/// that fills the rest of the line.
pub const LATENCY_PATTERN: &'static str = r"(\d+\.\d+|\d+)%\s+(.+)";

/// The capture groups of one match: for each group of the pattern, by its
/// index, the text it matched, or `None` where it took no part in the match.
/// Group 0 is the whole match.
pub type Groups = Seq<Option<Seq<char>>>;

/// Why the `regex` crate refused a pattern. Nothing of it is read.
#[verifier::external_type_specification]
#[verifier::external_body]
pub struct ExRegexError(regex::Error);

/// Whether `regex::Regex::new` compiles `pattern`.
pub uninterp spec fn pattern_accepted(pattern: Seq<char>) -> bool;

/// What `regex::Regex::captures` finds for `pattern` in `text`: the capture
/// groups of the leftmost match, or `None` where `pattern` matches nowhere.
pub uninterp spec fn captures_of(pattern: Seq<char>, text: Seq<char>) -> Option<Groups>;

/// Compiles `pattern` with `regex::Regex::new` and searches `text` with
/// `regex::Regex::captures`. Whether the pattern compiles depends on the
/// pattern alone, and what a compiled pattern finds on the pattern and the
/// text alone: both are named, not described. The groups come out in the
/// order of `regex::Captures::iter`, each as the text of its
/// `regex::Match`.
#[verifier::external_body]
fn regex_captures(pattern: &str, text: &str) -> (r: Result<
    Option<Vec<Option<String>>>,
    regex::Error,
>)
    ensures
        r is Ok <==> pattern_accepted(pattern@),
        r matches Ok(found) ==> found.deep_view() == captures_of(pattern@, text@),
{
    let re = regex::Regex::new(pattern)?;
    Ok(re.captures(text).map(|c| c.iter().map(|m| m.map(|m| m.as_str().to_string())).collect()))
}

/// What a search for `pattern` in `text` yields: the groups of the leftmost
/// match if there is one, and an error if the pattern is rejected.
pub open spec fn matched(pattern: Seq<char>, text: Seq<char>) -> Result<Option<Groups>, ParseError> {
    if pattern_accepted(pattern) {
        Ok(captures_of(pattern, text))
    } else {
        Err(ParseError::InvalidPattern)
    }
}

/// Searches `text` for the leftmost match of `pattern`, and lists the texts of
/// its capture groups. A pattern that the engine rejects is an
/// `InvalidPattern`. The pattern is compiled anew for every search.
pub fn match_groups(pattern: &str, text: &str) -> (r: Result<
    Option<Vec<Option<String>>>,
    ParseError,
>)
    ensures
        match r {
            Ok(found) => matched(pattern@, text@) == Ok::<Option<Groups>, ParseError>(
                found.deep_view(),
            ),
            Err(e) => matched(pattern@, text@) == Err::<Option<Groups>, ParseError>(e),
        },
{
    match regex_captures(pattern, text) {
        Ok(found) => Ok(found),
        Err(_) => Err(ParseError::InvalidPattern),
    }
}

/// The text of group `i`, where the match has such a group and it took part.
pub open spec fn group_of(groups: Groups, i: int) -> Option<Seq<char>> {
    if 0 <= i < groups.len() {
        groups[i]
    } else {
        None
    }
}

/// The text that group `i` matched.
pub fn group_text(groups: &Vec<Option<String>>, i: usize) -> (r: Option<String>)
    ensures
        r.deep_view() == group_of(groups.deep_view(), i as int),
{
    if i < groups.len() {
        match &groups[i] {
            Some(text) => Some(text.clone()),
            None => None,
        }
    } else {
        None
    }
}

} // verus!
