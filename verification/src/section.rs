//! Finding the uncorrected-latency subsection inside a report.

use crate::error::ParseError;
use crate::text::{chars_of, copy_range, find_first, first_occurrence, string_of};
use vstd::prelude::*;

verus! {

/// The words that open the subsection.
pub const SECTION_MARKER: &'static str = "Uncorrected Latency";

/// The words that open the subsection after it.
pub const NEXT_SECTION_MARKER: &'static str = "Detailed Percentile spectrum";

/// Two line feeds in a row: the end of a line and an empty line.
pub const BLANK_LINE: &'static str = "\n\n";

/// The smaller of two indices, or the one that is there.
pub open spec fn nearer(a: Option<int>, b: Option<int>) -> Option<int> {
    match (a, b) {
        (Some(x), Some(y)) => Some(if x <= y { x } else { y }),
        (Some(x), None) => Some(x),
        (None, _) => b,
    }
}

/// Where the subsection that starts `rest` ends: at the first blank line or
/// at the marker of the next subsection, whichever comes first.
pub open spec fn section_end(rest: Seq<char>) -> Option<int> {
    nearer(first_occurrence(rest, BLANK_LINE@), first_occurrence(rest, NEXT_SECTION_MARKER@))
}

/// The text of the uncorrected-latency subsection of `text`: what stands
/// between the end of the first section marker and the end of the
/// subsection.
pub open spec fn latency_section(text: Seq<char>) -> Result<Seq<char>, ParseError> {
    match first_occurrence(text, SECTION_MARKER@) {
        None => Err(ParseError::MissingSection),
        Some(start) => {
            let rest = text.skip(start + SECTION_MARKER@.len());
            match section_end(rest) {
                None => Err(ParseError::MissingSectionEnd),
                Some(end) => Ok(rest.take(end)),
            }
        },
    }
}

/// The subsection of `text`, as characters.
pub(crate) fn section_chars(text: &Vec<char>) -> (r: Result<Vec<char>, ParseError>)
    ensures
        match r {
            Ok(section) => latency_section(text@) == Ok::<Seq<char>, ParseError>(section@),
            Err(e) => latency_section(text@) == Err::<Seq<char>, ParseError>(e),
        },
{
    let marker = chars_of(SECTION_MARKER);
    let start = match find_first(text, &marker) {
        Some(i) => i,
        None => {
            return Err(ParseError::MissingSection);
        },
    };
    let rest = copy_range(text, start + marker.len(), text.len());
    let blank = find_first(&rest, &chars_of(BLANK_LINE));
    let next = find_first(&rest, &chars_of(NEXT_SECTION_MARKER));
    let end = match (blank, next) {
        (Some(x), Some(y)) => if x <= y {
            x
        } else {
            y
        },
        (Some(x), None) => x,
        (None, Some(y)) => y,
        (None, None) => {
            return Err(ParseError::MissingSectionEnd);
        },
    };
    let section = copy_range(&rest, 0, end);
    Ok(section)
}

/// Cuts the uncorrected-latency subsection out of a report. The subsection
/// starts behind the first `Uncorrected Latency` and ends before the first
/// blank line or the first `Detailed Percentile spectrum` behind that,
/// whichever comes first. Without the marker the error is
/// `MissingSection`; with the marker and neither end, `MissingSectionEnd`.
pub fn locate_latency_section(output: &str) -> (r: Result<String, ParseError>)
    ensures
        match r {
            Ok(section) => latency_section(output@) == Ok::<Seq<char>, ParseError>(section@),
            Err(e) => latency_section(output@) == Err::<Seq<char>, ParseError>(e),
        },
{
    let text = chars_of(output);
    match section_chars(&text) {
        Ok(section) => Ok(string_of(&section)),
        Err(e) => Err(e),
    }
}

} // verus!
