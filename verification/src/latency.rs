//! Reading the percentile lines of the uncorrected-latency subsection.

use crate::error::ParseError;
use crate::pattern::{
    captures_of, group_of, group_text, match_groups, matched, pattern_accepted, Groups,
    LATENCY_PATTERN,
};
use crate::section::{latency_section, section_chars};
use crate::text::{
    all_space, chars_of, lemma_lines_concat, lemma_lines_of_whitespace, lemma_single_line,
    lemma_trim_of_whitespace, line_views, lines_of, split_lines, string_of, trim, trimmed,
};
use vstd::prelude::*;

verus! {

/// A row of the latency table: a percentile and a latency, both as the
/// report prints them.
pub type Row = (Seq<char>, Seq<char>);

/// The row that a match of the line pattern gives: its first group is the
/// percentile, its second the latency. No match gives no row, and neither
/// does a match in which one of the two groups took no part.
pub open spec fn row_of_groups(found: Option<Groups>) -> Option<Row> {
    match found {
        Some(groups) => match (group_of(groups, 1), group_of(groups, 2)) {
            (Some(percentile), Some(latency)) => Some((percentile, latency)),
            _ => None,
        },
        None => None,
    }
}

/// Whether `line` holds nothing but whitespace.
pub open spec fn is_blank(line: Seq<char>) -> bool {
    trimmed(line).len() == 0
}

/// The row that a line of the subsection gives: none for a blank line, and
/// else what the line pattern finds in the line without the whitespace at its
/// ends.
pub open spec fn row_of_line(line: Seq<char>) -> Option<Row> {
    if is_blank(line) {
        None
    } else {
        row_of_groups(captures_of(LATENCY_PATTERN@, trimmed(line)))
    }
}

/// The rows that the lines give, in the order of the lines. A line that gives
/// no row leaves no trace.
pub open spec fn rows_of_lines(lines: Seq<Seq<char>>) -> Seq<Row>
    decreases lines.len(),
{
    if lines.len() == 0 {
        Seq::empty()
    } else {
        let before = rows_of_lines(lines.drop_last());
        match row_of_line(lines.last()) {
            Some(row) => before.push(row),
            None => before,
        }
    }
}

/// Whether one of the lines is put to the line pattern, that is, whether one
/// of them is not blank.
pub open spec fn consults_pattern(lines: Seq<Seq<char>>) -> bool {
    exists|i: int| 0 <= i < lines.len() && !is_blank(#[trigger] lines[i])
}

/// The latency table of a subsection: the rows of its lines, which must be at
/// least one.
pub open spec fn table_of_section(section: Seq<char>) -> Result<Seq<Row>, ParseError> {
    let lines = lines_of(section);
    if consults_pattern(lines) && !pattern_accepted(LATENCY_PATTERN@) {
        Err(ParseError::InvalidPattern)
    } else if rows_of_lines(lines).len() == 0 {
        Err(ParseError::EmptyLatencyTable)
    } else {
        Ok(rows_of_lines(lines))
    }
}

/// The latency table of a report: the table of its uncorrected-latency
/// subsection.
pub open spec fn table_of_report(text: Seq<char>) -> Result<Seq<Row>, ParseError> {
    match latency_section(text) {
        Err(e) => Err(e),
        Ok(section) => table_of_section(section),
    }
}

/// The texts of a row.
pub open spec fn row_view(row: (String, String)) -> Row {
    (row.0@, row.1@)
}

/// The texts of the rows.
pub open spec fn row_views(rows: Seq<(String, String)>) -> Seq<Row> {
    Seq::new(rows.len(), |i: int| row_view(rows[i]))
}

/// Turns what the line pattern found in a line into a row of the table: the
/// first group is the percentile, the second the latency. Where the pattern
/// found nothing there is no row.
pub fn latency_row(found: &Option<Vec<Option<String>>>) -> (r: Option<(String, String)>)
    ensures
        match r {
            Some(row) => row_of_groups(found.deep_view()) == Some(row_view(row)),
            None => row_of_groups(found.deep_view()) is None,
        },
{
    match found {
        Some(groups) => match (group_text(groups, 1), group_text(groups, 2)) {
            (Some(percentile), Some(latency)) => Some((percentile, latency)),
            _ => None,
        },
        None => None,
    }
}

/// The table of the subsection `section`.
pub(crate) fn table_chars(section: &Vec<char>) -> (r: Result<Vec<(String, String)>, ParseError>)
    ensures
        match r {
            Ok(rows) => table_of_section(section@) == Ok::<Seq<Row>, ParseError>(row_views(rows@)),
            Err(e) => table_of_section(section@) == Err::<Seq<Row>, ParseError>(e),
        },
{
    let lines = split_lines(section);
    let n = lines.len();
    let ghost all = line_views(lines@);
    let mut rows: Vec<(String, String)> = Vec::new();
    let mut i: usize = 0;
    while i < n
        invariant
            n == lines.len(),
            i <= n,
            all == line_views(lines@),
            all == lines_of(section@),
            row_views(rows@) == rows_of_lines(all.take(i as int)),
            consults_pattern(all.take(i as int)) ==> pattern_accepted(LATENCY_PATTERN@),
        decreases n - i,
    {
        proof {
            assert(all.take(i + 1).drop_last() =~= all.take(i as int));
        }
        let content = trim(&lines[i]);
        if content.len() > 0 {
            let text = string_of(&content);
            let found = match match_groups(LATENCY_PATTERN, text.as_str()) {
                Ok(found) => found,
                Err(e) => {
                    return Err(e);
                },
            };
            match latency_row(&found) {
                Some(row) => {
                    rows.push(row);
                },
                None => {},
            }
        }
        i += 1;
    }
    proof {
        assert(all.take(n as int) =~= all);
    }
    if rows.len() == 0 {
        Err(ParseError::EmptyLatencyTable)
    } else {
        Ok(rows)
    }
}

/// Reads the latency table out of the text of a subsection. Each line is
/// taken without the whitespace at its ends; an empty one is passed over; of
/// the others, each that holds a number, a percent sign, whitespace and more
/// gives a row, and each that does not is passed over too. The rows keep the
/// order of the lines. A subsection without a single row is an
/// `EmptyLatencyTable`.
pub fn extract_latency_table(section: &str) -> (r: Result<Vec<(String, String)>, ParseError>)
    ensures
        match r {
            Ok(rows) => table_of_section(section@) == Ok::<Seq<Row>, ParseError>(row_views(rows@)),
            Err(e) => table_of_section(section@) == Err::<Seq<Row>, ParseError>(e),
        },
{
    let chars = chars_of(section);
    table_chars(&chars)
}

/// Finds the uncorrected-latency subsection of a report and reads its table:
/// the percentile and the latency of each percentile line, in the order of
/// the lines.
pub fn extract_uncorrected_latency(output: &str) -> (r: Result<Vec<(String, String)>, ParseError>)
    ensures
        match r {
            Ok(rows) => table_of_report(output@) == Ok::<Seq<Row>, ParseError>(row_views(rows@)),
            Err(e) => table_of_report(output@) == Err::<Seq<Row>, ParseError>(e),
        },
{
    let text = chars_of(output);
    match section_chars(&text) {
        Ok(section) => table_chars(&section),
        Err(e) => Err(e),
    }
}

/// The rows of two runs of lines, one after the other, are the rows of the
/// first and then the rows of the second: rows come out in the order of their
/// lines, and none is dropped or merged.
pub proof fn lemma_rows_concat(a: Seq<Seq<char>>, b: Seq<Seq<char>>)
    ensures
        rows_of_lines(a + b) == rows_of_lines(a) + rows_of_lines(b),
    decreases b.len(),
{
    if b.len() > 0 {
        lemma_rows_concat(a, b.drop_last());
        assert((a + b).drop_last() =~= a + b.drop_last());
    }
}

/// A single line gives its row, or nothing.
pub proof fn lemma_rows_of_one_line(line: Seq<char>)
    ensures
        rows_of_lines(seq![line]) == match row_of_line(line) {
            Some(row) => seq![row],
            None => Seq::<Row>::empty(),
        },
{
    assert(seq![line].drop_last() =~= Seq::<Seq<char>>::empty());
    assert(rows_of_lines(Seq::<Seq<char>>::empty()) =~= Seq::<Row>::empty());
}

/// A line that gives no row may stand anywhere among the lines: the table is
/// the same with it and without it.
pub proof fn lemma_stray_line_ignored(a: Seq<Seq<char>>, stray: Seq<char>, b: Seq<Seq<char>>)
    requires
        row_of_line(stray) is None,
    ensures
        rows_of_lines(a + seq![stray] + b) == rows_of_lines(a + b),
{
    lemma_rows_concat(a + seq![stray], b);
    lemma_rows_concat(a, seq![stray]);
    lemma_rows_of_one_line(stray);
    lemma_rows_concat(a, b);
}

/// Two percentile lines with a line between them that is none give exactly
/// their two rows, in their order.
pub proof fn lemma_rows_around_stray_line(first: Seq<char>, stray: Seq<char>, second: Seq<char>)
    requires
        row_of_line(first) is Some,
        row_of_line(stray) is None,
        row_of_line(second) is Some,
    ensures
        rows_of_lines(seq![first, stray, second]) == seq![
            row_of_line(first).unwrap(),
            row_of_line(second).unwrap(),
        ],
{
    lemma_stray_line_ignored(seq![first], stray, seq![second]);
    lemma_rows_concat(seq![first], seq![second]);
    lemma_rows_of_one_line(first);
    lemma_rows_of_one_line(second);
    assert(seq![first] + seq![stray] + seq![second] =~= seq![first, stray, second]);
}

/// Blank lines give no rows.
pub proof fn lemma_blank_lines_give_no_rows(lines: Seq<Seq<char>>)
    requires
        !consults_pattern(lines),
    ensures
        rows_of_lines(lines).len() == 0,
    decreases lines.len(),
{
    if lines.len() > 0 {
        lemma_blank_lines_give_no_rows(lines.drop_last());
    }
}

/// A subsection of blank lines only has an empty table: no line is put to the
/// line pattern, and the result is `EmptyLatencyTable`.
pub proof fn lemma_blank_section_is_empty_table(section: Seq<char>)
    requires
        !consults_pattern(lines_of(section)),
    ensures
        table_of_section(section) == Err::<Seq<Row>, ParseError>(ParseError::EmptyLatencyTable),
{
    lemma_blank_lines_give_no_rows(lines_of(section));
}

/// A subsection of nothing but whitespace, line feeds among it, has an empty
/// table.
pub proof fn lemma_whitespace_section_is_empty_table(section: Seq<char>)
    requires
        all_space(section),
    ensures
        table_of_section(section) == Err::<Seq<Row>, ParseError>(ParseError::EmptyLatencyTable),
{
    lemma_lines_of_whitespace(section);
    assert forall|i: int| 0 <= i < lines_of(section).len() implies is_blank(
        #[trigger] lines_of(section)[i],
    ) by {
        lemma_trim_of_whitespace(lines_of(section)[i]);
    }
    lemma_blank_section_is_empty_table(section);
}

/// Whether `line` is a percentile line: a line that is not blank, in which the
/// line pattern, accepted by the engine, finds a percentile and a latency.
pub open spec fn is_percentile_line(line: Seq<char>) -> bool {
    &&& !is_blank(line)
    &&& matched(LATENCY_PATTERN@, trimmed(line)) matches Ok(found)
    &&& row_of_groups(found) is Some
}

/// A subsection of two percentile lines with a line between them that is none
/// has a table of exactly the two rows of these lines, in their order.
pub proof fn lemma_table_around_stray_line(first: Seq<char>, stray: Seq<char>, second: Seq<char>)
    requires
        !first.contains('\n'),
        !stray.contains('\n'),
        !second.contains('\n'),
        is_percentile_line(first),
        row_of_line(stray) is None,
        is_percentile_line(second),
    ensures
        table_of_section(first + seq!['\n'] + stray + seq!['\n'] + second) == Ok::<
            Seq<Row>,
            ParseError,
        >(seq![row_of_line(first).unwrap(), row_of_line(second).unwrap()]),
{
    let section = first + seq!['\n'] + stray + seq!['\n'] + second;
    lemma_single_line(first);
    lemma_single_line(stray);
    lemma_single_line(second);
    lemma_lines_concat(first, stray);
    lemma_lines_concat(first + seq!['\n'] + stray, second);
    assert(lines_of(section) =~= seq![first, stray, second]);
    lemma_rows_around_stray_line(first, stray, second);
}

/// A table that is read has at least one row.
pub proof fn lemma_table_has_rows(section: Seq<char>)
    ensures
        table_of_section(section) matches Ok(rows) ==> rows.len() > 0,
{
}

} // verus!
