//! The report as a value, and its assembly from the text of a run.

use crate::error::{NumberField, ParseError, ThroughputLine};
use crate::latency::{
    consults_pattern, extract_uncorrected_latency, lemma_blank_section_is_empty_table, row_view,
    row_views, table_of_report, Row,
};
use crate::number::{
    decimal_value, is_decimal, is_decimal_text, is_u64_text, parse_u64,
};
use crate::pattern::{
    group_of, group_text, match_groups, matched, Groups, REQUESTS_PATTERN, SUMMARY_PATTERN,
    TRANSFER_PATTERN,
};
use crate::section::{latency_section, SECTION_MARKER};
use crate::text::{first_occurrence, lines_of};
use vstd::prelude::*;

verus! {

/// The metrics of one run, as its report states them. Quantities that the
/// report prints with a unit are kept as printed.
#[derive(Debug, PartialEq, Eq)]
pub struct Wrk2Result {
    /// How many requests were completed.
    pub total_requests: u64,
    /// How long the run took, with its unit, such as `30.00s`.
    pub duration: String,
    /// How much data was read, with its unit, such as `1.23MB`.
    pub data_read: String,
    /// The rate of requests per second, as the report prints it: a decimal
    /// fraction in ASCII digits, such as `33333.33`.
    pub requests_per_sec: String,
    /// The rate of transfer per second, with its unit.
    pub transfer_per_sec: String,
    /// The percentiles of the uncorrected latency with their latencies, in the
    /// order of the report.
    pub uncorrected_latency: Vec<(String, String)>,
}

/// What a [`Wrk2Result`] holds, as mathematical values.
pub struct ReportModel {
    pub total_requests: nat,
    pub duration: Seq<char>,
    pub data_read: Seq<char>,
    pub requests_per_sec: Seq<char>,
    pub transfer_per_sec: Seq<char>,
    pub uncorrected_latency: Seq<Row>,
}

impl ReportModel {
    /// Whether the report is fully populated: the request count is one that
    /// the field can hold, the rate of requests is a decimal fraction, and the
    /// latency table has at least one row.
    pub open spec fn complete(self) -> bool {
        &&& self.total_requests <= u64::MAX
        &&& is_decimal_text(self.requests_per_sec)
        &&& self.uncorrected_latency.len() > 0
    }
}

impl View for Wrk2Result {
    type V = ReportModel;

    open spec fn view(&self) -> ReportModel {
        ReportModel {
            total_requests: self.total_requests as nat,
            duration: self.duration@,
            data_read: self.data_read@,
            requests_per_sec: self.requests_per_sec@,
            transfer_per_sec: self.transfer_per_sec@,
            uncorrected_latency: row_views(self.uncorrected_latency@),
        }
    }
}

impl Wrk2Result {
    /// Whether the report is fully populated.
    pub open spec fn well_formed(&self) -> bool {
        self@.complete()
    }
}

impl Clone for Wrk2Result {
    /// A report that holds the same values.
    fn clone(&self) -> (r: Self)
        ensures
            r@ == self@,
    {
        let mut rows: Vec<(String, String)> = Vec::new();
        let n = self.uncorrected_latency.len();
        let mut i: usize = 0;
        while i < n
            invariant
                n == self.uncorrected_latency.len(),
                i <= n,
                row_views(rows@) == row_views(self.uncorrected_latency@).take(i as int),
            decreases n - i,
        {
            let ghost before = row_views(rows@);
            let row = &self.uncorrected_latency[i];
            let copy = (row.0.clone(), row.1.clone());
            rows.push(copy);
            proof {
                assert(row_views(rows@) =~= before.push(row_view(copy)));
            }
            i += 1;
        }
        proof {
            assert(row_views(rows@) =~= row_views(self.uncorrected_latency@));
        }
        Wrk2Result {
            total_requests: self.total_requests,
            duration: self.duration.clone(),
            data_read: self.data_read.clone(),
            requests_per_sec: self.requests_per_sec.clone(),
            transfer_per_sec: self.transfer_per_sec.clone(),
            uncorrected_latency: rows,
        }
    }
}

/// The fields of the summary line: the request count, the duration and the
/// data read.
pub type SummaryModel = (nat, Seq<char>, Seq<char>);

/// The fields that a match of the summary pattern gives. The first group is
/// the request count, which must be the decimal text of a `u64`; the
/// second is the duration, the third the data read.
pub open spec fn summary_of(found: Option<Groups>) -> Result<SummaryModel, ParseError> {
    match found {
        Some(groups) => match (group_of(groups, 1), group_of(groups, 2), group_of(groups, 3)) {
            (Some(count), Some(duration), Some(data_read)) => {
                if is_u64_text(count) {
                    Ok((decimal_value(count), duration, data_read))
                } else {
                    Err(ParseError::MalformedNumber(NumberField::TotalRequests))
                }
            },
            _ => Err(ParseError::MissingSummary),
        },
        None => Err(ParseError::MissingSummary),
    }
}

/// The rate of requests that a match of its pattern gives: the first group,
/// which must be a decimal fraction in ASCII.
pub open spec fn requests_per_sec_of(found: Option<Groups>) -> Result<Seq<char>, ParseError> {
    match found {
        Some(groups) => match group_of(groups, 1) {
            Some(rate) => {
                if is_decimal_text(rate) {
                    Ok(rate)
                } else {
                    Err(ParseError::MalformedNumber(NumberField::RequestsPerSec))
                }
            },
            None => Err(ParseError::MissingThroughput(ThroughputLine::Requests)),
        },
        None => Err(ParseError::MissingThroughput(ThroughputLine::Requests)),
    }
}

/// The rate of transfer that a match of its pattern gives: the first group.
pub open spec fn transfer_per_sec_of(found: Option<Groups>) -> Result<Seq<char>, ParseError> {
    match found {
        Some(groups) => match group_of(groups, 1) {
            Some(rate) => Ok(rate),
            None => Err(ParseError::MissingThroughput(ThroughputLine::Transfer)),
        },
        None => Err(ParseError::MissingThroughput(ThroughputLine::Transfer)),
    }
}

/// The report made of its parts, which takes a latency table of at least one
/// row.
pub open spec fn assembled(
    summary: SummaryModel,
    requests_per_sec: Seq<char>,
    transfer_per_sec: Seq<char>,
    rows: Seq<Row>,
) -> Result<ReportModel, ParseError> {
    if rows.len() == 0 {
        Err(ParseError::EmptyLatencyTable)
    } else {
        Ok(
            ReportModel {
                total_requests: summary.0,
                duration: summary.1,
                data_read: summary.2,
                requests_per_sec,
                transfer_per_sec,
                uncorrected_latency: rows,
            },
        )
    }
}

/// The summary fields of a report: those of the first match of the summary
/// pattern in the whole text.
pub open spec fn summary_in(text: Seq<char>) -> Result<SummaryModel, ParseError> {
    match matched(SUMMARY_PATTERN@, text) {
        Err(e) => Err(e),
        Ok(found) => summary_of(found),
    }
}

/// The rate of requests of a report: that of the first match of its pattern
/// in the whole text.
pub open spec fn requests_per_sec_in(text: Seq<char>) -> Result<Seq<char>, ParseError> {
    match matched(REQUESTS_PATTERN@, text) {
        Err(e) => Err(e),
        Ok(found) => requests_per_sec_of(found),
    }
}

/// The rate of transfer of a report: that of the first match of its pattern in
/// the whole text.
pub open spec fn transfer_per_sec_in(text: Seq<char>) -> Result<Seq<char>, ParseError> {
    match matched(TRANSFER_PATTERN@, text) {
        Err(e) => Err(e),
        Ok(found) => transfer_per_sec_of(found),
    }
}

/// What parsing the text of a run gives: the report, or the error of the
/// first part that fails, the parts taken in the order summary, rate of
/// requests, rate of transfer, latency table.
pub open spec fn report_of(text: Seq<char>) -> Result<ReportModel, ParseError> {
    match summary_in(text) {
        Err(e) => Err(e),
        Ok(summary) => match requests_per_sec_in(text) {
            Err(e) => Err(e),
            Ok(requests_per_sec) => match transfer_per_sec_in(text) {
                Err(e) => Err(e),
                Ok(transfer_per_sec) => match table_of_report(text) {
                    Err(e) => Err(e),
                    Ok(rows) => assembled(summary, requests_per_sec, transfer_per_sec, rows),
                },
            },
        },
    }
}

/// Whether `r` is what parsing `text` gives.
pub open spec fn is_outcome(text: Seq<char>, r: Result<Wrk2Result, ParseError>) -> bool {
    match r {
        Ok(report) => report_of(text) == Ok::<ReportModel, ParseError>(report@),
        Err(e) => report_of(text) == Err::<ReportModel, ParseError>(e),
    }
}

/// Reads the fields of the summary line out of what the summary pattern
/// found: the request count as a number, the duration and the data read as
/// printed. Where the pattern found nothing the error is `MissingSummary`;
/// where the count is no decimal number that a `u64` holds, it is
/// `MalformedNumber`.
pub fn summary_fields(found: &Option<Vec<Option<String>>>) -> (r: Result<
    (u64, String, String),
    ParseError,
>)
    ensures
        match r {
            Ok(fields) => summary_of(found.deep_view()) == Ok::<SummaryModel, ParseError>(
                (fields.0 as nat, fields.1@, fields.2@),
            ),
            Err(e) => summary_of(found.deep_view()) == Err::<SummaryModel, ParseError>(e),
        },
{
    match found {
        Some(groups) => match (group_text(groups, 1), group_text(groups, 2), group_text(groups, 3)) {
            (Some(count), Some(duration), Some(data_read)) => match parse_u64(count.as_str()) {
                Some(total_requests) => Ok((total_requests, duration, data_read)),
                None => Err(ParseError::MalformedNumber(NumberField::TotalRequests)),
            },
            _ => Err(ParseError::MissingSummary),
        },
        None => Err(ParseError::MissingSummary),
    }
}

/// Reads the rate of requests out of what its pattern found. Where the
/// pattern found nothing the error is `MissingThroughput`; where the rate is no
/// decimal fraction in ASCII, it is `MalformedNumber`.
pub fn requests_per_sec_field(found: &Option<Vec<Option<String>>>) -> (r: Result<
    String,
    ParseError,
>)
    ensures
        match r {
            Ok(rate) => requests_per_sec_of(found.deep_view()) == Ok::<Seq<char>, ParseError>(
                rate@,
            ),
            Err(e) => requests_per_sec_of(found.deep_view()) == Err::<Seq<char>, ParseError>(e),
        },
{
    match found {
        Some(groups) => match group_text(groups, 1) {
            Some(rate) => {
                if is_decimal(rate.as_str()) {
                    Ok(rate)
                } else {
                    Err(ParseError::MalformedNumber(NumberField::RequestsPerSec))
                }
            },
            None => Err(ParseError::MissingThroughput(ThroughputLine::Requests)),
        },
        None => Err(ParseError::MissingThroughput(ThroughputLine::Requests)),
    }
}

/// Reads the rate of transfer out of what its pattern found. Where the
/// pattern found nothing the error is `MissingThroughput`.
pub fn transfer_per_sec_field(found: &Option<Vec<Option<String>>>) -> (r: Result<
    String,
    ParseError,
>)
    ensures
        match r {
            Ok(rate) => transfer_per_sec_of(found.deep_view()) == Ok::<Seq<char>, ParseError>(
                rate@,
            ),
            Err(e) => transfer_per_sec_of(found.deep_view()) == Err::<Seq<char>, ParseError>(e),
        },
{
    match found {
        Some(groups) => match group_text(groups, 1) {
            Some(rate) => Ok(rate),
            None => Err(ParseError::MissingThroughput(ThroughputLine::Transfer)),
        },
        None => Err(ParseError::MissingThroughput(ThroughputLine::Transfer)),
    }
}

/// Puts the parts of a report together. A latency table without rows is
/// refused with `EmptyLatencyTable`, whoever made it.
pub fn assemble_report(
    summary: (u64, String, String),
    requests_per_sec: String,
    transfer_per_sec: String,
    rows: Vec<(String, String)>,
) -> (r: Result<Wrk2Result, ParseError>)
    ensures
        match r {
            Ok(report) => assembled(
                (summary.0 as nat, summary.1@, summary.2@),
                requests_per_sec@,
                transfer_per_sec@,
                row_views(rows@),
            ) == Ok::<ReportModel, ParseError>(report@),
            Err(e) => assembled(
                (summary.0 as nat, summary.1@, summary.2@),
                requests_per_sec@,
                transfer_per_sec@,
                row_views(rows@),
            ) == Err::<ReportModel, ParseError>(e),
        },
{
    if rows.len() == 0 {
        return Err(ParseError::EmptyLatencyTable);
    }
    Ok(
        Wrk2Result {
            total_requests: summary.0,
            duration: summary.1,
            data_read: summary.2,
            requests_per_sec,
            transfer_per_sec,
            uncorrected_latency: rows,
        },
    )
}

/// Parses the text that one run printed into a report. The summary line and
/// the two throughput lines are looked for in the whole text, and the first
/// match of each is taken; the latency table is read from the
/// uncorrected-latency subsection. The first part that fails gives the
/// error, and then there is no report.
pub fn parse_wrk2_output(output: &str) -> (r: Result<Wrk2Result, ParseError>)
    ensures
        is_outcome(output@, r),
        r matches Ok(report) ==> report.well_formed(),
{
    let found = match match_groups(SUMMARY_PATTERN, output) {
        Ok(found) => found,
        Err(e) => {
            return Err(e);
        },
    };
    let summary = match summary_fields(&found) {
        Ok(summary) => summary,
        Err(e) => {
            return Err(e);
        },
    };
    let found = match match_groups(REQUESTS_PATTERN, output) {
        Ok(found) => found,
        Err(e) => {
            return Err(e);
        },
    };
    let requests_per_sec = match requests_per_sec_field(&found) {
        Ok(rate) => rate,
        Err(e) => {
            return Err(e);
        },
    };
    let found = match match_groups(TRANSFER_PATTERN, output) {
        Ok(found) => found,
        Err(e) => {
            return Err(e);
        },
    };
    let transfer_per_sec = match transfer_per_sec_field(&found) {
        Ok(rate) => rate,
        Err(e) => {
            return Err(e);
        },
    };
    let rows = match extract_uncorrected_latency(output) {
        Ok(rows) => rows,
        Err(e) => {
            return Err(e);
        },
    };
    assemble_report(summary, requests_per_sec, transfer_per_sec, rows)
}

/// Parsing is deterministic: two outcomes of parsing one text are both
/// reports that hold the same values, or both the same error.
pub proof fn lemma_parse_deterministic(
    text: Seq<char>,
    first: Result<Wrk2Result, ParseError>,
    second: Result<Wrk2Result, ParseError>,
)
    requires
        is_outcome(text, first),
        is_outcome(text, second),
    ensures
        match (first, second) {
            (Ok(a), Ok(b)) => a@ == b@,
            (Err(a), Err(b)) => a == b,
            _ => false,
        },
{
}

/// There is no partial report: whatever parses is fully populated.
pub proof fn lemma_report_complete(text: Seq<char>)
    ensures
        report_of(text) matches Ok(report) ==> report.complete(),
{
}

/// The first part that fails decides the error, unchanged: the summary before
/// the rate of requests, that before the rate of transfer, and that before the
/// latency table.
pub proof fn lemma_first_failure_surfaces(text: Seq<char>)
    ensures
        summary_in(text) matches Err(e) ==> report_of(text) == Err::<ReportModel, ParseError>(e),
        summary_in(text) is Ok ==> (requests_per_sec_in(text) matches Err(e) ==> report_of(text)
            == Err::<ReportModel, ParseError>(e)),
        summary_in(text) is Ok && requests_per_sec_in(text) is Ok ==> (transfer_per_sec_in(
            text,
        ) matches Err(e) ==> report_of(text) == Err::<ReportModel, ParseError>(e)),
        summary_in(text) is Ok && requests_per_sec_in(text) is Ok && transfer_per_sec_in(text) is Ok
            ==> (table_of_report(text) matches Err(e) ==> report_of(text) == Err::<
            ReportModel,
            ParseError,
        >(e)),
{
}

/// A text with its summary and both throughput lines, but without the
/// section marker, fails with `MissingSection`.
pub proof fn lemma_missing_section(text: Seq<char>)
    requires
        summary_in(text) is Ok,
        requests_per_sec_in(text) is Ok,
        transfer_per_sec_in(text) is Ok,
        first_occurrence(text, SECTION_MARKER@) is None,
    ensures
        report_of(text) == Err::<ReportModel, ParseError>(ParseError::MissingSection),
{
}

/// A text with its summary and both throughput lines whose latency
/// subsection holds blank lines only fails with `EmptyLatencyTable`.
pub proof fn lemma_blank_section_fails(text: Seq<char>, section: Seq<char>)
    requires
        summary_in(text) is Ok,
        requests_per_sec_in(text) is Ok,
        transfer_per_sec_in(text) is Ok,
        latency_section(text) == Ok::<Seq<char>, ParseError>(section),
        !consults_pattern(lines_of(section)),
    ensures
        report_of(text) == Err::<ReportModel, ParseError>(ParseError::EmptyLatencyTable),
{
    lemma_blank_section_is_empty_table(section);
}

} // verus!
