//! The ways in which a report can fail to parse.

use vstd::prelude::*;

verus! {

/// One of the two throughput lines of a report.
#[derive(Clone, Copy, Debug, PartialEq, Eq, Structural)]
pub enum ThroughputLine {
    /// The `Requests/sec:` line.
    Requests,
    /// The `Transfer/sec:` line.
    Transfer,
}

/// A field of the report that is kept as a number.
#[derive(Clone, Copy, Debug, PartialEq, Eq, Structural)]
pub enum NumberField {
    /// The request count of the summary line.
    TotalRequests,
    /// The rate of the `Requests/sec:` line.
    RequestsPerSec,
}

/// Why no report could be built from a text.
#[derive(Clone, Copy, Debug, PartialEq, Eq, Structural)]
pub enum ParseError {
    /// The line with the request count, the duration and the data read was
    /// not found.
    MissingSummary,
    /// One of the two throughput lines was not found.
    MissingThroughput(ThroughputLine),
    /// The marker that opens the latency subsection was not found.
    MissingSection,
    /// The marker was found, but neither a blank line nor the marker of the
    /// next subsection follows it.
    MissingSectionEnd,
    /// The latency subsection holds no percentile line.
    EmptyLatencyTable,
    /// A matched number is not one that the field can hold.
    MalformedNumber(NumberField),
    /// The regular-expression engine rejected one of the patterns of this
    /// library.
    InvalidPattern,
}

impl ParseError {
    /// The text of [`ParseError::message`].
    pub open spec fn message_text(self) -> Seq<char> {
        match self {
            ParseError::MissingSummary => "Could not find summary information in output"@,
            ParseError::MissingThroughput(ThroughputLine::Requests) => {
                "Could not find Requests/sec in output"@
            },
            ParseError::MissingThroughput(ThroughputLine::Transfer) => {
                "Could not find Transfer/sec in output"@
            },
            ParseError::MissingSection => "Could not find Uncorrected Latency section"@,
            ParseError::MissingSectionEnd => {
                "Could not find end of Uncorrected Latency section"@
            },
            ParseError::EmptyLatencyTable => {
                "No latency data found in Uncorrected Latency section"@
            },
            ParseError::MalformedNumber(NumberField::TotalRequests) => {
                "Request count in summary is not a valid number"@
            },
            ParseError::MalformedNumber(NumberField::RequestsPerSec) => {
                "Requests/sec value is not a valid number"@
            },
            ParseError::InvalidPattern => "A line pattern was rejected by the regex engine"@,
        }
    }

    /// A sentence for the reader of a log that says what was not found.
    pub fn message(&self) -> (m: &'static str)
        ensures
            m@ == self.message_text(),
    {
        match self {
            ParseError::MissingSummary => "Could not find summary information in output",
            ParseError::MissingThroughput(ThroughputLine::Requests) => {
                "Could not find Requests/sec in output"
            },
            ParseError::MissingThroughput(ThroughputLine::Transfer) => {
                "Could not find Transfer/sec in output"
            },
            ParseError::MissingSection => "Could not find Uncorrected Latency section",
            ParseError::MissingSectionEnd => "Could not find end of Uncorrected Latency section",
            ParseError::EmptyLatencyTable => {
                "No latency data found in Uncorrected Latency section"
            },
            ParseError::MalformedNumber(NumberField::TotalRequests) => {
                "Request count in summary is not a valid number"
            },
            ParseError::MalformedNumber(NumberField::RequestsPerSec) => {
                "Requests/sec value is not a valid number"
            },
            ParseError::InvalidPattern => "A line pattern was rejected by the regex engine",
        }
    }
}

} // verus!
