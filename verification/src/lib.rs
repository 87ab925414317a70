//! Extraction of structured metrics from the plain-text report of a wrk2 run.
//!
//! [`parse_wrk2_output`] turns the text that wrk2 printed into a
//! [`Wrk2Result`], or says with a [`ParseError`] which part of the report it
//! did not find. [`format_u64_with_commas`] renders the counts of a report
//! for display. The lines of a report are recognised by regular expressions,
//! which the `regex` crate matches; what is made of the matches is verified
//! with Verus.

pub mod error;
pub mod grouping;
pub mod invocation;
pub mod latency;
pub mod number;
pub mod pattern;
pub mod report;
pub mod section;
pub mod text;

pub use error::ParseError;
pub use latency::extract_uncorrected_latency;
pub use grouping::{format_str_with_commas, format_u64_with_commas};
pub use report::{parse_wrk2_output, Wrk2Result};
