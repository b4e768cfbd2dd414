//! Choosing how the statistics of a run are reported.

use vstd::prelude::*;
use vstd::string::*;
use crate::text::lowercase_of;

verus! {

/// The formats a report can be written in.
#[derive(Debug, Clone, Copy, PartialEq, Eq, Structural)]
pub enum ReportFormat {
    /// Human-readable text.
    Text,
    /// JSON, for other programs.
    Json,
}

/// The format that a name in lower case stands for: JSON for `json`, text
/// for anything else.
pub open spec fn format_named(lower: Seq<char>) -> ReportFormat {
    if lower == "json"@ {
        ReportFormat::Json
    } else {
        ReportFormat::Text
    }
}

/// The reporter of performance statistics.
#[derive(Debug, Clone, Copy)]
pub struct PerfReport;

impl PerfReport {
    /// The format that a name in lower case stands for.
    pub fn format_from_lowercase(lower: &String) -> (r: ReportFormat)
        ensures
            r == format_named(lower@),
    {
        let json = String::from_str("json");
        if *lower == json {
            ReportFormat::Json
        } else {
            ReportFormat::Text
        }
    }

    /// The format that a name stands for, whatever its case: JSON for
    /// `json`, text for anything else.
    pub fn format_for(format: &str) -> (r: ReportFormat)
        ensures
            r == format_named(lowercase_of(format@)),
    {
        let lower = format.to_lowercase();
        Self::format_from_lowercase(&lower)
    }
}

} // verus!
