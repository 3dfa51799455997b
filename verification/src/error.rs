//! The failure taxonomy of the processing pipeline, and the reason text
//! reported for each failure.

use vstd::prelude::*;
use vstd::string::StringExecFns;

use crate::decimal::{i64_to_string, spec_int_string, spec_nat_string, u64_to_string};

verus! {

/// Why the fetch stage rejected a task.
#[derive(Clone, PartialEq, Eq, Structural, Debug)]
pub enum ExtractionFault {
    /// The extractor reported that the source exceeded the size cap, in
    /// megabytes, that it was invoked with.
    Oversized { cap_mb: u64 },
    /// The extractor exited with a non-zero status.
    ExitStatus { code: i32 },
    /// The extractor left a number of output files other than exactly one.
    FileCount { count: u64 },
    /// The extractor's output directory could not be read back.
    Unreadable,
}

/// A pipeline failure: each task ends with a success or with exactly one of
/// these reasons.
#[derive(Clone, PartialEq, Debug)]
pub enum PipelineError {
    /// The fetch stage failed.
    Extraction { fault: ExtractionFault },
    /// The size re-check after the fetch found the file over the cap, in
    /// megabytes, that applied to the task.
    SizeLimit { cap_mb: u64 },
    /// The forced bitrate reduction would degrade quality past the policy
    /// threshold and the caller did not allow fallback.
    QualityDegradation,
    /// The transcoder failed; the source and the attempted bitrate are kept
    /// for diagnostics.
    Transcode { url: String, bitrate: Option<u32>, code: i32 },
}

/// The reason text for a fetch-stage failure.
pub open spec fn spec_extraction_message(fault: ExtractionFault) -> Seq<char> {
    match fault {
        ExtractionFault::Oversized { cap_mb } => "file size exceeded "@ + spec_nat_string(
            cap_mb as nat,
        ) + " megabytes"@,
        ExtractionFault::ExitStatus { code } => "yt-dlp failed with status code "@
            + spec_int_string(code as int),
        ExtractionFault::FileCount { count } => spec_nat_string(count as nat)
            + " files found, expected 1"@,
        ExtractionFault::Unreadable => "could not read tempdir contents"@,
    }
}

/// The reason text delivered for a pipeline failure.
pub open spec fn spec_error_message(e: PipelineError) -> Seq<char> {
    match e {
        PipelineError::Extraction { fault } => spec_extraction_message(fault),
        PipelineError::SizeLimit { cap_mb } => "base file size exceeded "@ + spec_nat_string(
            cap_mb as nat,
        ) + " MB"@,
        PipelineError::QualityDegradation => "API-adjusted bitrate is too low"@,
        PipelineError::Transcode { url: _, bitrate: _, code } => (
        "ffmpeg failed with status code "@) + spec_int_string(code as int),
    }
}

impl PipelineError {
    /// Render the reason text for this failure.
    pub fn message(&self) -> (r: String)
        ensures
            r@ == spec_error_message(*self),
    {
        match self {
            PipelineError::Extraction { fault } => match fault {
                ExtractionFault::Oversized { cap_mb } => {
                    let mut s = String::from_str("file size exceeded ");
                    s.append(u64_to_string(*cap_mb).as_str());
                    s.append(" megabytes");
                    s
                },
                ExtractionFault::ExitStatus { code } => {
                    let mut s = String::from_str("yt-dlp failed with status code ");
                    s.append(i64_to_string(*code as i64).as_str());
                    s
                },
                ExtractionFault::FileCount { count } => {
                    let mut s = u64_to_string(*count);
                    s.append(" files found, expected 1");
                    s
                },
                ExtractionFault::Unreadable => String::from_str("could not read tempdir contents"),
            },
            PipelineError::SizeLimit { cap_mb } => {
                let mut s = String::from_str("base file size exceeded ");
                s.append(u64_to_string(*cap_mb).as_str());
                s.append(" MB");
                s
            },
            PipelineError::QualityDegradation => String::from_str(
                "API-adjusted bitrate is too low",
            ),
            PipelineError::Transcode { url: _, bitrate: _, code } => {
                let mut s = String::from_str("ffmpeg failed with status code ");
                s.append(i64_to_string(*code as i64).as_str());
                s
            },
        }
    }
}

} // verus!
