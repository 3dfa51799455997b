//! The per-task processing pipeline: fetch, size re-check, probe, bitrate
//! decision, transcode, thumbnail.
//!
//! The pipeline is a state machine: every collaborator invocation — the
//! extractor, the directory listing, the prober, the transcoder and the
//! thumbnailer — is requested through a [`PipelineAction`] and reported back
//! as a [`PipelineEvent`]; every decision between two invocations is taken
//! here and verified. A stage's failure ends the task at once: no later
//! stage is ever requested.

use vstd::prelude::*;
use vstd::string::StringExecFns;

use crate::bitrate::{decide_bitrate, spec_decision, spec_rejects, BitrateDecision};
use crate::error::{ExtractionFault, PipelineError};
use crate::probe::Probe;
use crate::text::{spec_contains_seq, str_contains};

verus! {

/// The two externally supplied size ceilings, in megabytes: the normal cap,
/// and the higher cap used when the caller opted into fallback mode.
#[derive(Clone, Copy, PartialEq, Eq, Structural, Debug)]
pub struct PipelineConfig {
    /// Size ceiling for normal processing, in megabytes.
    pub max_filesize_mb: u64,
    /// Size ceiling in fallback mode, in megabytes.
    pub fallback_filesize_mb: u64,
}

impl PipelineConfig {
    /// The cap that applies to a task: the fallback ceiling when fallback
    /// was requested, the normal ceiling otherwise.
    pub open spec fn spec_cap(self, enable_fallback: bool) -> u64 {
        if enable_fallback {
            self.fallback_filesize_mb
        } else {
            self.max_filesize_mb
        }
    }

    /// Exec twin of [`Self::spec_cap`].
    pub fn cap(&self, enable_fallback: bool) -> (r: u64)
        ensures
            r == self.spec_cap(enable_fallback),
    {
        if enable_fallback {
            self.fallback_filesize_mb
        } else {
            self.max_filesize_mb
        }
    }
}

/// Where a task stands in its pipeline, with the data accumulated so far.
#[derive(PartialEq, Debug)]
pub enum PipelineState {
    /// The extractor is fetching the source.
    Fetching,
    /// The extractor's output directory is being listed.
    Listing,
    /// The prober is reading the fetched file's metadata.
    Probing,
    /// The transcoder is producing the artifact.
    Transcoding {
        /// Metadata of the original file.
        metadata: Probe,
        /// The bitrate decision taken for the task.
        decision: BitrateDecision,
    },
    /// The thumbnailer is attempting a capture of the artifact.
    Thumbnailing {
        /// Metadata of the original file.
        metadata: Probe,
        /// The bitrate decision taken for the task.
        decision: BitrateDecision,
        /// Path of the transcoded artifact.
        video_path: String,
    },
    /// The pipeline has produced its result; nothing further runs.
    Done,
}

/// What a collaborator invocation reported back.
#[derive(PartialEq, Debug)]
pub enum PipelineEvent {
    /// The extractor finished: its combined diagnostic output, whether it
    /// exited successfully, and its exit code.
    Fetched {
        /// The extractor's combined standard output and standard error.
        output: String,
        /// Whether the extractor exited with status zero.
        success: bool,
        /// The exit code, with a sentinel of -1 when none was reported.
        exit_code: i32,
    },
    /// The output directory was listed: how many files it holds, and the
    /// byte size of the single file when there is exactly one.
    Listed {
        /// Number of files found.
        file_count: u64,
        /// Byte size of the single file; meaningful only when
        /// `file_count == 1`.
        file_bytes: u64,
    },
    /// The output directory could not be read back.
    ListFailed,
    /// The prober finished: the metadata, or nothing when probing failed or
    /// found no video stream.
    Probed {
        /// The probed metadata, when any.
        metadata: Option<Probe>,
    },
    /// The transcoder finished.
    Transcoded {
        /// Whether the transcoder exited with status zero.
        success: bool,
        /// The exit code, with a sentinel of -1 when none was reported.
        exit_code: i32,
        /// Path of the produced artifact.
        video_path: String,
    },
    /// The thumbnail attempt finished.
    Thumbnailed {
        /// Path of the captured thumbnail, when one was produced.
        path: Option<String>,
    },
}

/// What the pipeline asks its driver to do next.
#[derive(PartialEq, Debug)]
pub enum PipelineAction {
    /// Invoke the extractor with this size cap in megabytes.
    RunExtractor {
        /// The cap handed to the extractor.
        cap_mb: u64,
    },
    /// List the extractor's output directory.
    ListOutput,
    /// Invoke the prober on the fetched file.
    RunProber,
    /// Invoke the transcoder, constrained to this bitrate when one is given.
    RunTranscoder {
        /// The bitrate constraint in kbps, or none for an unconstrained
        /// encode.
        bitrate: Option<u32>,
    },
    /// Attempt a thumbnail of the transcoded artifact.
    RunThumbnailer,
    /// The task failed; deliver this failure.
    Fail {
        /// Why the task failed.
        error: PipelineError,
    },
    /// The task succeeded; assemble and deliver the output from these parts.
    Succeed {
        /// Metadata of the original file.
        metadata: Probe,
        /// The reduced target bitrate when the source was constrained.
        reduced_bitrate: Option<u32>,
        /// Path of the transcoded artifact.
        video_path: String,
        /// Path of the thumbnail, when one was captured.
        thumbnail_path: Option<String>,
    },
}

/// The phrase the extractor prints when the source exceeds its size cap.
pub open spec fn spec_size_cap_phrase() -> Seq<char> {
    "File is larger than max-filesize"@
}

/// How the extractor's report is judged: a size-cap complaint in its output
/// is an oversized source whatever the exit status; otherwise a non-zero
/// exit is an extractor failure; otherwise the fetch succeeded.
pub open spec fn spec_fetch_fault(
    output: Seq<char>,
    success: bool,
    exit_code: i32,
    cap_mb: u64,
) -> Option<ExtractionFault> {
    if spec_contains_seq(output, spec_size_cap_phrase()) {
        Some(ExtractionFault::Oversized { cap_mb })
    } else if !success {
        Some(ExtractionFault::ExitStatus { code: exit_code })
    } else {
        None
    }
}

/// Whole decimal megabytes of a byte count.
pub open spec fn spec_megabytes(bytes: u64) -> u64 {
    (bytes / 1000000) as u64
}

/// Which events a stage can be answered with.
pub open spec fn spec_expects(state: PipelineState, event: PipelineEvent) -> bool {
    match (state, event) {
        (PipelineState::Fetching, PipelineEvent::Fetched { .. }) => true,
        (PipelineState::Listing, PipelineEvent::Listed { .. }) => true,
        (PipelineState::Listing, PipelineEvent::ListFailed) => true,
        (PipelineState::Probing, PipelineEvent::Probed { .. }) => true,
        (PipelineState::Transcoding { .. }, PipelineEvent::Transcoded { .. }) => true,
        (PipelineState::Thumbnailing { .. }, PipelineEvent::Thumbnailed { .. }) => true,
        _ => false,
    }
}

/// A finished pipeline accepts no further event: after a failure or a
/// success, nothing more is ever started for the task.
pub proof fn lemma_done_absorbs(event: PipelineEvent)
    ensures
        !spec_expects(PipelineState::Done, event),
{
}

/// One task's pipeline execution.
#[derive(PartialEq, Debug)]
pub struct Pipeline {
    /// URL of the source, kept for diagnostics.
    pub url: String,
    /// Whether the caller opted into fallback mode.
    pub enable_fallback: bool,
    /// The size cap that applies to the task, in megabytes.
    pub cap_mb: u64,
    /// Where the task stands.
    pub state: PipelineState,
}

impl Pipeline {
    /// Begin a task's pipeline: the first action fetches the source with
    /// the cap that the task's mode selects.
    pub fn start(url: String, enable_fallback: bool, config: &PipelineConfig) -> (r: (
        Pipeline,
        PipelineAction,
    ))
        ensures
            r.0 == (Pipeline {
                url,
                enable_fallback,
                cap_mb: config.spec_cap(enable_fallback),
                state: PipelineState::Fetching,
            }),
            r.1 == (PipelineAction::RunExtractor { cap_mb: config.spec_cap(enable_fallback) }),
    {
        let cap_mb = config.cap(enable_fallback);
        (
            Pipeline { url, enable_fallback, cap_mb, state: PipelineState::Fetching },
            PipelineAction::RunExtractor { cap_mb },
        )
    }

    /// Exec twin of [`spec_expects`]: whether the pipeline's current stage
    /// can be answered with this event. A driver checks an event against
    /// the stage before feeding it.
    pub fn expects(&self, event: &PipelineEvent) -> (r: bool)
        ensures
            r == spec_expects(self.state, *event),
    {
        match (&self.state, event) {
            (PipelineState::Fetching, PipelineEvent::Fetched { .. }) => true,
            (PipelineState::Listing, PipelineEvent::Listed { .. }) => true,
            (PipelineState::Listing, PipelineEvent::ListFailed) => true,
            (PipelineState::Probing, PipelineEvent::Probed { .. }) => true,
            (PipelineState::Transcoding { .. }, PipelineEvent::Transcoded { .. }) => true,
            (PipelineState::Thumbnailing { .. }, PipelineEvent::Thumbnailed { .. }) => true,
            _ => false,
        }
    }

    /// Feed the pipeline the outcome of the invocation it requested and get
    /// the next action. Every decision between two collaborator invocations
    /// is taken here:
    ///
    /// - a fetch that reports an oversized source, a non-zero exit, an
    ///   unreadable output directory or a file count other than one fails
    ///   the task with an extraction fault;
    /// - a fetched file over the task's cap fails it with a size-limit
    ///   error;
    /// - a missing probe degrades to all-zero metadata rather than failing;
    /// - the bitrate decision rejects the task, or selects the transcoder's
    ///   constraint, exactly as [`spec_decision`] states;
    /// - a failed transcode fails the task with the source and attempted
    ///   bitrate kept for diagnostics; a missing thumbnail is not a failure.
    ///
    /// A transcode is only ever requested by the probe stage, after every
    /// earlier check passed.
    pub fn on_event(&mut self, event: PipelineEvent) -> (r: PipelineAction)
        requires
            spec_expects(old(self).state, event),
        ensures
            final(self).enable_fallback == old(self).enable_fallback,
            final(self).cap_mb == old(self).cap_mb,
            (match (old(self).state, event) {
                (
                    PipelineState::Fetching,
                    PipelineEvent::Fetched { output, success, exit_code },
                ) => {
                    match spec_fetch_fault(output@, success, exit_code, old(self).cap_mb) {
                        Some(fault) => r == (PipelineAction::Fail {
                            error: PipelineError::Extraction { fault },
                        }) && final(self).state is Done,
                        None => r == PipelineAction::ListOutput && final(self).state is Listing
                            && final(self).url == old(self).url,
                    }
                },
                (PipelineState::Listing, PipelineEvent::ListFailed) => r == (PipelineAction::Fail {
                    error: PipelineError::Extraction { fault: ExtractionFault::Unreadable },
                }) && final(self).state is Done,
                (PipelineState::Listing, PipelineEvent::Listed { file_count, file_bytes }) => {
                    if file_count != 1 {
                        r == (PipelineAction::Fail {
                            error: PipelineError::Extraction {
                                fault: ExtractionFault::FileCount { count: file_count },
                            },
                        }) && final(self).state is Done
                    } else if spec_megabytes(file_bytes) > old(self).cap_mb {
                        r == (PipelineAction::Fail {
                            error: PipelineError::SizeLimit { cap_mb: old(self).cap_mb },
                        }) && final(self).state is Done
                    } else {
                        r == PipelineAction::RunProber && final(self).state is Probing
                            && final(self).url == old(self).url
                    }
                },
                (PipelineState::Probing, PipelineEvent::Probed { metadata }) => {
                    let m = match metadata {
                        Some(m) => m,
                        None => Probe { duration: 0, bitrate: 0, width: 0, height: 0 },
                    };
                    if spec_rejects(m, old(self).enable_fallback) {
                        r == (PipelineAction::Fail {
                            error: PipelineError::QualityDegradation,
                        }) && final(self).state is Done
                    } else {
                        r == (PipelineAction::RunTranscoder {
                            bitrate: spec_decision(m).spec_target(),
                        }) && final(self).state == (PipelineState::Transcoding {
                            metadata: m,
                            decision: spec_decision(m),
                        }) && final(self).url == old(self).url
                    }
                },
                (
                    PipelineState::Transcoding { metadata, decision },
                    PipelineEvent::Transcoded { success, exit_code, video_path },
                ) => {
                    if success {
                        r == PipelineAction::RunThumbnailer && final(self).state == (
                        PipelineState::Thumbnailing { metadata, decision, video_path })
                            && final(self).url == old(self).url
                    } else {
                        r == (PipelineAction::Fail {
                            error: PipelineError::Transcode {
                                url: old(self).url,
                                bitrate: decision.spec_target(),
                                code: exit_code,
                            },
                        }) && final(self).state is Done
                    }
                },
                (
                    PipelineState::Thumbnailing { metadata, decision, video_path },
                    PipelineEvent::Thumbnailed { path },
                ) => r == (PipelineAction::Succeed {
                    metadata,
                    reduced_bitrate: decision.spec_target(),
                    video_path,
                    thumbnail_path: path,
                }) && final(self).state is Done,
                _ => false,
            }),
            r is RunTranscoder ==> old(self).state is Probing,
    {
        let mut state = PipelineState::Done;
        core::mem::swap(&mut self.state, &mut state);
        match (state, event) {
            (PipelineState::Fetching, PipelineEvent::Fetched { output, success, exit_code }) => {
                if str_contains(output.as_str(), "File is larger than max-filesize") {
                    PipelineAction::Fail {
                        error: PipelineError::Extraction {
                            fault: ExtractionFault::Oversized { cap_mb: self.cap_mb },
                        },
                    }
                } else if !success {
                    PipelineAction::Fail {
                        error: PipelineError::Extraction {
                            fault: ExtractionFault::ExitStatus { code: exit_code },
                        },
                    }
                } else {
                    self.state = PipelineState::Listing;
                    PipelineAction::ListOutput
                }
            },
            (PipelineState::Listing, PipelineEvent::ListFailed) => {
                PipelineAction::Fail {
                    error: PipelineError::Extraction { fault: ExtractionFault::Unreadable },
                }
            },
            (PipelineState::Listing, PipelineEvent::Listed { file_count, file_bytes }) => {
                if file_count != 1 {
                    PipelineAction::Fail {
                        error: PipelineError::Extraction {
                            fault: ExtractionFault::FileCount { count: file_count },
                        },
                    }
                } else if file_bytes / 1000000 > self.cap_mb {
                    PipelineAction::Fail {
                        error: PipelineError::SizeLimit { cap_mb: self.cap_mb },
                    }
                } else {
                    self.state = PipelineState::Probing;
                    PipelineAction::RunProber
                }
            },
            (PipelineState::Probing, PipelineEvent::Probed { metadata }) => {
                let m = match metadata {
                    Some(m) => m,
                    None => Probe::default(),
                };
                match decide_bitrate(&m, self.enable_fallback) {
                    Err(error) => PipelineAction::Fail { error },
                    Ok(decision) => {
                        let bitrate = decision.target();
                        self.state = PipelineState::Transcoding { metadata: m, decision };
                        PipelineAction::RunTranscoder { bitrate }
                    },
                }
            },
            (
                PipelineState::Transcoding { metadata, decision },
                PipelineEvent::Transcoded { success, exit_code, video_path },
            ) => {
                if success {
                    self.state = PipelineState::Thumbnailing { metadata, decision, video_path };
                    PipelineAction::RunThumbnailer
                } else {
                    let mut url = String::new();
                    core::mem::swap(&mut self.url, &mut url);
                    PipelineAction::Fail {
                        error: PipelineError::Transcode {
                            url,
                            bitrate: decision.target(),
                            code: exit_code,
                        },
                    }
                }
            },
            (
                PipelineState::Thumbnailing { metadata, decision, video_path },
                PipelineEvent::Thumbnailed { path },
            ) => {
                let reduced_bitrate = decision.target();
                PipelineAction::Succeed {
                    metadata,
                    reduced_bitrate,
                    video_path,
                    thumbnail_path: path,
                }
            },
            _ => {
                // excluded by the precondition
                proof {
                    assert(false);
                }
                PipelineAction::ListOutput
            },
        }
    }
}

/// Relies on rand's `Alphanumeric` distribution sampled through the thread
/// RNG: a fresh string of exactly `size` ASCII alphanumeric characters.
#[verifier::external_body]
pub fn random_string(size: usize) -> (r: String)
    ensures
        r@.len() == size,
{
    rand::distr::SampleString::sample_string(&rand::distr::Alphanumeric, &mut rand::rng(), size)
}

/// A fresh name for the transcoded artifact: a random ten-character stem
/// and the container suffix.
pub fn fresh_output_name() -> (r: String)
    ensures
        r@.len() == 14,
        r@.subrange(10, 14) == ".mp4"@,
{
    let mut s = random_string(10);
    proof {
        reveal_strlit(".mp4");
    }
    s.append(".mp4");
    proof {
        assert(s@.subrange(10, 14) =~= ".mp4"@);
    }
    s
}

} // verus!
