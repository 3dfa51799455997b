//! Admission-controlled download queue with an adaptive-bitrate processing
//! pipeline.
//!
//! The crate models a single-concurrency video-download service: callers are
//! admitted through a queue whose observable size never undercounts a request
//! that was already promised a position, a worker drains the queue strictly
//! first-in first-out, and each task runs through a fetch, size-check, probe,
//! bitrate-decision, transcode and thumbnail pipeline whose numeric policy is
//! stated and proved exactly.

pub mod bitrate;
pub mod chat;
pub mod decimal;
pub mod error;
pub mod pipeline;
pub mod probe;
pub mod task;
pub mod text;
pub mod urls;
pub mod worker;
