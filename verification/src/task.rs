//! The request/response model: a task, its output, and the one-shot
//! completion channel the result travels back on.

use vstd::prelude::*;

use crate::error::{spec_error_message, PipelineError};
use crate::probe::Probe;

verus! {

/// `tempfile::TempDir` as an opaque scoped resource: the backing directory
/// of a task's files, released when the value is dropped.
#[verifier::external_type_specification]
#[verifier::external_body]
pub struct ExTempDir(tempfile::TempDir);

/// `tokio::sync::oneshot::Sender` as an opaque one-shot channel endpoint.
#[verifier::external_type_specification]
#[verifier::external_body]
#[verifier::reject_recursive_types(T)]
pub struct ExOneshotSender<T>(tokio::sync::oneshot::Sender<T>);

/// The output of a successfully processed task.
#[derive(Debug)]
pub struct TaskOutput {
    /// Owns the directory holding the artifacts; dropping it deletes them,
    /// so it is handed onward with the output, never released here.
    pub dir: tempfile::TempDir,
    /// Path of the transcoded video artifact, inside `dir`.
    pub video_path: String,
    /// Path of the extracted thumbnail, when one could be captured.
    pub thumbnail_path: Option<String>,
    /// Metadata of the original file, as probed before transcoding.
    pub metadata: Probe,
    /// The reduced target bitrate in kbps when the source was constrained,
    /// `None` when it was encoded unconstrained.
    pub reduced_bitrate: Option<u32>,
}

/// What the completion channel carries: the boxed output, or the reason the
/// task failed.
pub type TaskResult = Result<Box<TaskOutput>, String>;

/// A download request: where to fetch from, whether the caller opted into
/// fallback mode, and the channel the result is delivered on.
pub struct Task {
    /// URL of the video to be processed.
    pub url: String,
    /// Whether fallback processing was requested: a higher size ceiling and
    /// no quality-degradation rejection.
    pub enable_fallback: bool,
    /// Channel that delivers the result back to the requester.
    pub return_channel: tokio::sync::oneshot::Sender<TaskResult>,
}

/// Relies on `tokio::sync::oneshot::Sender::send`: the value is delivered to
/// the receiver, or handed back unchanged when the receiver is gone.
#[verifier::external_body]
fn channel_send(channel: tokio::sync::oneshot::Sender<TaskResult>, value: TaskResult) -> (r:
    Result<(), TaskResult>)
    ensures
        r is Err ==> r->Err_0 == value,
{
    channel.send(value)
}

/// Convert a pipeline outcome into the value the completion channel
/// carries: the boxed output, or the failure's reason text.
pub fn to_task_result(outcome: Result<TaskOutput, PipelineError>) -> (r: TaskResult)
    ensures
        outcome is Ok <==> r is Ok,
        outcome is Ok ==> r->Ok_0 == outcome->Ok_0,
        outcome is Err ==> r->Err_0@ == spec_error_message(outcome->Err_0),
{
    match outcome {
        Ok(output) => Ok(Box::new(output)),
        Err(e) => Err(e.message()),
    }
}

/// Deliver a result on a task's completion channel. A requester that has
/// abandoned the receiving half makes delivery fail; the undelivered value
/// is handed back and the failure is otherwise ignored.
pub fn deliver_result(channel: tokio::sync::oneshot::Sender<TaskResult>, value: TaskResult) -> (r:
    Result<(), TaskResult>)
    ensures
        r is Err ==> r->Err_0 == value,
{
    channel_send(channel, value)
}

} // verus!
