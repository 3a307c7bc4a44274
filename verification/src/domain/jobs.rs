//! Job queue and run history records.

use vstd::prelude::*;

use crate::error::decode_message;

verus! {

/// The work a queued job performs.
#[derive(Copy, Clone, Debug, PartialEq, Eq, Structural)]
pub enum JobKind {
    GenerateImage,
}

/// The state of a job batch.
#[derive(Copy, Clone, Debug, PartialEq, Eq, Structural)]
pub enum BatchStatus {
    Running,
    Waiting,
    Paused,
    Stopping,
    Succeeded,
    Stopped,
}

/// The state of a queued job.
#[derive(Copy, Clone, Debug, PartialEq, Eq, Structural)]
pub enum JobStatus {
    Queued,
    Preparing,
    Running,
    WaitingRetry,
    Blocked,
    Succeeded,
    Failed,
    Skipped,
}

/// The kind of a recorded run.
#[derive(Copy, Clone, Debug, PartialEq, Eq, Structural)]
pub enum RunHistoryKind {
    Generation,
    Director,
}

/// The state of a recorded run.
#[derive(Copy, Clone, Debug, PartialEq, Eq, Structural)]
pub enum RunHistoryStatus {
    Queued,
    Preparing,
    Running,
    Waiting,
    Paused,
    Succeeded,
    Failed,
    Skipped,
    Stopped,
}

/// Which class of failure a [`JobQueueError`] reports.
#[derive(Copy, Clone, Debug, PartialEq, Eq, Structural)]
pub enum JobQueueErrorKind {
    InvalidState,
}

/// A failure of the job queue or run history stores.
#[derive(Clone, Debug)]
pub struct JobQueueError {
    kind: JobQueueErrorKind,
    message: String,
}

impl JobQueueError {
    /// The kind of this error.
    pub closed spec fn spec_kind(&self) -> JobQueueErrorKind {
        self.kind
    }

    /// The message of this error.
    pub closed spec fn spec_message(&self) -> Seq<char> {
        self.message@
    }

    /// An error reporting stored queue state that cannot be used.
    pub fn invalid_state(message: String) -> (error: Self)
        ensures
            error.spec_kind() == JobQueueErrorKind::InvalidState,
            error.spec_message() == message@,
    {
        JobQueueError { kind: JobQueueErrorKind::InvalidState, message }
    }

    /// The kind of this error.
    pub fn kind(&self) -> (kind: JobQueueErrorKind)
        ensures
            kind == self.spec_kind(),
    {
        self.kind
    }

    /// The message of this error.
    pub fn message(&self) -> (message: &str)
        ensures
            message@ == self.spec_message(),
    {
        self.message.as_str()
    }
}

/// The result type of job queue and run history operations.
pub type JobResult<T> = Result<T, JobQueueError>;

/// An error reporting that `value` is not a known `kind` of queue state.
pub fn unknown_value_error(kind: &str, value: &str) -> (error: JobQueueError)
    ensures
        error.spec_kind() == JobQueueErrorKind::InvalidState,
        error.spec_message() == decode_message(kind@, value@),
{
    let mut message = "unknown ".to_owned();
    message.append(kind);
    message.append(" `");
    message.append(value);
    message.append("`");
    JobQueueError::invalid_state(message)
}

/// A randomised pause between jobs, as a range of milliseconds.
#[derive(Copy, Clone, Debug, PartialEq, Eq, Structural)]
pub struct QueueDelay {
    pub min_millis: u128,
    pub max_millis: u128,
}

/// How the queue paces tasks and retries rate-limited requests.
#[derive(Copy, Clone, Debug, PartialEq, Eq, Structural)]
pub struct RetryPolicy {
    pub task_interval: QueueDelay,
    pub rate_limit_fallback: QueueDelay,
    pub max_rate_limit_retries: u32,
}

/// One job of a batch.
#[derive(Clone, Debug)]
pub struct JobRecord {
    pub job_id: String,
    pub kind: JobKind,
    pub payload_ref: String,
    pub prepared_payload_ref: Option<String>,
    pub status: JobStatus,
    pub retry_attempts: u32,
}

/// A batch of jobs and its status.
#[derive(Clone, Debug)]
pub struct JobBatch {
    pub batch_id: String,
    pub status: BatchStatus,
    pub jobs: Vec<JobRecord>,
}

/// The batch the queue is working on, with its pacing state.
#[derive(Clone, Debug)]
pub struct ActiveJobBatchSnapshot {
    pub batch: JobBatch,
    pub current_job: Option<String>,
    pub pending_delay: Option<QueueDelay>,
    pub paused_delay: Option<QueueDelay>,
    pub pause_after_current: bool,
    pub stop_after_current: bool,
}

/// What the queue persists between sessions.
#[derive(Clone, Debug)]
pub struct JobQueueSnapshot {
    pub active_batch: Option<ActiveJobBatchSnapshot>,
    pub retry_policy: RetryPolicy,
}

} // verus!
