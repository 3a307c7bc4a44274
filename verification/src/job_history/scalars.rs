//! Stored texts of the job queue and run history vocabulary.

use vstd::prelude::*;

use crate::domain::jobs::{BatchStatus, JobKind, JobStatus, RunHistoryKind, RunHistoryStatus};
use crate::domain::jobs::{unknown_value_error, JobQueueErrorKind, JobResult};
use crate::error::decode_message;
use crate::text::str_eq;

verus! {

/// The text that stores each [`JobKind`] value.
pub open spec fn job_kind_text(value: JobKind) -> Seq<char> {
    match value {
        JobKind::GenerateImage => "generate_image"@,
    }
}

/// The [`JobKind`] value stored as `text`, if `text` stores one.
pub open spec fn job_kind_parse(text: Seq<char>) -> Option<JobKind> {
    if text == "generate_image"@ {
        Some(JobKind::GenerateImage)
    } else {
        None
    }
}

/// Decoding the stored text of a [`JobKind`] gives the value back, and a text
/// decodes to a value only when it is that value's stored text; so distinct
/// values are stored as distinct texts.
pub proof fn lemma_job_kind_round_trip(value: JobKind, text: Seq<char>)
    ensures
        job_kind_parse(job_kind_text(value)) == Some(value),
        job_kind_parse(text) == Some(value) ==> job_kind_text(value) == text,
{
    reveal_strlit("generate_image");
    assert("generate_image"@.len() == 14);
    match value {
        JobKind::GenerateImage => {
            assert(job_kind_parse("generate_image"@) == Some(JobKind::GenerateImage));
        },
    }
}

/// The text that stores `value`.
pub fn job_kind_as_str(value: JobKind) -> (text: &'static str)
    ensures
        text@ == job_kind_text(value),
{
    match value {
        JobKind::GenerateImage => "generate_image",
    }
}

/// Decodes a stored [`JobKind`]; an unknown text is an error that names it.
pub fn job_kind_from_str(value: &str) -> (result: JobResult<JobKind>)
    ensures
        (match result {
            Ok(parsed) => job_kind_parse(value@) == Some(parsed),
            Err(error) => {
                &&& job_kind_parse(value@) is None
                &&& error.spec_kind() == JobQueueErrorKind::InvalidState
                &&& error.spec_message() == decode_message("job kind"@, value@)
            },
        }),
{
    if str_eq(value, "generate_image") {
        Ok(JobKind::GenerateImage)
    } else {
        Err(unknown_value_error("job kind", value))
    }
}

/// The text that stores each [`BatchStatus`] value.
pub open spec fn batch_status_text(value: BatchStatus) -> Seq<char> {
    match value {
        BatchStatus::Running => "running"@,
        BatchStatus::Waiting => "waiting"@,
        BatchStatus::Paused => "paused"@,
        BatchStatus::Stopping => "stopping"@,
        BatchStatus::Succeeded => "succeeded"@,
        BatchStatus::Stopped => "stopped"@,
    }
}

/// The [`BatchStatus`] value stored as `text`, if `text` stores one.
pub open spec fn batch_status_parse(text: Seq<char>) -> Option<BatchStatus> {
    if text == "running"@ {
        Some(BatchStatus::Running)
    } else if text == "waiting"@ {
        Some(BatchStatus::Waiting)
    } else if text == "paused"@ {
        Some(BatchStatus::Paused)
    } else if text == "stopping"@ {
        Some(BatchStatus::Stopping)
    } else if text == "succeeded"@ {
        Some(BatchStatus::Succeeded)
    } else if text == "stopped"@ {
        Some(BatchStatus::Stopped)
    } else {
        None
    }
}

/// Decoding the stored text of a [`BatchStatus`] gives the value back, and a text
/// decodes to a value only when it is that value's stored text; so distinct
/// values are stored as distinct texts.
pub proof fn lemma_batch_status_round_trip(value: BatchStatus, text: Seq<char>)
    ensures
        batch_status_parse(batch_status_text(value)) == Some(value),
        batch_status_parse(text) == Some(value) ==> batch_status_text(value) == text,
{
    reveal_strlit("running");
    assert("running"@.len() == 7);
    reveal_strlit("waiting");
    assert("waiting"@.len() == 7);
    reveal_strlit("paused");
    assert("paused"@.len() == 6);
    reveal_strlit("stopping");
    assert("stopping"@.len() == 8);
    reveal_strlit("succeeded");
    assert("succeeded"@.len() == 9);
    reveal_strlit("stopped");
    assert("stopped"@.len() == 7);
    match value {
        BatchStatus::Running => {
            assert(batch_status_parse("running"@) == Some(BatchStatus::Running));
        },
        BatchStatus::Waiting => {
            assert("waiting"@[0] != "running"@[0]);
            assert(batch_status_parse("waiting"@) == Some(BatchStatus::Waiting));
        },
        BatchStatus::Paused => {
            assert(batch_status_parse("paused"@) == Some(BatchStatus::Paused));
        },
        BatchStatus::Stopping => {
            assert(batch_status_parse("stopping"@) == Some(BatchStatus::Stopping));
        },
        BatchStatus::Succeeded => {
            assert(batch_status_parse("succeeded"@) == Some(BatchStatus::Succeeded));
        },
        BatchStatus::Stopped => {
            assert("stopped"@[0] != "running"@[0]);
            assert("stopped"@[0] != "waiting"@[0]);
            assert(batch_status_parse("stopped"@) == Some(BatchStatus::Stopped));
        },
    }
}

/// The text that stores `value`.
pub fn batch_status_as_str(value: BatchStatus) -> (text: &'static str)
    ensures
        text@ == batch_status_text(value),
{
    match value {
        BatchStatus::Running => "running",
        BatchStatus::Waiting => "waiting",
        BatchStatus::Paused => "paused",
        BatchStatus::Stopping => "stopping",
        BatchStatus::Succeeded => "succeeded",
        BatchStatus::Stopped => "stopped",
    }
}

/// Decodes a stored [`BatchStatus`]; an unknown text is an error that names it.
pub fn batch_status_from_str(value: &str) -> (result: JobResult<BatchStatus>)
    ensures
        (match result {
            Ok(parsed) => batch_status_parse(value@) == Some(parsed),
            Err(error) => {
                &&& batch_status_parse(value@) is None
                &&& error.spec_kind() == JobQueueErrorKind::InvalidState
                &&& error.spec_message() == decode_message("batch status"@, value@)
            },
        }),
{
    if str_eq(value, "running") {
        Ok(BatchStatus::Running)
    } else if str_eq(value, "waiting") {
        Ok(BatchStatus::Waiting)
    } else if str_eq(value, "paused") {
        Ok(BatchStatus::Paused)
    } else if str_eq(value, "stopping") {
        Ok(BatchStatus::Stopping)
    } else if str_eq(value, "succeeded") {
        Ok(BatchStatus::Succeeded)
    } else if str_eq(value, "stopped") {
        Ok(BatchStatus::Stopped)
    } else {
        Err(unknown_value_error("batch status", value))
    }
}

/// The text that stores each [`JobStatus`] value.
pub open spec fn job_status_text(value: JobStatus) -> Seq<char> {
    match value {
        JobStatus::Queued => "queued"@,
        JobStatus::Preparing => "preparing"@,
        JobStatus::Running => "running"@,
        JobStatus::WaitingRetry => "waiting_retry"@,
        JobStatus::Blocked => "blocked"@,
        JobStatus::Succeeded => "succeeded"@,
        JobStatus::Failed => "failed"@,
        JobStatus::Skipped => "skipped"@,
    }
}

/// The [`JobStatus`] value stored as `text`, if `text` stores one.
pub open spec fn job_status_parse(text: Seq<char>) -> Option<JobStatus> {
    if text == "queued"@ {
        Some(JobStatus::Queued)
    } else if text == "preparing"@ {
        Some(JobStatus::Preparing)
    } else if text == "running"@ {
        Some(JobStatus::Running)
    } else if text == "waiting_retry"@ {
        Some(JobStatus::WaitingRetry)
    } else if text == "blocked"@ {
        Some(JobStatus::Blocked)
    } else if text == "succeeded"@ {
        Some(JobStatus::Succeeded)
    } else if text == "failed"@ {
        Some(JobStatus::Failed)
    } else if text == "skipped"@ {
        Some(JobStatus::Skipped)
    } else {
        None
    }
}

/// Decoding the stored text of a [`JobStatus`] gives the value back, and a text
/// decodes to a value only when it is that value's stored text; so distinct
/// values are stored as distinct texts.
pub proof fn lemma_job_status_round_trip(value: JobStatus, text: Seq<char>)
    ensures
        job_status_parse(job_status_text(value)) == Some(value),
        job_status_parse(text) == Some(value) ==> job_status_text(value) == text,
{
    reveal_strlit("queued");
    assert("queued"@.len() == 6);
    reveal_strlit("preparing");
    assert("preparing"@.len() == 9);
    reveal_strlit("running");
    assert("running"@.len() == 7);
    reveal_strlit("waiting_retry");
    assert("waiting_retry"@.len() == 13);
    reveal_strlit("blocked");
    assert("blocked"@.len() == 7);
    reveal_strlit("succeeded");
    assert("succeeded"@.len() == 9);
    reveal_strlit("failed");
    assert("failed"@.len() == 6);
    reveal_strlit("skipped");
    assert("skipped"@.len() == 7);
    match value {
        JobStatus::Queued => {
            assert(job_status_parse("queued"@) == Some(JobStatus::Queued));
        },
        JobStatus::Preparing => {
            assert(job_status_parse("preparing"@) == Some(JobStatus::Preparing));
        },
        JobStatus::Running => {
            assert(job_status_parse("running"@) == Some(JobStatus::Running));
        },
        JobStatus::WaitingRetry => {
            assert(job_status_parse("waiting_retry"@) == Some(JobStatus::WaitingRetry));
        },
        JobStatus::Blocked => {
            assert("blocked"@[0] != "running"@[0]);
            assert(job_status_parse("blocked"@) == Some(JobStatus::Blocked));
        },
        JobStatus::Succeeded => {
            assert("succeeded"@[0] != "preparing"@[0]);
            assert(job_status_parse("succeeded"@) == Some(JobStatus::Succeeded));
        },
        JobStatus::Failed => {
            assert("failed"@[0] != "queued"@[0]);
            assert(job_status_parse("failed"@) == Some(JobStatus::Failed));
        },
        JobStatus::Skipped => {
            assert("skipped"@[0] != "running"@[0]);
            assert("skipped"@[0] != "blocked"@[0]);
            assert(job_status_parse("skipped"@) == Some(JobStatus::Skipped));
        },
    }
}

/// The text that stores `value`.
pub fn job_status_as_str(value: JobStatus) -> (text: &'static str)
    ensures
        text@ == job_status_text(value),
{
    match value {
        JobStatus::Queued => "queued",
        JobStatus::Preparing => "preparing",
        JobStatus::Running => "running",
        JobStatus::WaitingRetry => "waiting_retry",
        JobStatus::Blocked => "blocked",
        JobStatus::Succeeded => "succeeded",
        JobStatus::Failed => "failed",
        JobStatus::Skipped => "skipped",
    }
}

/// Decodes a stored [`JobStatus`]; an unknown text is an error that names it.
pub fn job_status_from_str(value: &str) -> (result: JobResult<JobStatus>)
    ensures
        (match result {
            Ok(parsed) => job_status_parse(value@) == Some(parsed),
            Err(error) => {
                &&& job_status_parse(value@) is None
                &&& error.spec_kind() == JobQueueErrorKind::InvalidState
                &&& error.spec_message() == decode_message("job status"@, value@)
            },
        }),
{
    if str_eq(value, "queued") {
        Ok(JobStatus::Queued)
    } else if str_eq(value, "preparing") {
        Ok(JobStatus::Preparing)
    } else if str_eq(value, "running") {
        Ok(JobStatus::Running)
    } else if str_eq(value, "waiting_retry") {
        Ok(JobStatus::WaitingRetry)
    } else if str_eq(value, "blocked") {
        Ok(JobStatus::Blocked)
    } else if str_eq(value, "succeeded") {
        Ok(JobStatus::Succeeded)
    } else if str_eq(value, "failed") {
        Ok(JobStatus::Failed)
    } else if str_eq(value, "skipped") {
        Ok(JobStatus::Skipped)
    } else {
        Err(unknown_value_error("job status", value))
    }
}

/// The text that stores each [`RunHistoryKind`] value.
pub open spec fn run_history_kind_text(value: RunHistoryKind) -> Seq<char> {
    match value {
        RunHistoryKind::Generation => "generation"@,
        RunHistoryKind::Director => "director"@,
    }
}

/// The [`RunHistoryKind`] value stored as `text`, if `text` stores one.
pub open spec fn run_history_kind_parse(text: Seq<char>) -> Option<RunHistoryKind> {
    if text == "generation"@ {
        Some(RunHistoryKind::Generation)
    } else if text == "director"@ {
        Some(RunHistoryKind::Director)
    } else {
        None
    }
}

/// Decoding the stored text of a [`RunHistoryKind`] gives the value back, and a text
/// decodes to a value only when it is that value's stored text; so distinct
/// values are stored as distinct texts.
pub proof fn lemma_run_history_kind_round_trip(value: RunHistoryKind, text: Seq<char>)
    ensures
        run_history_kind_parse(run_history_kind_text(value)) == Some(value),
        run_history_kind_parse(text) == Some(value) ==> run_history_kind_text(value) == text,
{
    reveal_strlit("generation");
    assert("generation"@.len() == 10);
    reveal_strlit("director");
    assert("director"@.len() == 8);
    match value {
        RunHistoryKind::Generation => {
            assert(run_history_kind_parse("generation"@) == Some(RunHistoryKind::Generation));
        },
        RunHistoryKind::Director => {
            assert(run_history_kind_parse("director"@) == Some(RunHistoryKind::Director));
        },
    }
}

/// The text that stores `value`.
pub fn run_history_kind_as_str(value: RunHistoryKind) -> (text: &'static str)
    ensures
        text@ == run_history_kind_text(value),
{
    match value {
        RunHistoryKind::Generation => "generation",
        RunHistoryKind::Director => "director",
    }
}

/// Decodes a stored [`RunHistoryKind`]; an unknown text is an error that names it.
pub fn run_history_kind_from_str(value: &str) -> (result: JobResult<RunHistoryKind>)
    ensures
        (match result {
            Ok(parsed) => run_history_kind_parse(value@) == Some(parsed),
            Err(error) => {
                &&& run_history_kind_parse(value@) is None
                &&& error.spec_kind() == JobQueueErrorKind::InvalidState
                &&& error.spec_message() == decode_message("run kind"@, value@)
            },
        }),
{
    if str_eq(value, "generation") {
        Ok(RunHistoryKind::Generation)
    } else if str_eq(value, "director") {
        Ok(RunHistoryKind::Director)
    } else {
        Err(unknown_value_error("run kind", value))
    }
}

/// The text that stores each [`RunHistoryStatus`] value.
pub open spec fn run_history_status_text(value: RunHistoryStatus) -> Seq<char> {
    match value {
        RunHistoryStatus::Queued => "queued"@,
        RunHistoryStatus::Preparing => "preparing"@,
        RunHistoryStatus::Running => "running"@,
        RunHistoryStatus::Waiting => "waiting"@,
        RunHistoryStatus::Paused => "paused"@,
        RunHistoryStatus::Succeeded => "succeeded"@,
        RunHistoryStatus::Failed => "failed"@,
        RunHistoryStatus::Skipped => "skipped"@,
        RunHistoryStatus::Stopped => "stopped"@,
    }
}

/// The [`RunHistoryStatus`] value stored as `text`, if `text` stores one.
pub open spec fn run_history_status_parse(text: Seq<char>) -> Option<RunHistoryStatus> {
    if text == "queued"@ {
        Some(RunHistoryStatus::Queued)
    } else if text == "preparing"@ {
        Some(RunHistoryStatus::Preparing)
    } else if text == "running"@ {
        Some(RunHistoryStatus::Running)
    } else if text == "waiting"@ {
        Some(RunHistoryStatus::Waiting)
    } else if text == "paused"@ {
        Some(RunHistoryStatus::Paused)
    } else if text == "succeeded"@ {
        Some(RunHistoryStatus::Succeeded)
    } else if text == "failed"@ {
        Some(RunHistoryStatus::Failed)
    } else if text == "skipped"@ {
        Some(RunHistoryStatus::Skipped)
    } else if text == "stopped"@ {
        Some(RunHistoryStatus::Stopped)
    } else {
        None
    }
}

/// Decoding the stored text of a [`RunHistoryStatus`] gives the value back, and a text
/// decodes to a value only when it is that value's stored text; so distinct
/// values are stored as distinct texts.
pub proof fn lemma_run_history_status_round_trip(value: RunHistoryStatus, text: Seq<char>)
    ensures
        run_history_status_parse(run_history_status_text(value)) == Some(value),
        run_history_status_parse(text) == Some(value) ==> run_history_status_text(value) == text,
{
    reveal_strlit("queued");
    assert("queued"@.len() == 6);
    reveal_strlit("preparing");
    assert("preparing"@.len() == 9);
    reveal_strlit("running");
    assert("running"@.len() == 7);
    reveal_strlit("waiting");
    assert("waiting"@.len() == 7);
    reveal_strlit("paused");
    assert("paused"@.len() == 6);
    reveal_strlit("succeeded");
    assert("succeeded"@.len() == 9);
    reveal_strlit("failed");
    assert("failed"@.len() == 6);
    reveal_strlit("skipped");
    assert("skipped"@.len() == 7);
    reveal_strlit("stopped");
    assert("stopped"@.len() == 7);
    match value {
        RunHistoryStatus::Queued => {
            assert(run_history_status_parse("queued"@) == Some(RunHistoryStatus::Queued));
        },
        RunHistoryStatus::Preparing => {
            assert(run_history_status_parse("preparing"@) == Some(RunHistoryStatus::Preparing));
        },
        RunHistoryStatus::Running => {
            assert(run_history_status_parse("running"@) == Some(RunHistoryStatus::Running));
        },
        RunHistoryStatus::Waiting => {
            assert("waiting"@[0] != "running"@[0]);
            assert(run_history_status_parse("waiting"@) == Some(RunHistoryStatus::Waiting));
        },
        RunHistoryStatus::Paused => {
            assert("paused"@[0] != "queued"@[0]);
            assert(run_history_status_parse("paused"@) == Some(RunHistoryStatus::Paused));
        },
        RunHistoryStatus::Succeeded => {
            assert("succeeded"@[0] != "preparing"@[0]);
            assert(run_history_status_parse("succeeded"@) == Some(RunHistoryStatus::Succeeded));
        },
        RunHistoryStatus::Failed => {
            assert("failed"@[0] != "queued"@[0]);
            assert("failed"@[0] != "paused"@[0]);
            assert(run_history_status_parse("failed"@) == Some(RunHistoryStatus::Failed));
        },
        RunHistoryStatus::Skipped => {
            assert("skipped"@[0] != "running"@[0]);
            assert("skipped"@[0] != "waiting"@[0]);
            assert(run_history_status_parse("skipped"@) == Some(RunHistoryStatus::Skipped));
        },
        RunHistoryStatus::Stopped => {
            assert("stopped"@[0] != "running"@[0]);
            assert("stopped"@[0] != "waiting"@[0]);
            assert("stopped"@[1] != "skipped"@[1]);
            assert(run_history_status_parse("stopped"@) == Some(RunHistoryStatus::Stopped));
        },
    }
}

/// The text that stores `value`.
pub fn run_history_status_as_str(value: RunHistoryStatus) -> (text: &'static str)
    ensures
        text@ == run_history_status_text(value),
{
    match value {
        RunHistoryStatus::Queued => "queued",
        RunHistoryStatus::Preparing => "preparing",
        RunHistoryStatus::Running => "running",
        RunHistoryStatus::Waiting => "waiting",
        RunHistoryStatus::Paused => "paused",
        RunHistoryStatus::Succeeded => "succeeded",
        RunHistoryStatus::Failed => "failed",
        RunHistoryStatus::Skipped => "skipped",
        RunHistoryStatus::Stopped => "stopped",
    }
}

/// Decodes a stored [`RunHistoryStatus`]; an unknown text is an error that names it.
pub fn run_history_status_from_str(value: &str) -> (result: JobResult<RunHistoryStatus>)
    ensures
        (match result {
            Ok(parsed) => run_history_status_parse(value@) == Some(parsed),
            Err(error) => {
                &&& run_history_status_parse(value@) is None
                &&& error.spec_kind() == JobQueueErrorKind::InvalidState
                &&& error.spec_message() == decode_message("run status"@, value@)
            },
        }),
{
    if str_eq(value, "queued") {
        Ok(RunHistoryStatus::Queued)
    } else if str_eq(value, "preparing") {
        Ok(RunHistoryStatus::Preparing)
    } else if str_eq(value, "running") {
        Ok(RunHistoryStatus::Running)
    } else if str_eq(value, "waiting") {
        Ok(RunHistoryStatus::Waiting)
    } else if str_eq(value, "paused") {
        Ok(RunHistoryStatus::Paused)
    } else if str_eq(value, "succeeded") {
        Ok(RunHistoryStatus::Succeeded)
    } else if str_eq(value, "failed") {
        Ok(RunHistoryStatus::Failed)
    } else if str_eq(value, "skipped") {
        Ok(RunHistoryStatus::Skipped)
    } else if str_eq(value, "stopped") {
        Ok(RunHistoryStatus::Stopped)
    } else {
        Err(unknown_value_error("run status", value))
    }
}


} // verus!
