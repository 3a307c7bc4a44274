//! The stored form of the job queue snapshot.

use vstd::prelude::*;

use crate::codec::resource::clone_opt_string;
use crate::decode::{first_failure, lemma_first_failure_extends, lemma_first_failure_none, lemma_first_failure_step};
use crate::domain::jobs::{
    ActiveJobBatchSnapshot, JobBatch, JobQueueError, JobQueueErrorKind, JobQueueSnapshot, JobRecord, JobResult,
    QueueDelay, RetryPolicy,
};
use crate::error::decode_message;
use crate::job_history::scalars::{
    batch_status_as_str, batch_status_from_str, batch_status_parse, batch_status_text, job_kind_as_str,
    job_kind_from_str, job_kind_parse, job_kind_text, job_status_as_str, job_status_from_str, job_status_parse,
    job_status_text,
};

verus! {

/// Milliseconds as stored: a count beyond `u64::MAX` is stored as
/// `u64::MAX`.
pub open spec fn stored_millis(millis: u128) -> u64 {
    if millis > u64::MAX as u128 {
        u64::MAX
    } else {
        millis as u64
    }
}

/// Stores a duration's whole milliseconds, saturating at `u64::MAX`.
pub fn duration_to_ms(millis: u128) -> (stored: u64)
    ensures
        stored == stored_millis(millis),
{
    if millis > 18446744073709551615u128 {
        18446744073709551615u64
    } else {
        millis as u64
    }
}

/// A failure reading stored queue state, carrying `message`.
pub fn job_store_error(message: String) -> (error: JobQueueError)
    ensures
        error.spec_kind() == JobQueueErrorKind::InvalidState,
        error.spec_message() == message@,
{
    JobQueueError::invalid_state(message)
}

/// `result` is the decoding `expected`: the same value, or an invalid-state
/// error carrying the same message.
pub open spec fn job_result_matches<T>(result: JobResult<T>, expected: Result<T, Seq<char>>) -> bool {
    match (result, expected) {
        (Ok(value), Ok(wanted)) => value == wanted,
        (Err(error), Err(message)) => {
            &&& error.spec_kind() == JobQueueErrorKind::InvalidState
            &&& error.spec_message() == message
        },
        _ => false,
    }
}

/// Stored form of a [`QueueDelay`], in milliseconds.
#[derive(Copy, Clone, Debug)]
pub struct QueueDelayDto {
    pub min_ms: u64,
    pub max_ms: u64,
}

impl QueueDelayDto {
    /// The stored form of `value`.
    pub fn from_domain(value: QueueDelay) -> (dto: Self)
        ensures
            dto.min_ms == stored_millis(value.min_millis),
            dto.max_ms == stored_millis(value.max_millis),
    {
        QueueDelayDto { min_ms: duration_to_ms(value.min_millis), max_ms: duration_to_ms(value.max_millis) }
    }

    /// The delay `self` holds.
    pub open spec fn spec_decode(self) -> QueueDelay {
        QueueDelay { min_millis: self.min_ms as u128, max_millis: self.max_ms as u128 }
    }

    /// The delay `self` holds.
    pub fn into_domain(self) -> (value: QueueDelay)
        ensures
            value == self.spec_decode(),
    {
        QueueDelay { min_millis: self.min_ms as u128, max_millis: self.max_ms as u128 }
    }
}

/// A delay survives storage when both bounds fit in `u64` milliseconds.
pub open spec fn delay_fits(value: QueueDelay) -> bool {
    value.min_millis <= u64::MAX as u128 && value.max_millis <= u64::MAX as u128
}

/// Stored form of a [`RetryPolicy`].
#[derive(Copy, Clone, Debug)]
pub struct RetryPolicyDto {
    pub task_interval: QueueDelayDto,
    pub rate_limit_fallback: QueueDelayDto,
    pub max_rate_limit_retries: u32,
}

impl RetryPolicyDto {
    /// The stored form of `value`.
    pub fn from_domain(value: RetryPolicy) -> (dto: Self)
        ensures
            dto.task_interval.min_ms == stored_millis(value.task_interval.min_millis),
            dto.task_interval.max_ms == stored_millis(value.task_interval.max_millis),
            dto.rate_limit_fallback.min_ms == stored_millis(value.rate_limit_fallback.min_millis),
            dto.rate_limit_fallback.max_ms == stored_millis(value.rate_limit_fallback.max_millis),
            dto.max_rate_limit_retries == value.max_rate_limit_retries,
    {
        RetryPolicyDto {
            task_interval: QueueDelayDto::from_domain(value.task_interval),
            rate_limit_fallback: QueueDelayDto::from_domain(value.rate_limit_fallback),
            max_rate_limit_retries: value.max_rate_limit_retries,
        }
    }

    /// The policy `self` holds.
    pub open spec fn spec_decode(self) -> RetryPolicy {
        RetryPolicy {
            task_interval: self.task_interval.spec_decode(),
            rate_limit_fallback: self.rate_limit_fallback.spec_decode(),
            max_rate_limit_retries: self.max_rate_limit_retries,
        }
    }

    /// The policy `self` holds.
    pub fn into_domain(self) -> (value: RetryPolicy)
        ensures
            value == self.spec_decode(),
    {
        RetryPolicy {
            task_interval: self.task_interval.into_domain(),
            rate_limit_fallback: self.rate_limit_fallback.into_domain(),
            max_rate_limit_retries: self.max_rate_limit_retries,
        }
    }
}

/// Storing a retry policy whose delays fit in `u64` milliseconds and reading
/// it back gives the same policy.
pub proof fn lemma_retry_policy_round_trip(value: RetryPolicy)
    requires
        delay_fits(value.task_interval),
        delay_fits(value.rate_limit_fallback),
    ensures
        (RetryPolicyDto {
            task_interval: QueueDelayDto {
                min_ms: stored_millis(value.task_interval.min_millis),
                max_ms: stored_millis(value.task_interval.max_millis),
            },
            rate_limit_fallback: QueueDelayDto {
                min_ms: stored_millis(value.rate_limit_fallback.min_millis),
                max_ms: stored_millis(value.rate_limit_fallback.max_millis),
            },
            max_rate_limit_retries: value.max_rate_limit_retries,
        }).spec_decode() == value,
{
}

/// Stored form of a [`JobRecord`].
#[derive(Clone, Debug)]
pub struct JobRecordDto {
    pub job_id: String,
    pub kind: String,
    pub payload_ref: String,
    pub prepared_payload_ref: Option<String>,
    pub status: String,
    pub retry_attempts: u32,
}

impl JobRecordDto {
    /// `self` stores exactly `value`.
    pub open spec fn encodes(self, value: JobRecord) -> bool {
        &&& self.job_id == value.job_id
        &&& self.kind@ == job_kind_text(value.kind)
        &&& self.payload_ref == value.payload_ref
        &&& self.prepared_payload_ref == value.prepared_payload_ref
        &&& self.status@ == job_status_text(value.status)
        &&& self.retry_attempts == value.retry_attempts
    }

    /// The job `self` holds, or the message naming its unknown kind or status.
    pub open spec fn spec_decode(self) -> Result<JobRecord, Seq<char>> {
        match job_kind_parse(self.kind@) {
            None => Err(decode_message("job kind"@, self.kind@)),
            Some(kind) => match job_status_parse(self.status@) {
                None => Err(decode_message("job status"@, self.status@)),
                Some(status) => Ok(JobRecord {
                    job_id: self.job_id,
                    kind,
                    payload_ref: self.payload_ref,
                    prepared_payload_ref: self.prepared_payload_ref,
                    status,
                    retry_attempts: self.retry_attempts,
                }),
            },
        }
    }

    /// The stored form of `value`.
    pub fn from_domain(value: &JobRecord) -> (dto: Self)
        ensures
            dto.encodes(*value),
    {
        JobRecordDto {
            job_id: value.job_id.clone(),
            kind: job_kind_as_str(value.kind).to_owned(),
            payload_ref: value.payload_ref.clone(),
            prepared_payload_ref: clone_opt_string(&value.prepared_payload_ref),
            status: job_status_as_str(value.status).to_owned(),
            retry_attempts: value.retry_attempts,
        }
    }

    /// The job `self` holds.
    pub fn into_domain(self) -> (result: JobResult<JobRecord>)
        ensures
            job_result_matches(result, self.spec_decode()),
    {
        let kind = job_kind_from_str(self.kind.as_str())?;
        let status = job_status_from_str(self.status.as_str())?;
        Ok(JobRecord {
            job_id: self.job_id,
            kind,
            payload_ref: self.payload_ref,
            prepared_payload_ref: self.prepared_payload_ref,
            status,
            retry_attempts: self.retry_attempts,
        })
    }
}

/// Decoding a stored job gives back the job that was stored.
pub proof fn lemma_job_record_round_trip(dto: JobRecordDto, value: JobRecord)
    requires
        dto.encodes(value),
    ensures
        dto.spec_decode() == Ok::<JobRecord, Seq<char>>(value),
{
    crate::job_history::scalars::lemma_job_kind_round_trip(value.kind, dto.kind@);
    crate::job_history::scalars::lemma_job_status_round_trip(value.status, dto.status@);
}

/// Why a stored job holds no job, if it holds none.
pub open spec fn job_failure(job: JobRecordDto) -> Option<Seq<char>> {
    match job.spec_decode() {
        Ok(_) => None,
        Err(message) => Some(message),
    }
}

/// Stored form of a [`JobBatch`].
#[derive(Clone, Debug)]
pub struct JobBatchDto {
    pub batch_id: String,
    pub status: String,
    pub jobs: Vec<JobRecordDto>,
}

impl JobBatchDto {
    /// `self` stores exactly `value`.
    pub open spec fn encodes(self, value: JobBatch) -> bool {
        &&& self.batch_id == value.batch_id
        &&& self.status@ == batch_status_text(value.status)
        &&& self.jobs@.len() == value.jobs@.len()
        &&& forall|i: int| 0 <= i < self.jobs@.len() ==> #[trigger] self.jobs@[i].encodes(value.jobs@[i])
    }

    /// Why `self` holds no batch, if it holds none: an unknown status, or the
    /// first job that holds no job.
    pub open spec fn decode_failure(self) -> Option<Seq<char>> {
        if batch_status_parse(self.status@) is None {
            Some(decode_message("batch status"@, self.status@))
        } else {
            first_failure(self.jobs@, |job: JobRecordDto| job_failure(job))
        }
    }

    /// `value` is the batch `self` holds.
    pub open spec fn decodes_to(self, value: JobBatch) -> bool {
        &&& value.batch_id == self.batch_id
        &&& Some(value.status) == batch_status_parse(self.status@)
        &&& value.jobs@.len() == self.jobs@.len()
        &&& forall|i: int| 0 <= i < self.jobs@.len() ==>
            #[trigger] self.jobs@[i].spec_decode() == Ok::<JobRecord, Seq<char>>(value.jobs@[i])
    }

    /// The stored form of `value`.
    pub fn from_domain(value: &JobBatch) -> (dto: Self)
        ensures
            dto.encodes(*value),
    {
        let mut jobs: Vec<JobRecordDto> = Vec::new();
        let mut index: usize = 0;
        while index < value.jobs.len()
            invariant
                index <= value.jobs@.len(),
                jobs@.len() == index,
                forall|i: int| 0 <= i < index ==> #[trigger] jobs@[i].encodes(value.jobs@[i]),
            decreases value.jobs.len() - index,
        {
            jobs.push(JobRecordDto::from_domain(&value.jobs[index]));
            index = index + 1;
        }
        JobBatchDto { batch_id: value.batch_id.clone(), status: batch_status_as_str(value.status).to_owned(), jobs }
    }

    /// The batch `self` holds.
    pub fn into_domain(self) -> (result: JobResult<JobBatch>)
        ensures
            match result {
                Ok(value) => self.decode_failure() is None && self.decodes_to(value),
                Err(error) => {
                    &&& error.spec_kind() == JobQueueErrorKind::InvalidState
                    &&& self.decode_failure() == Some(error.spec_message())
                },
            },
    {
        let ghost original = self;
        let status = batch_status_from_str(self.status.as_str())?;
        let JobBatchDto { batch_id, status: _, jobs } = self;
        let ghost stored = jobs@;
        let ghost failure = |job: JobRecordDto| job_failure(job);
        let mut remaining = jobs;
        let mut decoded: Vec<JobRecord> = Vec::new();
        while remaining.len() > 0
            invariant
                decoded@.len() + remaining@.len() == stored.len(),
                remaining@ == stored.skip(decoded@.len() as int),
                failure == (|job: JobRecordDto| job_failure(job)),
                original == self,
                batch_status_parse(original.status@) is Some,
                stored == original.jobs@,
                first_failure(stored.take(decoded@.len() as int), failure) is None,
                forall|i: int| 0 <= i < decoded@.len() ==>
                    #[trigger] stored[i].spec_decode() == Ok::<JobRecord, Seq<char>>(decoded@[i]),
            decreases remaining.len(),
        {
            let ghost done = decoded@.len() as int;
            let next = remaining.remove(0);
            assert(next == stored[done]);
            proof {
                lemma_first_failure_step(stored, failure, done);
            }
            match next.into_domain() {
                Ok(job) => {
                    decoded.push(job);
                    assert(remaining@ =~= stored.skip(decoded@.len() as int));
                },
                Err(error) => {
                    proof {
                        assert(failure(stored[done]) == Some(error.spec_message()));
                        lemma_first_failure_extends(stored, failure, done + 1);
                    }
                    return Err(error);
                },
            }
        }
        assert(stored.take(decoded@.len() as int) =~= stored);
        Ok(JobBatch { batch_id, status, jobs: decoded })
    }
}

/// Decoding a stored batch gives back the batch that was stored.
pub proof fn lemma_job_batch_round_trip(dto: JobBatchDto, value: JobBatch)
    requires
        dto.encodes(value),
    ensures
        dto.decode_failure() is None,
        dto.decodes_to(value),
{
    crate::job_history::scalars::lemma_batch_status_round_trip(value.status, dto.status@);
    let failure = |job: JobRecordDto| job_failure(job);
    assert forall|i: int| 0 <= i < dto.jobs@.len() implies
        #[trigger] dto.jobs@[i].spec_decode() == Ok::<JobRecord, Seq<char>>(value.jobs@[i]) by {
        lemma_job_record_round_trip(dto.jobs@[i], value.jobs@[i]);
    }
    assert forall|i: int| 0 <= i < dto.jobs@.len() implies #[trigger] failure(dto.jobs@[i]) is None by {
        lemma_job_record_round_trip(dto.jobs@[i], value.jobs@[i]);
    }
    lemma_first_failure_none(dto.jobs@, failure);
}

/// Stored form of an [`ActiveJobBatchSnapshot`].
#[derive(Clone, Debug)]
pub struct ActiveJobBatchSnapshotDto {
    pub batch: JobBatchDto,
    pub current_job: Option<String>,
    pub pending_delay: Option<QueueDelayDto>,
    pub paused_delay: Option<QueueDelayDto>,
    pub pause_after_current: bool,
    pub stop_after_current: bool,
}

/// The delay an optional stored delay holds.
pub open spec fn decode_delay(delay: Option<QueueDelayDto>) -> Option<QueueDelay> {
    match delay {
        Some(dto) => Some(dto.spec_decode()),
        None => None,
    }
}

/// An optional stored delay stores `value`'s whole milliseconds.
pub open spec fn stores_delay(dto: Option<QueueDelayDto>, value: Option<QueueDelay>) -> bool {
    match value {
        Some(delay) => dto matches Some(stored)
            && stored.min_ms == stored_millis(delay.min_millis) && stored.max_ms == stored_millis(delay.max_millis),
        None => dto is None,
    }
}

fn delay_from_domain(value: Option<QueueDelay>) -> (dto: Option<QueueDelayDto>)
    ensures
        stores_delay(dto, value),
{
    match value {
        Some(delay) => Some(QueueDelayDto::from_domain(delay)),
        None => None,
    }
}

impl ActiveJobBatchSnapshotDto {
    /// `self` stores `value`, its delays in whole milliseconds.
    pub open spec fn encodes(self, value: ActiveJobBatchSnapshot) -> bool {
        &&& self.batch.encodes(value.batch)
        &&& self.current_job == value.current_job
        &&& stores_delay(self.pending_delay, value.pending_delay)
        &&& stores_delay(self.paused_delay, value.paused_delay)
        &&& self.pause_after_current == value.pause_after_current
        &&& self.stop_after_current == value.stop_after_current
    }

    /// `value` is the snapshot `self` holds.
    pub open spec fn decodes_to(self, value: ActiveJobBatchSnapshot) -> bool {
        &&& self.batch.decodes_to(value.batch)
        &&& value.current_job == self.current_job
        &&& value.pending_delay == decode_delay(self.pending_delay)
        &&& value.paused_delay == decode_delay(self.paused_delay)
        &&& value.pause_after_current == self.pause_after_current
        &&& value.stop_after_current == self.stop_after_current
    }

    /// The stored form of `value`.
    pub fn from_domain(value: &ActiveJobBatchSnapshot) -> (dto: Self)
        ensures
            dto.encodes(*value),
    {
        ActiveJobBatchSnapshotDto {
            batch: JobBatchDto::from_domain(&value.batch),
            current_job: clone_opt_string(&value.current_job),
            pending_delay: delay_from_domain(value.pending_delay),
            paused_delay: delay_from_domain(value.paused_delay),
            pause_after_current: value.pause_after_current,
            stop_after_current: value.stop_after_current,
        }
    }

    /// The snapshot `self` holds; only its batch can fail to decode.
    pub fn into_domain(self) -> (result: JobResult<ActiveJobBatchSnapshot>)
        ensures
            match result {
                Ok(value) => self.batch.decode_failure() is None && self.decodes_to(value),
                Err(error) => {
                    &&& error.spec_kind() == JobQueueErrorKind::InvalidState
                    &&& self.batch.decode_failure() == Some(error.spec_message())
                },
            },
    {
        let batch = self.batch.into_domain()?;
        Ok(ActiveJobBatchSnapshot {
            batch,
            current_job: self.current_job,
            pending_delay: match self.pending_delay {
                Some(dto) => Some(dto.into_domain()),
                None => None,
            },
            paused_delay: match self.paused_delay {
                Some(dto) => Some(dto.into_domain()),
                None => None,
            },
            pause_after_current: self.pause_after_current,
            stop_after_current: self.stop_after_current,
        })
    }
}

/// Stored form of a [`JobQueueSnapshot`].
#[derive(Clone, Debug)]
pub struct JobQueueSnapshotDto {
    pub active_batch: Option<ActiveJobBatchSnapshotDto>,
    pub retry_policy: RetryPolicyDto,
}

impl JobQueueSnapshotDto {
    /// Why `self` holds no snapshot, if it holds none: its active batch's
    /// failure.
    pub open spec fn decode_failure(self) -> Option<Seq<char>> {
        match self.active_batch {
            Some(active) => active.batch.decode_failure(),
            None => None,
        }
    }

    /// `value` is the snapshot `self` holds.
    pub open spec fn decodes_to(self, value: JobQueueSnapshot) -> bool {
        &&& match self.active_batch {
            Some(active) => value.active_batch matches Some(decoded) && active.decodes_to(decoded),
            None => value.active_batch is None,
        }
        &&& value.retry_policy == self.retry_policy.spec_decode()
    }

    /// `self` stores `value`, its delays in whole milliseconds.
    pub open spec fn encodes(self, value: JobQueueSnapshot) -> bool {
        &&& match value.active_batch {
            Some(active) => self.active_batch matches Some(dto) && dto.encodes(active),
            None => self.active_batch is None,
        }
        &&& self.retry_policy.task_interval.min_ms == stored_millis(value.retry_policy.task_interval.min_millis)
        &&& self.retry_policy.task_interval.max_ms == stored_millis(value.retry_policy.task_interval.max_millis)
        &&& self.retry_policy.rate_limit_fallback.min_ms == stored_millis(value.retry_policy.rate_limit_fallback.min_millis)
        &&& self.retry_policy.rate_limit_fallback.max_ms == stored_millis(value.retry_policy.rate_limit_fallback.max_millis)
        &&& self.retry_policy.max_rate_limit_retries == value.retry_policy.max_rate_limit_retries
    }

    /// The stored form of `value`.
    pub fn from_domain(value: &JobQueueSnapshot) -> (dto: Self)
        ensures
            dto.encodes(*value),
    {
        JobQueueSnapshotDto {
            active_batch: match &value.active_batch {
                Some(active) => Some(ActiveJobBatchSnapshotDto::from_domain(active)),
                None => None,
            },
            retry_policy: RetryPolicyDto::from_domain(value.retry_policy),
        }
    }

    /// The snapshot `self` holds.
    pub fn into_domain(self) -> (result: JobResult<JobQueueSnapshot>)
        ensures
            match result {
                Ok(value) => self.decode_failure() is None && self.decodes_to(value),
                Err(error) => {
                    &&& error.spec_kind() == JobQueueErrorKind::InvalidState
                    &&& self.decode_failure() == Some(error.spec_message())
                },
            },
    {
        let active_batch = match self.active_batch {
            Some(active) => Some(active.into_domain()?),
            None => None,
        };
        Ok(JobQueueSnapshot { active_batch, retry_policy: self.retry_policy.into_domain() })
    }
}

/// A stored queue snapshot reads back as the snapshot that was stored, when
/// its delays fit in `u64` milliseconds.
pub proof fn lemma_job_queue_snapshot_round_trip(dto: JobQueueSnapshotDto, value: JobQueueSnapshot)
    requires
        dto.encodes(value),
        delay_fits(value.retry_policy.task_interval),
        delay_fits(value.retry_policy.rate_limit_fallback),
        value.active_batch matches Some(active) ==> {
            &&& active.pending_delay matches Some(delay) ==> delay_fits(delay)
            &&& active.paused_delay matches Some(delay) ==> delay_fits(delay)
        },
    ensures
        dto.decode_failure() is None,
        dto.decodes_to(value),
{
    if let Some(active) = value.active_batch {
        let stored = dto.active_batch->0;
        lemma_job_batch_round_trip(stored.batch, active.batch);
    }
}

} // verus!
