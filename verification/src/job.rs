//! The Job entity: the unit of dispatch work paired one-to-one with a
//! Message, owning the per-attempt timeout and the retry budget.
//!
//! Lifecycle: `Assigned -> Dispatched -> InProgress -> {Completed | Failed |
//! Timeout | Cancelled}`; `Failed` and `Timeout` may return to `Assigned`
//! through `increment_retry` while the budget of `MAX_JOB_RETRIES` attempts
//! is not exhausted, resetting the deadline and clearing the error.

use vstd::prelude::*;

use crate::util::{generate_id, valid_time};

verus! {

/// Fixed per-attempt execution deadline, reset on each retry: ten minutes.
pub const JOB_TIMEOUT_MS: u64 = 600_000;

/// How many times a failed or timed-out job may return to `Assigned`.
pub const MAX_JOB_RETRIES: u32 = 3;

#[derive(Debug, Clone, Copy, PartialEq, Eq, Structural)]
pub enum JobStatus {
    Assigned,
    Dispatched,
    InProgress,
    Completed,
    Failed,
    Timeout,
    Cancelled,
}

#[derive(Debug, Clone)]
pub struct Job {
    pub id: String,
    pub message_id: String,
    pub provider_id: String,
    pub status: JobStatus,
    pub assigned_at: u64,
    pub started_at: Option<u64>,
    pub completed_at: Option<u64>,
    pub timeout_at: u64,
    pub retry_count: u32,
    pub error_message: Option<String>,
    pub fcm_message_id: Option<String>,
}

impl Job {
    /// Structural invariant: the retry budget is never overspent, timestamps
    /// are in range, and the deadline is always the assignment time plus the
    /// fixed duration.
    pub open spec fn wf(&self) -> bool {
        &&& self.retry_count <= MAX_JOB_RETRIES
        &&& valid_time(self.assigned_at)
        &&& self.timeout_at == self.assigned_at + JOB_TIMEOUT_MS
    }

    /// A job that still owns work: assigned, dispatched, or in progress.
    pub open spec fn spec_is_active(&self) -> bool {
        self.status is Assigned || self.status is Dispatched || self.status is InProgress
    }

    /// A retry is allowed only from a failed or timed-out state, and only
    /// while the budget is not exhausted.
    pub open spec fn spec_can_retry(&self) -> bool {
        (self.status is Failed || self.status is Timeout) && self.retry_count < MAX_JOB_RETRIES
    }

    /// Creates a fresh job for a message, assigned now, with the full retry
    /// budget and a deadline ten minutes out.
    pub fn new(message_id: String, provider_id: String, now: u64) -> (j: Job)
        requires
            valid_time(now),
        ensures
            j.wf(),
            j.id@.len() == 36,
            j.message_id == message_id,
            j.provider_id == provider_id,
            j.status is Assigned,
            j.assigned_at == now,
            j.started_at is None,
            j.completed_at is None,
            j.timeout_at == now + JOB_TIMEOUT_MS,
            j.retry_count == 0,
            j.error_message is None,
            j.fcm_message_id is None,
    {
        Job {
            id: generate_id(),
            message_id,
            provider_id,
            status: JobStatus::Assigned,
            assigned_at: now,
            started_at: None,
            completed_at: None,
            timeout_at: now + JOB_TIMEOUT_MS,
            retry_count: 0,
            error_message: None,
            fcm_message_id: None,
        }
    }

    /// An exact copy; queue entries are snapshots of the job at enqueue time.
    pub fn snapshot(&self) -> (r: Job)
        ensures
            r == *self,
    {
        Job {
            id: self.id.clone(),
            message_id: self.message_id.clone(),
            provider_id: self.provider_id.clone(),
            status: self.status,
            assigned_at: self.assigned_at,
            started_at: self.started_at,
            completed_at: self.completed_at,
            timeout_at: self.timeout_at,
            retry_count: self.retry_count,
            error_message: self.error_message.clone(),
            fcm_message_id: self.fcm_message_id.clone(),
        }
    }

    /// The transport accepted the request: record its handle.
    pub fn mark_dispatched(&mut self, fcm_message_id: String)
        ensures
            *final(self) == (Job {
                status: JobStatus::Dispatched,
                fcm_message_id: Some(fcm_message_id),
                ..*old(self)
            }),
    {
        self.status = JobStatus::Dispatched;
        self.fcm_message_id = Some(fcm_message_id);
    }

    /// The provider's device confirmed that transmission is underway.
    pub fn mark_in_progress(&mut self, now: u64)
        ensures
            *final(self) == (Job {
                status: JobStatus::InProgress,
                started_at: Some(now),
                ..*old(self)
            }),
    {
        self.status = JobStatus::InProgress;
        self.started_at = Some(now);
    }

    /// Terminal success of the dispatch attempt.
    pub fn mark_completed(&mut self, now: u64)
        ensures
            *final(self) == (Job {
                status: JobStatus::Completed,
                completed_at: Some(now),
                ..*old(self)
            }),
    {
        self.status = JobStatus::Completed;
        self.completed_at = Some(now);
    }

    /// Terminal failure of the dispatch attempt, with its cause.
    pub fn mark_failed(&mut self, error_message: String, now: u64)
        ensures
            *final(self) == (Job {
                status: JobStatus::Failed,
                error_message: Some(error_message),
                completed_at: Some(now),
                ..*old(self)
            }),
    {
        self.status = JobStatus::Failed;
        self.error_message = Some(error_message);
        self.completed_at = Some(now);
    }

    /// The deadline passed while the job was still active; recorded by the
    /// sweep with a fixed cause.
    pub fn mark_timeout(&mut self, now: u64)
        ensures
            *final(self) == (Job {
                status: JobStatus::Timeout,
                error_message: final(self).error_message,
                completed_at: Some(now),
                ..*old(self)
            }),
            final(self).error_message matches Some(m) && m@ == "Job execution timeout"@,
    {
        self.status = JobStatus::Timeout;
        self.error_message = Some(String::from_str("Job execution timeout"));
        self.completed_at = Some(now);
    }

    /// Whether the per-attempt deadline has passed.
    pub fn is_expired(&self, now: u64) -> (r: bool)
        ensures
            r == (now > self.timeout_at),
    {
        now > self.timeout_at
    }

    /// Whether the job still owns work.
    pub fn is_active(&self) -> (r: bool)
        ensures
            r == self.spec_is_active(),
    {
        matches!(self.status, JobStatus::Assigned | JobStatus::Dispatched | JobStatus::InProgress)
    }

    /// Whether the job may be handed back to the queue.
    pub fn can_retry(&self) -> (r: bool)
        ensures
            r == self.spec_can_retry(),
    {
        matches!(self.status, JobStatus::Failed | JobStatus::Timeout)
            && self.retry_count < MAX_JOB_RETRIES
    }

    /// Spends one retry: back to `Assigned` with the error cleared and the
    /// deadline reset to ten minutes from now.
    pub fn increment_retry(&mut self, now: u64)
        requires
            old(self).spec_can_retry(),
            valid_time(now),
        ensures
            *final(self) == (Job {
                status: JobStatus::Assigned,
                assigned_at: now,
                timeout_at: (now + JOB_TIMEOUT_MS) as u64,
                retry_count: (old(self).retry_count + 1) as u32,
                error_message: None,
                ..*old(self)
            }),
            old(self).wf() ==> final(self).wf(),
    {
        self.retry_count = self.retry_count + 1;
        self.status = JobStatus::Assigned;
        self.error_message = None;
        self.assigned_at = now;
        self.timeout_at = now + JOB_TIMEOUT_MS;
    }
}

/// A job whose retry budget is exhausted can never return to `Assigned`:
/// once `retry_count` reaches the budget, `spec_can_retry` is false in every
/// status, so `increment_retry` is not admissible.
pub proof fn lemma_retry_budget_exhausted(j: Job)
    requires
        j.retry_count >= MAX_JOB_RETRIES,
    ensures
        !j.spec_can_retry(),
{
}

} // verus!
