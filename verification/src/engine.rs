//! The dispatch engine: the orchestrator that accepts submissions, pulls
//! work from the priority queue, matches it to providers, records transport
//! outcomes, schedules retries, and sweeps expired work.
//!
//! The engine owns the authoritative Message, Job and Provider records and
//! the work queue. Everything that needs the outside world — the wall clock,
//! the push transport, persistence — is handed in as plain values: callers
//! pass the current time to every method, perform the transport send that a
//! `SendRequested` outcome asks for, and report the result back through
//! `complete_dispatch`. Deferred retries sit in a delayed set until
//! `release_due_retries` moves the due ones onto the lowest queue level.

use vstd::prelude::*;
use vstd::pervasive::VecAdditionalExecFns;

use crate::errors::PeerPowerError;
use crate::job::{Job, JobStatus, MAX_JOB_RETRIES};
use crate::matching::{find_available_provider, spec_has_any_match, spec_has_carrier_match, spec_matchable};
use crate::message::{
    spec_content_valid, validate_content_str, DeliveryOutcome, Message, MessagePriority,
    spec_priority_level,
};
use crate::provider::{Location, Provider};
use crate::queue::{spec_dequeue_level, spec_enqueue, JobQueue, QUEUE_LEVELS};
use crate::retry::{backoff_delay_seconds, spec_backoff_delay_seconds, RETRY_QUEUE_LEVEL};
use crate::types::{MessageStatus, PhoneNumber, ProviderStatus};
use crate::util::{valid_time, MAX_TIMESTAMP_MS};

verus! {

/// A retry waiting out its backoff delay: the job snapshot re-enters the
/// queue at the lowest level once `due_at` passes.
#[derive(Debug)]
pub struct DelayedRetry {
    pub job: Job,
    pub due_at: u64,
}

/// The dispatch engine and its authoritative records.
#[derive(Debug)]
pub struct DispatchEngine {
    pub messages: Vec<Message>,
    pub jobs: Vec<Job>,
    pub providers: Vec<Provider>,
    pub queue: JobQueue,
    pub delayed: Vec<DelayedRetry>,
}

/// The first index holding a message with this identifier, if any.
pub open spec fn spec_message_at(ms: Seq<Message>, id: Seq<char>, i: int) -> bool {
    &&& 0 <= i < ms.len()
    &&& ms[i].id@ == id
    &&& forall|k: int| 0 <= k < i ==> ms[k].id@ != id
}

/// Some message carries this identifier.
pub open spec fn spec_has_message(ms: Seq<Message>, id: Seq<char>) -> bool {
    exists|k: int| 0 <= k < ms.len() && ms[k].id@ == id
}

/// The first index holding a job with this identifier, if any.
pub open spec fn spec_job_at(js: Seq<Job>, id: Seq<char>, i: int) -> bool {
    &&& 0 <= i < js.len()
    &&& js[i].id@ == id
    &&& forall|k: int| 0 <= k < i ==> js[k].id@ != id
}

/// Some job carries this identifier.
pub open spec fn spec_has_job(js: Seq<Job>, id: Seq<char>) -> bool {
    exists|k: int| 0 <= k < js.len() && js[k].id@ == id
}

/// The first index holding a job for this message, if any.
pub open spec fn spec_job_for_message_at(js: Seq<Job>, message_id: Seq<char>, i: int) -> bool {
    &&& 0 <= i < js.len()
    &&& js[i].message_id@ == message_id
    &&& forall|k: int| 0 <= k < i ==> js[k].message_id@ != message_id
}

/// Some job belongs to this message.
pub open spec fn spec_has_job_for_message(js: Seq<Job>, message_id: Seq<char>) -> bool {
    exists|k: int| 0 <= k < js.len() && js[k].message_id@ == message_id
}

/// The first index holding a provider with this identifier, if any.
pub open spec fn spec_provider_at(ps: Seq<Provider>, id: Seq<char>, i: int) -> bool {
    &&& 0 <= i < ps.len()
    &&& ps[i].id@ == id
    &&& forall|k: int| 0 <= k < i ==> ps[k].id@ != id
}

/// Some provider carries this identifier.
pub open spec fn spec_has_provider(ps: Seq<Provider>, id: Seq<char>) -> bool {
    exists|k: int| 0 <= k < ps.len() && ps[k].id@ == id
}

/// Some provider is registered for this user under this phone number.
pub open spec fn spec_has_provider_for_phone(
    ps: Seq<Provider>,
    phone: Seq<char>,
    user_id: Seq<char>,
) -> bool {
    exists|k: int|
        0 <= k < ps.len() && ps[k].phone@ == phone && ps[k].user_id@ == user_id
}

impl DispatchEngine {
    /// Structural invariant: the queue has its levels and every record meets
    /// its own invariant.
    pub open spec fn wf(&self) -> bool {
        &&& self.queue.wf()
        &&& forall|i: int| 0 <= i < self.messages@.len() ==> (#[trigger] self.messages@[i]).wf()
        &&& forall|i: int| 0 <= i < self.jobs@.len() ==> (#[trigger] self.jobs@[i]).wf()
        &&& forall|i: int| 0 <= i < self.providers@.len() ==> (#[trigger] self.providers@[i]).wf()
        &&& forall|i: int|
            0 <= i < self.delayed@.len() ==> (#[trigger] self.delayed@[i]).job.wf()
                && self.delayed@[i].due_at <= MAX_TIMESTAMP_MS + 64_000
    }

    /// An engine with no records and an empty queue.
    pub fn new() -> (e: DispatchEngine)
        ensures
            e.wf(),
            e.messages@.len() == 0,
            e.jobs@.len() == 0,
            e.providers@.len() == 0,
            e.delayed@.len() == 0,
            spec_dequeue_level(e.queue@) is None,
            crate::queue::spec_queue_size(e.queue@) == 0,
    {
        DispatchEngine {
            messages: Vec::new(),
            jobs: Vec::new(),
            providers: Vec::new(),
            queue: JobQueue::new(),
            delayed: Vec::new(),
        }
    }

    /// The first stored message with this identifier.
    fn find_message(&self, id: &str) -> (r: Option<usize>)
        ensures
            match r {
                Some(i) => spec_message_at(self.messages@, id@, i as int),
                None => !spec_has_message(self.messages@, id@),
            },
    {
        let n = self.messages.len();
        let mut i: usize = 0;
        while i < n
            invariant
                0 <= i <= n,
                n == self.messages@.len(),
                forall|k: int| 0 <= k < i ==> self.messages@[k].id@ != id@,
            decreases n - i,
        {
            if crate::text::str_eq(self.messages[i].id.as_str(), id) {
                return Some(i);
            }
            i += 1;
        }
        None
    }

    /// The first stored job with this identifier.
    fn find_job(&self, id: &str) -> (r: Option<usize>)
        ensures
            match r {
                Some(i) => spec_job_at(self.jobs@, id@, i as int),
                None => !spec_has_job(self.jobs@, id@),
            },
    {
        let n = self.jobs.len();
        let mut i: usize = 0;
        while i < n
            invariant
                0 <= i <= n,
                n == self.jobs@.len(),
                forall|k: int| 0 <= k < i ==> self.jobs@[k].id@ != id@,
            decreases n - i,
        {
            if crate::text::str_eq(self.jobs[i].id.as_str(), id) {
                return Some(i);
            }
            i += 1;
        }
        None
    }

    /// The first stored job paired with this message.
    fn find_job_for_message(&self, message_id: &str) -> (r: Option<usize>)
        ensures
            match r {
                Some(i) => spec_job_for_message_at(self.jobs@, message_id@, i as int),
                None => !spec_has_job_for_message(self.jobs@, message_id@),
            },
    {
        let n = self.jobs.len();
        let mut i: usize = 0;
        while i < n
            invariant
                0 <= i <= n,
                n == self.jobs@.len(),
                forall|k: int| 0 <= k < i ==> self.jobs@[k].message_id@ != message_id@,
            decreases n - i,
        {
            if crate::text::str_eq(self.jobs[i].message_id.as_str(), message_id) {
                return Some(i);
            }
            i += 1;
        }
        None
    }

    /// The first stored provider with this identifier.
    fn find_provider(&self, id: &str) -> (r: Option<usize>)
        ensures
            match r {
                Some(i) => spec_provider_at(self.providers@, id@, i as int),
                None => !spec_has_provider(self.providers@, id@),
            },
    {
        let n = self.providers.len();
        let mut i: usize = 0;
        while i < n
            invariant
                0 <= i <= n,
                n == self.providers@.len(),
                forall|k: int| 0 <= k < i ==> self.providers@[k].id@ != id@,
            decreases n - i,
        {
            if crate::text::str_eq(self.providers[i].id.as_str(), id) {
                return Some(i);
            }
            i += 1;
        }
        None
    }

    /// Accepts a message for delivery: validates the body, stores the
    /// message and its paired job, and enqueues the job at its priority
    /// level. Returns the message and job identifiers. An invalid body is
    /// rejected here and never enters the queue.
    pub fn submit(
        &mut self,
        client_id: String,
        content: String,
        recipient: PhoneNumber,
        priority: MessagePriority,
        now: u64,
    ) -> (r: Result<(String, String), PeerPowerError>)
        requires
            old(self).wf(),
            valid_time(now),
        ensures
            final(self).wf(),
            match r {
                Err(e) => {
                    &&& !spec_content_valid(content@)
                    &&& e matches PeerPowerError::ValidationError { field, .. } && field@
                        == "content"@
                    &&& *final(self) == *old(self)
                },
                Ok((mid, jid)) => {
                    &&& spec_content_valid(content@)
                    &&& final(self).messages@.len() == old(self).messages@.len() + 1
                    &&& final(self).jobs@.len() == old(self).jobs@.len() + 1
                    &&& {
                        let m = final(self).messages@.last();
                        let j = final(self).jobs@.last();
                        &&& final(self).messages@.drop_last() == old(self).messages@
                        &&& final(self).jobs@.drop_last() == old(self).jobs@
                        &&& m.id@ == mid@
                        &&& j.id@ == jid@
                        &&& j.message_id@ == mid@
                        &&& m.client_id == client_id
                        &&& m.content == content
                        &&& m.recipient == recipient
                        &&& m.priority == priority
                        &&& m.status is Pending
                        &&& m.created_at == now
                        &&& m.expires_at == Some(
                            (now + crate::message::MESSAGE_EXPIRY_MS) as u64,
                        )
                        &&& j.status is Assigned
                        &&& j.retry_count == 0
                        &&& j.provider_id@ == "pending-assignment"@
                        &&& final(self).queue@ == spec_enqueue(
                            old(self).queue@,
                            j,
                            spec_priority_level(priority),
                        )
                    }
                    &&& final(self).providers@ == old(self).providers@
                    &&& final(self).delayed@ == old(self).delayed@
                },
            },
    {
        if let Err(m) = validate_content_str(content.as_str()) {
            return Err(PeerPowerError::ValidationError {
                field: String::from_str("content"),
                message: m,
            });
        }
        let message = Message::new(client_id, content, recipient, priority, None, None, now);
        let message_id = message.id.clone();
        let job = Job::new(message_id.clone(), String::from_str("pending-assignment"), now);
        let job_id = job.id.clone();
        let level = priority.level();
        let snapshot = job.snapshot();
        self.messages.push(message);
        self.jobs.push(job);
        self.queue.enqueue(snapshot, level);
        proof {
            assert(self.messages@.drop_last() =~= old(self).messages@);
            assert(self.jobs@.drop_last() =~= old(self).jobs@);
        }
        Ok((message_id, job_id))
    }
}

/// What became of a failed job: re-queued after a backoff delay, or the
/// budget was exhausted and the message failed terminally.
#[derive(Debug, Clone, Copy, PartialEq, Eq, Structural)]
pub enum RetryDisposition {
    Scheduled { delay_seconds: u64 },
    Exhausted,
}

/// What one dequeue-and-process cycle did, and what the caller must do next.
#[derive(Debug)]
pub enum TickOutcome {
    /// The queue was empty; nothing happened.
    Idle,
    /// The queued snapshot refers to a job or message that no longer exists;
    /// the entry was dropped without retry.
    Dropped { job_id: String },
    /// The authoritative message is no longer actionable (already sent,
    /// delivered, failed or cancelled); the stale entry was dropped.
    Stale { job_id: String },
    /// The message outlived its absolute expiry: it was failed terminally
    /// and its job closed; it was never offered to a provider.
    Expired { message_id: String },
    /// No provider was available; the unchanged job waits out a backoff
    /// delay and then re-enters the lowest queue level. Provider scarcity
    /// does not consume the retry budget.
    NoProvider { job_id: String, delay_seconds: u64 },
    /// A provider was chosen but carries no push token, so no send was
    /// attempted: the job failed and was routed to retry.
    NoToken { job_id: String, disposition: RetryDisposition },
    /// A provider was chosen and charged with the work: the caller must now
    /// send the push request and report the result to `complete_dispatch`.
    SendRequested {
        job_id: String,
        message_id: String,
        provider_id: String,
        fcm_token: String,
        recipient: String,
        content: String,
        priority: MessagePriority,
    },
}

/// The queue after its next dequeue; meaningful when it is non-empty.
pub open spec fn spec_popped(q: crate::queue::QueueModel) -> crate::queue::QueueModel {
    let l = spec_dequeue_level(q)->Some_0;
    q.update(l, q[l].drop_first())
}

impl DispatchEngine {
    /// Routes a job that just failed or timed out: spends a retry and
    /// schedules the delayed re-enqueue when the budget allows, else fails
    /// the paired message terminally. The backoff delay is computed from the
    /// count of attempts already made.
    fn retry_or_fail(&mut self, ji: usize, mi: usize, now: u64) -> (r: RetryDisposition)
        requires
            old(self).wf(),
            valid_time(now),
            ji < old(self).jobs@.len(),
            mi < old(self).messages@.len(),
            old(self).jobs@[ji as int].status is Failed || old(self).jobs@[ji as int].status
                is Timeout,
        ensures
            final(self).wf(),
            final(self).providers@ == old(self).providers@,
            final(self).queue@ == old(self).queue@,
            match r {
                RetryDisposition::Scheduled { delay_seconds } => {
                    &&& old(self).jobs@[ji as int].retry_count < MAX_JOB_RETRIES
                    &&& delay_seconds == spec_backoff_delay_seconds(
                        old(self).jobs@[ji as int].retry_count,
                    )
                    &&& final(self).messages@ == old(self).messages@
                    &&& final(self).jobs@ == old(self).jobs@.update(
                        ji as int,
                        final(self).jobs@[ji as int],
                    )
                    &&& final(self).jobs@[ji as int] == (Job {
                        status: JobStatus::Assigned,
                        assigned_at: now,
                        timeout_at: (now + crate::job::JOB_TIMEOUT_MS) as u64,
                        retry_count: (old(self).jobs@[ji as int].retry_count + 1) as u32,
                        error_message: None,
                        ..old(self).jobs@[ji as int]
                    })
                    &&& final(self).delayed@.len() == old(self).delayed@.len() + 1
                    &&& final(self).delayed@.drop_last() == old(self).delayed@
                    &&& final(self).delayed@.last().job == final(self).jobs@[ji as int]
                    &&& final(self).delayed@.last().due_at == now + delay_seconds * 1000
                },
                RetryDisposition::Exhausted => {
                    &&& old(self).jobs@[ji as int].retry_count >= MAX_JOB_RETRIES
                    &&& final(self).jobs@ == old(self).jobs@
                    &&& final(self).delayed@ == old(self).delayed@
                    &&& final(self).messages@ == old(self).messages@.update(
                        mi as int,
                        final(self).messages@[mi as int],
                    )
                    &&& final(self).messages@[mi as int] == (Message {
                        status: MessageStatus::Failed,
                        delivery_report: final(self).messages@[mi as int].delivery_report,
                        updated_at: now,
                        ..old(self).messages@[mi as int]
                    })
                    &&& final(self).messages@[mi as int].delivery_report matches Some(rep)
                        && rep.error_message matches Some(e) && e@ == "Retry budget exhausted"@
                },
            },
    {
        if self.jobs[ji].can_retry() {
            let delay = backoff_delay_seconds(self.jobs[ji].retry_count);
            let jref = vstd::std_specs::vec::vec_index_mut(&mut self.jobs, ji);
            jref.increment_retry(now);
            let snap = jref.snapshot();
            self.delayed.push(DelayedRetry { job: snap, due_at: now + delay * 1000 });
            proof {
                assert(self.delayed@.drop_last() =~= old(self).delayed@);
            }
            RetryDisposition::Scheduled { delay_seconds: delay }
        } else {
            let mref = vstd::std_specs::vec::vec_index_mut(&mut self.messages, mi);
            mref.mark_failed(String::from_str("Retry budget exhausted"), now);
            RetryDisposition::Exhausted
        }
    }

    /// One dequeue-and-process cycle: pop the head of the highest non-empty
    /// level, re-read the authoritative records it points at, check the
    /// message's lifetime, match a provider, charge it with the work, and
    /// hand the send back to the caller. An expired message is failed
    /// terminally and is never offered to a provider; when no provider is
    /// available the unchanged job is re-queued after a backoff delay.
    pub fn dispatch_tick(&mut self, now: u64) -> (r: TickOutcome)
        requires
            old(self).wf(),
            valid_time(now),
        ensures
            final(self).wf(),
            match r {
                TickOutcome::Idle => {
                    &&& spec_dequeue_level(old(self).queue@) is None
                    &&& *final(self) == *old(self)
                },
                _ => {
                    &&& spec_dequeue_level(old(self).queue@) is Some
                    &&& final(self).queue@ == spec_popped(old(self).queue@)
                },
            },
            ({
                let l = spec_dequeue_level(old(self).queue@)->Some_0;
                let snap = old(self).queue@[l][0];
                match r {
                    TickOutcome::Idle => true,
                    TickOutcome::Dropped { job_id } => {
                        &&& job_id@ == snap.id@
                        &&& (!spec_has_job(old(self).jobs@, snap.id@) || exists|ji: int|
                            spec_job_at(old(self).jobs@, snap.id@, ji) && !spec_has_message(
                                old(self).messages@,
                                old(self).jobs@[ji].message_id@,
                            ))
                        &&& final(self).messages@ == old(self).messages@
                        &&& final(self).jobs@ == old(self).jobs@
                        &&& final(self).providers@ == old(self).providers@
                        &&& final(self).delayed@ == old(self).delayed@
                    },
                    TickOutcome::Stale { job_id } => {
                        &&& job_id@ == snap.id@
                        &&& exists|ji: int, mi: int|
                            {
                                &&& spec_job_at(old(self).jobs@, snap.id@, ji)
                                &&& spec_message_at(
                                    old(self).messages@,
                                    old(self).jobs@[ji].message_id@,
                                    mi,
                                )
                                &&& !old(self).messages@[mi].spec_is_expired(now)
                                &&& !old(self).messages@[mi].spec_is_deliverable(now)
                            }
                        &&& final(self).messages@ == old(self).messages@
                        &&& final(self).jobs@ == old(self).jobs@
                        &&& final(self).providers@ == old(self).providers@
                        &&& final(self).delayed@ == old(self).delayed@
                    },
                    TickOutcome::Expired { message_id } => exists|ji: int, mi: int|
                        {
                            &&& spec_job_at(old(self).jobs@, snap.id@, ji)
                            &&& spec_message_at(
                                old(self).messages@,
                                old(self).jobs@[ji].message_id@,
                                mi,
                            )
                            &&& old(self).messages@[mi].spec_is_expired(now)
                            &&& message_id@ == old(self).messages@[mi].id@
                            &&& final(self).messages@ == old(self).messages@.update(
                                mi,
                                final(self).messages@[mi],
                            )
                            &&& final(self).messages@[mi].status is Failed
                            &&& final(self).messages@[mi] == (Message {
                                status: MessageStatus::Failed,
                                delivery_report: final(self).messages@[mi].delivery_report,
                                updated_at: now,
                                ..old(self).messages@[mi]
                            })
                            &&& final(self).jobs@ == old(self).jobs@.update(
                                ji,
                                final(self).jobs@[ji],
                            )
                            &&& final(self).jobs@[ji] == (Job {
                                status: JobStatus::Failed,
                                error_message: final(self).jobs@[ji].error_message,
                                completed_at: Some(now),
                                ..old(self).jobs@[ji]
                            })
                            &&& final(self).jobs@[ji].error_message matches Some(je) && je@
                                == "Message expired"@
                            &&& final(self).messages@[mi].delivery_report matches Some(rep)
                                && rep.error_message matches Some(me) && me@
                                == "Message expired"@
                            &&& final(self).providers@ == old(self).providers@
                            &&& final(self).delayed@ == old(self).delayed@
                        },
                    TickOutcome::NoProvider { job_id, delay_seconds } => {
                        &&& job_id@ == snap.id@
                        &&& !spec_has_any_match(old(self).providers@)
                        &&& exists|ji: int, mi: int|
                            {
                                &&& spec_job_at(old(self).jobs@, snap.id@, ji)
                                &&& spec_message_at(
                                    old(self).messages@,
                                    old(self).jobs@[ji].message_id@,
                                    mi,
                                )
                                &&& old(self).messages@[mi].spec_is_deliverable(now)
                                &&& delay_seconds == spec_backoff_delay_seconds(
                                    old(self).jobs@[ji].retry_count,
                                )
                                &&& final(self).delayed@.len() == old(self).delayed@.len() + 1
                                &&& final(self).delayed@.drop_last() == old(self).delayed@
                                &&& final(self).delayed@.last().job == old(self).jobs@[ji]
                                &&& final(self).delayed@.last().due_at == now + delay_seconds
                                    * 1000
                            }
                        &&& final(self).messages@ == old(self).messages@
                        &&& final(self).jobs@ == old(self).jobs@
                        &&& final(self).providers@ == old(self).providers@
                    },
                    TickOutcome::NoToken { job_id, disposition } => {
                        &&& job_id@ == snap.id@
                        &&& final(self).providers@ == old(self).providers@
                        &&& exists|ji: int, mi: int, pi: int|
                            {
                                &&& spec_job_at(old(self).jobs@, snap.id@, ji)
                                &&& spec_message_at(
                                    old(self).messages@,
                                    old(self).jobs@[ji].message_id@,
                                    mi,
                                )
                                &&& old(self).messages@[mi].spec_is_deliverable(now)
                                &&& 0 <= pi < old(self).providers@.len()
                                &&& spec_matchable(old(self).providers@[pi])
                                &&& old(self).providers@[pi].fcm_token is None
                                &&& if spec_has_carrier_match(
                                    old(self).providers@,
                                    old(self).messages@[mi].recipient_carrier,
                                ) {
                                    &&& old(self).providers@[pi].carrier == old(
                                        self,
                                    ).messages@[mi].recipient_carrier
                                    &&& forall|k: int|
                                        0 <= k < pi ==> !(spec_matchable(
                                            #[trigger] old(self).providers@[k],
                                        ) && old(self).providers@[k].carrier == old(
                                            self,
                                        ).messages@[mi].recipient_carrier)
                                } else {
                                    forall|k: int|
                                        0 <= k < pi ==> !spec_matchable(
                                            #[trigger] old(self).providers@[k],
                                        )
                                }
                                &&& final(self).jobs@ == old(self).jobs@.update(
                                    ji,
                                    final(self).jobs@[ji],
                                )
                                &&& match disposition {
                                    RetryDisposition::Scheduled { delay_seconds } => {
                                        &&& old(self).jobs@[ji].retry_count < MAX_JOB_RETRIES
                                        &&& delay_seconds == spec_backoff_delay_seconds(
                                            old(self).jobs@[ji].retry_count,
                                        )
                                        &&& final(self).jobs@[ji] == (Job {
                                            status: JobStatus::Assigned,
                                            assigned_at: now,
                                            timeout_at: (now
                                                + crate::job::JOB_TIMEOUT_MS) as u64,
                                            retry_count: (old(self).jobs@[ji].retry_count
                                                + 1) as u32,
                                            error_message: None,
                                            completed_at: Some(now),
                                            ..old(self).jobs@[ji]
                                        })
                                        &&& final(self).delayed@.len() == old(
                                            self,
                                        ).delayed@.len() + 1
                                        &&& final(self).delayed@.drop_last() == old(
                                            self,
                                        ).delayed@
                                        &&& final(self).delayed@.last().job == final(self).jobs@[ji]
                                        &&& final(self).delayed@.last().due_at == now
                                            + delay_seconds * 1000
                                        &&& final(self).messages@ == old(self).messages@
                                    },
                                    RetryDisposition::Exhausted => {
                                        &&& old(self).jobs@[ji].retry_count >= MAX_JOB_RETRIES
                                        &&& final(self).jobs@[ji] == (Job {
                                            status: JobStatus::Failed,
                                            error_message: final(self).jobs@[ji].error_message,
                                            completed_at: Some(now),
                                            ..old(self).jobs@[ji]
                                        })
                                        &&& final(self).jobs@[ji].error_message matches Some(m)
                                            && m@ == "Provider has no FCM token"@
                                        &&& final(self).delayed@ == old(self).delayed@
                                        &&& final(self).messages@ == old(
                                            self,
                                        ).messages@.update(mi, final(self).messages@[mi])
                                        &&& final(self).messages@[mi] == (Message {
                                            status: MessageStatus::Failed,
                                            delivery_report: final(self).messages@[mi].delivery_report,
                                            updated_at: now,
                                            ..old(self).messages@[mi]
                                        })
                                    },
                                }
                            }
                    },
                    TickOutcome::SendRequested {
                        job_id,
                        message_id,
                        provider_id,
                        fcm_token,
                        recipient,
                        content,
                        priority,
                    } => {
                        &&& job_id@ == snap.id@
                        &&& exists|ji: int, mi: int, pi: int|
                            {
                                &&& spec_job_at(old(self).jobs@, snap.id@, ji)
                                &&& spec_message_at(
                                    old(self).messages@,
                                    old(self).jobs@[ji].message_id@,
                                    mi,
                                )
                                &&& old(self).messages@[mi].spec_is_deliverable(now)
                                &&& 0 <= pi < old(self).providers@.len()
                                &&& spec_matchable(old(self).providers@[pi])
                                &&& if spec_has_carrier_match(
                                    old(self).providers@,
                                    old(self).messages@[mi].recipient_carrier,
                                ) {
                                    &&& old(self).providers@[pi].carrier == old(
                                        self,
                                    ).messages@[mi].recipient_carrier
                                    &&& forall|k: int|
                                        0 <= k < pi ==> !(spec_matchable(
                                            #[trigger] old(self).providers@[k],
                                        ) && old(self).providers@[k].carrier == old(
                                            self,
                                        ).messages@[mi].recipient_carrier)
                                } else {
                                    forall|k: int|
                                        0 <= k < pi ==> !spec_matchable(
                                            #[trigger] old(self).providers@[k],
                                        )
                                }
                                &&& old(self).providers@[pi].fcm_token matches Some(t) && t@
                                    == fcm_token@
                                &&& provider_id@ == old(self).providers@[pi].id@
                                &&& message_id@ == old(self).messages@[mi].id@
                                &&& recipient@ == old(self).messages@[mi].recipient@
                                &&& content@ == old(self).messages@[mi].content@
                                &&& priority == old(self).messages@[mi].priority
                                &&& final(self).providers@ == old(self).providers@.update(
                                    pi,
                                    (Provider {
                                        current_load: (old(self).providers@[pi].current_load
                                            + 1) as u32,
                                        updated_at: now,
                                        ..old(self).providers@[pi]
                                    }),
                                )
                                &&& final(self).messages@ == old(self).messages@.update(
                                    mi,
                                    final(self).messages@[mi],
                                )
                                &&& final(self).messages@[mi] == (Message {
                                    provider_id: Some(final(self).messages@[mi].provider_id->0),
                                    status: MessageStatus::Assigned,
                                    updated_at: now,
                                    ..old(self).messages@[mi]
                                })
                                &&& final(self).messages@[mi].provider_id matches Some(p) && p@
                                    == provider_id@
                                &&& final(self).jobs@ == old(self).jobs@.update(
                                    ji,
                                    final(self).jobs@[ji],
                                )
                                &&& final(self).jobs@[ji] == (Job {
                                    provider_id: final(self).jobs@[ji].provider_id,
                                    ..old(self).jobs@[ji]
                                })
                                &&& final(self).jobs@[ji].provider_id@ == provider_id@
                                &&& final(self).delayed@ == old(self).delayed@
                            }
                    },
                }
            }),
    {
        let snap = match self.queue.dequeue() {
            None => {
                return TickOutcome::Idle;
            },
            Some(s) => s,
        };
        let ji = match self.find_job(snap.id.as_str()) {
            None => {
                return TickOutcome::Dropped { job_id: snap.id };
            },
            Some(ji) => ji,
        };
        let mi = match self.find_message(self.jobs[ji].message_id.as_str()) {
            None => {
                return TickOutcome::Dropped { job_id: snap.id };
            },
            Some(mi) => mi,
        };
        if self.messages[mi].is_expired(now) {
            let message_id = self.messages[mi].id.clone();
            let mref = vstd::std_specs::vec::vec_index_mut(&mut self.messages, mi);
            mref.mark_failed(String::from_str("Message expired"), now);
            let jref = vstd::std_specs::vec::vec_index_mut(&mut self.jobs, ji);
            jref.mark_failed(String::from_str("Message expired"), now);
            return TickOutcome::Expired { message_id };
        }
        if !self.messages[mi].is_deliverable(now) {
            return TickOutcome::Stale { job_id: snap.id };
        }
        match find_available_provider(&self.providers, self.messages[mi].recipient_carrier) {
            None => {
                let delay = backoff_delay_seconds(self.jobs[ji].retry_count);
                let jsnap = self.jobs[ji].snapshot();
                self.delayed.push(DelayedRetry { job: jsnap, due_at: now + delay * 1000 });
                proof {
                    assert(self.delayed@.drop_last() =~= old(self).delayed@);
                }
                TickOutcome::NoProvider { job_id: snap.id, delay_seconds: delay }
            },
            Some(pi) => {
                let token_opt = self.providers[pi].fcm_token.clone();
                match token_opt {
                    None => {
                        let jref = vstd::std_specs::vec::vec_index_mut(&mut self.jobs, ji);
                        jref.mark_failed(String::from_str("Provider has no FCM token"), now);
                        let disposition = self.retry_or_fail(ji, mi, now);
                        TickOutcome::NoToken { job_id: snap.id, disposition }
                    },
                    Some(token) => {
                        let provider_id = self.providers[pi].id.clone();
                        let message_id = self.messages[mi].id.clone();
                        let recipient = String::from_str(self.messages[mi].recipient.as_str());
                        let content = self.messages[mi].content.clone();
                        let priority = self.messages[mi].priority;
                        let pref = vstd::std_specs::vec::vec_index_mut(&mut self.providers, pi);
                        pref.increment_load(now);
                        let mref = vstd::std_specs::vec::vec_index_mut(&mut self.messages, mi);
                        mref.assign_to_provider(provider_id.clone(), now);
                        let jref = vstd::std_specs::vec::vec_index_mut(&mut self.jobs, ji);
                        jref.provider_id = provider_id.clone();
                        TickOutcome::SendRequested {
                            job_id: snap.id,
                            message_id,
                            provider_id,
                            fcm_token: token,
                            recipient,
                            content,
                            priority,
                        }
                    },
                }
            },
        }
    }
}

/// What `complete_dispatch` decided after the transport reported.
#[derive(Debug, Clone, Copy, PartialEq, Eq, Structural)]
pub enum CompleteOutcome {
    /// The transport accepted the request: job `Dispatched`, message `Sent`.
    Sent,
    /// The send failed and the budget allows another attempt after a delay.
    RetryScheduled { delay_seconds: u64 },
    /// The send failed and the budget is exhausted: the message failed
    /// terminally.
    FailedTerminal,
}

impl DispatchEngine {
    /// Records the transport's verdict on a send that `dispatch_tick` asked
    /// for. On acknowledgment the job turns `Dispatched` with the transport
    /// handle, the message turns `Sent`, and the provider's sent counters
    /// move. On failure the job turns `Failed` with the error text, the
    /// provider sheds the load, and the job is routed to retry: re-queued
    /// after a backoff delay while the budget lasts, else the message fails
    /// terminally.
    pub fn complete_dispatch(
        &mut self,
        job_id: &str,
        transport: Result<String, String>,
        now: u64,
    ) -> (r: Result<CompleteOutcome, PeerPowerError>)
        requires
            old(self).wf(),
            valid_time(now),
        ensures
            final(self).wf(),
            final(self).queue@ == old(self).queue@,
            match r {
                Err(e) => {
                    &&& e matches PeerPowerError::NotFound { .. }
                    &&& *final(self) == *old(self)
                    &&& (!spec_has_job(old(self).jobs@, job_id@) || exists|ji: int|
                        spec_job_at(old(self).jobs@, job_id@, ji) && !spec_has_message(
                            old(self).messages@,
                            old(self).jobs@[ji].message_id@,
                        ))
                },
                Ok(outcome) => exists|ji: int, mi: int|
                    {
                        &&& spec_job_at(old(self).jobs@, job_id@, ji)
                        &&& spec_message_at(
                            old(self).messages@,
                            old(self).jobs@[ji].message_id@,
                            mi,
                        )
                        &&& match outcome {
                            CompleteOutcome::Sent => {
                                &&& transport is Ok
                                &&& final(self).jobs@ == old(self).jobs@.update(
                                    ji,
                                    final(self).jobs@[ji],
                                )
                                &&& final(self).jobs@[ji] == (Job {
                                    status: JobStatus::Dispatched,
                                    fcm_message_id: final(self).jobs@[ji].fcm_message_id,
                                    ..old(self).jobs@[ji]
                                })
                                &&& final(self).jobs@[ji].fcm_message_id matches Some(h) && h@
                                    == transport->Ok_0@
                                &&& final(self).messages@ == old(self).messages@.update(
                                    mi,
                                    (Message {
                                        status: MessageStatus::Sent,
                                        updated_at: now,
                                        ..old(self).messages@[mi]
                                    }),
                                )
                                &&& final(self).delayed@ == old(self).delayed@
                                &&& spec_providers_sent_recorded(
                                    old(self).providers@,
                                    final(self).providers@,
                                    old(self).jobs@[ji].provider_id@,
                                    now,
                                )
                            },
                            CompleteOutcome::RetryScheduled { delay_seconds } => {
                                &&& transport is Err
                                &&& old(self).jobs@[ji].retry_count < MAX_JOB_RETRIES
                                &&& delay_seconds == spec_backoff_delay_seconds(
                                    old(self).jobs@[ji].retry_count,
                                )
                                &&& final(self).jobs@ == old(self).jobs@.update(
                                    ji,
                                    final(self).jobs@[ji],
                                )
                                &&& final(self).jobs@[ji] == (Job {
                                    status: JobStatus::Assigned,
                                    assigned_at: now,
                                    timeout_at: (now + crate::job::JOB_TIMEOUT_MS) as u64,
                                    retry_count: (old(self).jobs@[ji].retry_count + 1) as u32,
                                    error_message: None,
                                    completed_at: Some(now),
                                    ..old(self).jobs@[ji]
                                })
                                &&& final(self).messages@ == old(self).messages@
                                &&& final(self).delayed@.len() == old(self).delayed@.len() + 1
                                &&& final(self).delayed@.drop_last() == old(self).delayed@
                                &&& final(self).delayed@.last().job == final(self).jobs@[ji]
                                &&& final(self).delayed@.last().due_at == now + delay_seconds
                                    * 1000
                                &&& spec_providers_load_shed(
                                    old(self).providers@,
                                    final(self).providers@,
                                    old(self).jobs@[ji].provider_id@,
                                    now,
                                )
                            },
                            CompleteOutcome::FailedTerminal => {
                                &&& transport is Err
                                &&& old(self).jobs@[ji].retry_count >= MAX_JOB_RETRIES
                                &&& final(self).jobs@ == old(self).jobs@.update(
                                    ji,
                                    final(self).jobs@[ji],
                                )
                                &&& final(self).jobs@[ji] == (Job {
                                    status: JobStatus::Failed,
                                    error_message: final(self).jobs@[ji].error_message,
                                    completed_at: Some(now),
                                    ..old(self).jobs@[ji]
                                })
                                &&& final(self).jobs@[ji].error_message matches Some(m) && m@
                                    == transport->Err_0@
                                &&& final(self).messages@ == old(self).messages@.update(
                                    mi,
                                    final(self).messages@[mi],
                                )
                                &&& final(self).messages@[mi] == (Message {
                                    status: MessageStatus::Failed,
                                    delivery_report: final(self).messages@[mi].delivery_report,
                                    updated_at: now,
                                    ..old(self).messages@[mi]
                                })
                                &&& final(self).delayed@ == old(self).delayed@
                                &&& spec_providers_load_shed(
                                    old(self).providers@,
                                    final(self).providers@,
                                    old(self).jobs@[ji].provider_id@,
                                    now,
                                )
                            },
                        }
                    },
            },
    {
        let ji = match self.find_job(job_id) {
            None => {
                let mut resource = String::from_str("Job: ");
                resource.append(job_id);
                return Err(PeerPowerError::NotFound { resource });
            },
            Some(ji) => ji,
        };
        let mi = match self.find_message(self.jobs[ji].message_id.as_str()) {
            None => {
                let mut resource = String::from_str("Message for job: ");
                resource.append(job_id);
                return Err(PeerPowerError::NotFound { resource });
            },
            Some(mi) => mi,
        };
        let provider_id = self.jobs[ji].provider_id.clone();
        match transport {
            Ok(fcm_message_id) => {
                let jref = vstd::std_specs::vec::vec_index_mut(&mut self.jobs, ji);
                jref.mark_dispatched(fcm_message_id);
                let mref = vstd::std_specs::vec::vec_index_mut(&mut self.messages, mi);
                mref.mark_sent(now);
                if let Some(pi) = self.find_provider(provider_id.as_str()) {
                    let pref = vstd::std_specs::vec::vec_index_mut(&mut self.providers, pi);
                    pref.record_message_sent(now);
                }
                Ok(CompleteOutcome::Sent)
            },
            Err(error_text) => {
                let jref = vstd::std_specs::vec::vec_index_mut(&mut self.jobs, ji);
                jref.mark_failed(error_text, now);
                if let Some(pi) = self.find_provider(provider_id.as_str()) {
                    let pref = vstd::std_specs::vec::vec_index_mut(&mut self.providers, pi);
                    pref.decrement_load(now);
                }
                match self.retry_or_fail(ji, mi, now) {
                    RetryDisposition::Scheduled { delay_seconds } => Ok(
                        CompleteOutcome::RetryScheduled { delay_seconds },
                    ),
                    RetryDisposition::Exhausted => Ok(CompleteOutcome::FailedTerminal),
                }
            },
        }
    }
}

/// Terminal-failed work older than this is purged by the sweep: one day.
pub const RETENTION_MS: u64 = 86_400_000;

/// A delayed retry whose backoff has elapsed.
pub open spec fn spec_retry_due(d: DelayedRetry, now: u64) -> bool {
    d.due_at <= now
}

/// An active job whose per-attempt deadline has passed.
pub open spec fn spec_job_timed_out(j: Job, now: u64) -> bool {
    j.spec_is_active() && now > j.timeout_at
}

/// `j1` is `j0` as the sweep leaves a timed-out job: `Timeout`, with the
/// fixed cause recorded, closed at `now`.
pub open spec fn spec_timed_out_version(j0: Job, j1: Job, now: u64) -> bool {
    &&& j1 == (Job {
        status: JobStatus::Timeout,
        error_message: j1.error_message,
        completed_at: Some(now),
        ..j0
    })
    &&& j1.error_message matches Some(m) && m@ == "Job execution timeout"@
}

/// How the timeout pass of the sweep relates each stored job to its
/// successor: timed-out jobs are closed, the rest are untouched.
pub open spec fn spec_sweep_job_rel(j0: Job, j1: Job, now: u64) -> bool {
    if spec_job_timed_out(j0, now) {
        spec_timed_out_version(j0, j1, now)
    } else {
        j1 == j0
    }
}

/// A terminal-failed job past the retention window.
pub open spec fn spec_job_purgeable(j: Job, now: u64) -> bool {
    (j.status is Failed || j.status is Timeout) && now > j.assigned_at + RETENTION_MS
}

/// A terminal-failed message past the retention window.
pub open spec fn spec_message_purgeable(m: Message, now: u64) -> bool {
    m.status is Failed && now > m.created_at + RETENTION_MS
}

/// What one sweep pass did.
#[derive(Debug, Clone, Copy, PartialEq, Eq, Structural)]
pub struct SweepStats {
    pub timed_out: usize,
    pub purged_jobs: usize,
    pub purged_messages: usize,
}

/// The jobs of the due entries, in order.
pub open spec fn spec_due_retry_jobs(s: Seq<DelayedRetry>, now: u64) -> Seq<Job>
    decreases s.len(),
{
    if s.len() == 0 {
        Seq::empty()
    } else {
        let rest = spec_due_retry_jobs(s.drop_last(), now);
        if spec_retry_due(s.last(), now) {
            rest.push(s.last().job)
        } else {
            rest
        }
    }
}

/// The entries still waiting out their delay, in order.
pub open spec fn spec_pending_retries(s: Seq<DelayedRetry>, now: u64) -> Seq<DelayedRetry>
    decreases s.len(),
{
    if s.len() == 0 {
        Seq::empty()
    } else {
        let rest = spec_pending_retries(s.drop_last(), now);
        if spec_retry_due(s.last(), now) {
            rest
        } else {
            rest.push(s.last())
        }
    }
}

/// The jobs that outlive the purge, in order.
pub open spec fn spec_surviving_jobs(s: Seq<Job>, now: u64) -> Seq<Job>
    decreases s.len(),
{
    if s.len() == 0 {
        Seq::empty()
    } else {
        let rest = spec_surviving_jobs(s.drop_last(), now);
        if spec_job_purgeable(s.last(), now) {
            rest
        } else {
            rest.push(s.last())
        }
    }
}

/// The messages that outlive the purge, in order.
pub open spec fn spec_surviving_messages(s: Seq<Message>, now: u64) -> Seq<Message>
    decreases s.len(),
{
    if s.len() == 0 {
        Seq::empty()
    } else {
        let rest = spec_surviving_messages(s.drop_last(), now);
        if spec_message_purgeable(s.last(), now) {
            rest
        } else {
            rest.push(s.last())
        }
    }
}

/// How many jobs the timeout pass closes.
pub open spec fn spec_timed_out_count(s: Seq<Job>, now: u64) -> int
    decreases s.len(),
{
    if s.len() == 0 {
        0
    } else {
        spec_timed_out_count(s.drop_last(), now) + if spec_job_timed_out(s.last(), now) {
            1int
        } else {
            0int
        }
    }
}

impl DispatchEngine {
    /// Moves every delayed retry whose backoff has elapsed onto the lowest
    /// queue level, in order; later retries keep waiting. Returns how many
    /// were released.
    pub fn release_due_retries(&mut self, now: u64) -> (released: usize)
        requires
            old(self).wf(),
        ensures
            final(self).wf(),
            final(self).messages@ == old(self).messages@,
            final(self).jobs@ == old(self).jobs@,
            final(self).providers@ == old(self).providers@,
            final(self).delayed@ == spec_pending_retries(old(self).delayed@, now),
            final(self).queue@[RETRY_QUEUE_LEVEL as int] == old(
                self,
            ).queue@[RETRY_QUEUE_LEVEL as int] + spec_due_retry_jobs(old(self).delayed@, now),
            forall|i: int|
                0 <= i < QUEUE_LEVELS && i != RETRY_QUEUE_LEVEL ==> final(self).queue@[i] == old(
                    self,
                ).queue@[i],
            released == spec_due_retry_jobs(old(self).delayed@, now).len(),
    {
        let ghost orig = old(self).delayed@;
        let mut kept: Vec<DelayedRetry> = Vec::new();
        let mut released: usize = 0;
        let ghost mut k: int = 0;
        let n0 = self.delayed.len();
        proof {
            assert(orig.len() == n0);
            assert(orig.skip(0) =~= orig);
            assert(orig.take(0) =~= Seq::<DelayedRetry>::empty());
            assert(self.queue@[RETRY_QUEUE_LEVEL as int] + spec_due_retry_jobs(orig.take(0), now)
                =~= self.queue@[RETRY_QUEUE_LEVEL as int]);
        }
        while self.delayed.len() > 0
            invariant
                0 <= k <= orig.len(),
                orig.len() <= usize::MAX,
                self.delayed@ == orig.skip(k),
                kept@ == spec_pending_retries(orig.take(k), now),
                self.queue.wf(),
                self.queue@[RETRY_QUEUE_LEVEL as int] == old(self).queue@[RETRY_QUEUE_LEVEL as int]
                    + spec_due_retry_jobs(orig.take(k), now),
                forall|i: int|
                    0 <= i < QUEUE_LEVELS && i != RETRY_QUEUE_LEVEL ==> self.queue@[i] == old(
                        self,
                    ).queue@[i],
                released == spec_due_retry_jobs(orig.take(k), now).len(),
                released <= k,
                forall|l: int|
                    0 <= l < kept@.len() ==> (#[trigger] kept@[l]).job.wf() && kept@[l].due_at
                        <= MAX_TIMESTAMP_MS + 64_000,
                self.messages@ == old(self).messages@,
                self.jobs@ == old(self).jobs@,
                self.providers@ == old(self).providers@,
                forall|i: int| 0 <= i < orig.len() ==> (#[trigger] orig[i]).job.wf() && orig[i].due_at
                    <= MAX_TIMESTAMP_MS + 64_000,
                forall|i: int| 0 <= i < self.messages@.len() ==> (#[trigger] self.messages@[i]).wf(),
                forall|i: int| 0 <= i < self.jobs@.len() ==> (#[trigger] self.jobs@[i]).wf(),
                forall|i: int| 0 <= i < self.providers@.len() ==> (#[trigger] self.providers@[i]).wf(),
            decreases self.delayed@.len(),
        {
            let d = self.delayed.remove(0);
            proof {
                assert(orig.skip(k)[0] == orig[k]);
                assert(d == orig[k]);
                assert(self.delayed@ =~= orig.skip(k + 1));
                assert(orig.take(k + 1).drop_last() =~= orig.take(k));
                assert(orig.take(k + 1).last() == orig[k]);
            }
            if d.due_at <= now {
                self.queue.enqueue(d.job, RETRY_QUEUE_LEVEL);
                released += 1;
                proof {
                    assert(self.queue@[RETRY_QUEUE_LEVEL as int] =~= old(
                        self,
                    ).queue@[RETRY_QUEUE_LEVEL as int] + spec_due_retry_jobs(
                        orig.take(k + 1),
                        now,
                    ));
                }
            } else {
                kept.push(d);
            }
            proof {
                k = k + 1;
            }
        }
        proof {
            assert(orig.take(orig.len() as int) =~= orig);
        }
        self.delayed = kept;
        released
    }

    /// The expiry sweep: closes every active job whose deadline has passed
    /// as `Timeout`, then purges terminal-failed jobs and messages older
    /// than the retention window. Active, unexpired work is never touched.
    pub fn sweep(&mut self, now: u64) -> (stats: SweepStats)
        requires
            old(self).wf(),
        ensures
            final(self).wf(),
            final(self).providers@ == old(self).providers@,
            final(self).queue@ == old(self).queue@,
            final(self).delayed@ == old(self).delayed@,
            exists|mid: Seq<Job>|
                #![trigger mid.len()]
                {
                    &&& mid.len() == old(self).jobs@.len()
                    &&& (forall|i: int|
                        0 <= i < mid.len() ==> spec_sweep_job_rel(
                            old(self).jobs@[i],
                            #[trigger] mid[i],
                            now,
                        ))
                    &&& final(self).jobs@ == spec_surviving_jobs(mid, now)
                    &&& stats.purged_jobs == mid.len() - final(self).jobs@.len()
                },
            final(self).messages@ == spec_surviving_messages(old(self).messages@, now),
            stats.timed_out == spec_timed_out_count(old(self).jobs@, now),
            stats.purged_messages == old(self).messages@.len() - final(self).messages@.len(),
    {
        let ghost jobs0 = old(self).jobs@;
        let mut timed_out: usize = 0;
        let n = self.jobs.len();
        let mut i: usize = 0;
        proof {
            assert(jobs0.take(0) =~= Seq::<Job>::empty());
        }
        while i < n
            invariant
                0 <= i <= n,
                n == jobs0.len(),
                self.jobs@.len() == n,
                self.messages@ == old(self).messages@,
                self.providers@ == old(self).providers@,
                self.queue == old(self).queue,
                self.delayed@ == old(self).delayed@,
                forall|l: int| 0 <= l < i ==> spec_sweep_job_rel(jobs0[l], #[trigger] self.jobs@[l], now),
                forall|l: int| i <= l < n ==> self.jobs@[l] == jobs0[l],
                timed_out == spec_timed_out_count(jobs0.take(i as int), now),
                timed_out <= i,
                forall|l: int| 0 <= l < self.jobs@.len() ==> (#[trigger] self.jobs@[l]).wf(),
                forall|l: int| 0 <= l < self.messages@.len() ==> (#[trigger] self.messages@[l]).wf(),
                forall|l: int| 0 <= l < self.providers@.len() ==> (#[trigger] self.providers@[l]).wf(),
                self.queue.wf(),
                forall|l: int|
                    0 <= l < self.delayed@.len() ==> (#[trigger] self.delayed@[l]).job.wf()
                        && self.delayed@[l].due_at <= MAX_TIMESTAMP_MS + 64_000,
            decreases n - i,
        {
            proof {
                assert(jobs0.take(i as int + 1).drop_last() =~= jobs0.take(i as int));
                assert(jobs0.take(i as int + 1).last() == jobs0[i as int]);
            }
            let active = self.jobs[i].is_active();
            let expired = self.jobs[i].is_expired(now);
            if active && expired {
                let jref = vstd::std_specs::vec::vec_index_mut(&mut self.jobs, i);
                jref.mark_timeout(now);
                timed_out += 1;
            }
            i += 1;
        }
        proof {
            assert(jobs0.take(n as int) =~= jobs0);
        }
        let ghost mid = self.jobs@;
        let mut kept_jobs: Vec<Job> = Vec::new();
        let mut purged_jobs: usize = 0;
        let ghost mut k: int = 0;
        let n1 = self.jobs.len();
        proof {
            assert(mid.len() == n1);
            assert(mid.skip(0) =~= mid);
            assert(mid.take(0) =~= Seq::<Job>::empty());
        }
        while self.jobs.len() > 0
            invariant
                0 <= k <= mid.len(),
                mid.len() <= usize::MAX,
                self.jobs@ == mid.skip(k),
                kept_jobs@ == spec_surviving_jobs(mid.take(k), now),
                purged_jobs == k - kept_jobs@.len(),
                0 <= purged_jobs <= k,
                self.messages@ == old(self).messages@,
                self.providers@ == old(self).providers@,
                self.queue == old(self).queue,
                self.delayed@ == old(self).delayed@,
                forall|l: int| 0 <= l < mid.len() ==> (#[trigger] mid[l]).wf(),
                forall|l: int| 0 <= l < kept_jobs@.len() ==> (#[trigger] kept_jobs@[l]).wf(),
                forall|l: int| 0 <= l < self.messages@.len() ==> (#[trigger] self.messages@[l]).wf(),
                forall|l: int| 0 <= l < self.providers@.len() ==> (#[trigger] self.providers@[l]).wf(),
                self.queue.wf(),
                forall|l: int|
                    0 <= l < self.delayed@.len() ==> (#[trigger] self.delayed@[l]).job.wf()
                        && self.delayed@[l].due_at <= MAX_TIMESTAMP_MS + 64_000,
            decreases self.jobs@.len(),
        {
            let j = self.jobs.remove(0);
            proof {
                assert(mid.skip(k)[0] == mid[k]);
                assert(j == mid[k]);
                assert(self.jobs@ =~= mid.skip(k + 1));
                assert(mid.take(k + 1).drop_last() =~= mid.take(k));
                assert(mid.take(k + 1).last() == mid[k]);
            }
            let terminal_failed = matches!(j.status, JobStatus::Failed | JobStatus::Timeout);
            if terminal_failed && now > j.assigned_at + RETENTION_MS {
                purged_jobs += 1;
            } else {
                kept_jobs.push(j);
            }
            proof {
                k = k + 1;
            }
        }
        proof {
            assert(mid.take(mid.len() as int) =~= mid);
        }
        self.jobs = kept_jobs;
        let ghost msgs0 = old(self).messages@;
        let mut kept_messages: Vec<Message> = Vec::new();
        let mut purged_messages: usize = 0;
        let ghost mut km: int = 0;
        let n2 = self.messages.len();
        proof {
            assert(msgs0.len() == n2);
            assert(msgs0.skip(0) =~= msgs0);
            assert(msgs0.take(0) =~= Seq::<Message>::empty());
        }
        while self.messages.len() > 0
            invariant
                0 <= km <= msgs0.len(),
                msgs0.len() <= usize::MAX,
                self.messages@ == msgs0.skip(km),
                kept_messages@ == spec_surviving_messages(msgs0.take(km), now),
                purged_messages == km - kept_messages@.len(),
                0 <= purged_messages <= km,
                self.providers@ == old(self).providers@,
                self.queue == old(self).queue,
                self.delayed@ == old(self).delayed@,
                forall|l: int| 0 <= l < msgs0.len() ==> (#[trigger] msgs0[l]).wf(),
                forall|l: int|
                    0 <= l < kept_messages@.len() ==> (#[trigger] kept_messages@[l]).wf(),
                forall|l: int| 0 <= l < self.jobs@.len() ==> (#[trigger] self.jobs@[l]).wf(),
                forall|l: int| 0 <= l < self.providers@.len() ==> (#[trigger] self.providers@[l]).wf(),
                self.queue.wf(),
                forall|l: int|
                    0 <= l < self.delayed@.len() ==> (#[trigger] self.delayed@[l]).job.wf()
                        && self.delayed@[l].due_at <= MAX_TIMESTAMP_MS + 64_000,
                self.jobs@ == spec_surviving_jobs(mid, now),
            decreases self.messages@.len(),
        {
            let m = self.messages.remove(0);
            proof {
                assert(msgs0.skip(km)[0] == msgs0[km]);
                assert(m == msgs0[km]);
                assert(self.messages@ =~= msgs0.skip(km + 1));
                assert(msgs0.take(km + 1).drop_last() =~= msgs0.take(km));
                assert(msgs0.take(km + 1).last() == msgs0[km]);
            }
            let failed = matches!(m.status, MessageStatus::Failed);
            if failed && now > m.created_at + RETENTION_MS {
                purged_messages += 1;
            } else {
                kept_messages.push(m);
            }
            proof {
                km = km + 1;
            }
        }
        proof {
            assert(msgs0.take(msgs0.len() as int) =~= msgs0);
        }
        self.messages = kept_messages;
        SweepStats { timed_out, purged_jobs, purged_messages }
    }
}

/// The job pool after the first job for this message, if present, was
/// closed as completed at `now`; everything else unchanged.
pub open spec fn spec_jobs_completed(
    old_js: Seq<Job>,
    new_js: Seq<Job>,
    message_id: Seq<char>,
    now: u64,
) -> bool {
    if spec_has_job_for_message(old_js, message_id) {
        exists|ji: int|
            {
                &&& spec_job_for_message_at(old_js, message_id, ji)
                &&& new_js == old_js.update(
                    ji,
                    (Job {
                        status: JobStatus::Completed,
                        completed_at: Some(now),
                        ..old_js[ji]
                    }),
                )
            }
    } else {
        new_js == old_js
    }
}

/// The job pool after the first job for this message, if present, was
/// failed with this cause at `now`; everything else unchanged.
pub open spec fn spec_jobs_failed(
    old_js: Seq<Job>,
    new_js: Seq<Job>,
    message_id: Seq<char>,
    error: Seq<char>,
    now: u64,
) -> bool {
    if spec_has_job_for_message(old_js, message_id) {
        exists|ji: int|
            {
                &&& spec_job_for_message_at(old_js, message_id, ji)
                &&& new_js == old_js.update(
                    ji,
                    (Job {
                        status: JobStatus::Failed,
                        error_message: new_js[ji].error_message,
                        completed_at: Some(now),
                        ..old_js[ji]
                    }),
                )
                &&& new_js[ji].error_message matches Some(m) && m@ == error
            }
    } else {
        new_js == old_js
    }
}

/// The provider pool after the provider with this identifier, if present,
/// recorded one confirmed delivery: delivered counter and earnings bumped
/// (saturating), the success rate refreshed, and one unit of load shed.
pub open spec fn spec_providers_delivery_recorded(
    old_ps: Seq<Provider>,
    new_ps: Seq<Provider>,
    id: Seq<char>,
    reward_micro: u64,
    now: u64,
) -> bool {
    if spec_has_provider(old_ps, id) {
        exists|pi: int|
            {
                &&& spec_provider_at(old_ps, id, pi)
                &&& new_ps == old_ps.update(
                    pi,
                    (Provider {
                        total_messages_delivered: crate::provider::spec_sat_inc_u64(
                            old_ps[pi].total_messages_delivered,
                        ),
                        earnings_total_micro: crate::provider::spec_sat_add_u64(
                            old_ps[pi].earnings_total_micro,
                            reward_micro,
                        ),
                        success_rate: new_ps[pi].success_rate,
                        current_load: if old_ps[pi].current_load > 0 {
                            (old_ps[pi].current_load - 1) as u32
                        } else {
                            0u32
                        },
                        updated_at: now,
                        ..old_ps[pi]
                    }),
                )
                &&& new_ps[pi].success_rate == if old_ps[pi].total_messages_sent > 0 {
                    crate::provider::spec_success_rate(
                        crate::provider::spec_sat_inc_u64(old_ps[pi].total_messages_delivered),
                        old_ps[pi].total_messages_sent,
                    )
                } else {
                    old_ps[pi].success_rate
                }
            }
    } else {
        new_ps == old_ps
    }
}

/// The provider pool after the provider with this identifier, if present,
/// recorded one failed delivery: the success rate refreshed and one unit of
/// load shed.
pub open spec fn spec_providers_failure_recorded(
    old_ps: Seq<Provider>,
    new_ps: Seq<Provider>,
    id: Seq<char>,
    now: u64,
) -> bool {
    if spec_has_provider(old_ps, id) {
        exists|pi: int|
            {
                &&& spec_provider_at(old_ps, id, pi)
                &&& new_ps == old_ps.update(
                    pi,
                    (Provider {
                        success_rate: new_ps[pi].success_rate,
                        current_load: if old_ps[pi].current_load > 0 {
                            (old_ps[pi].current_load - 1) as u32
                        } else {
                            0u32
                        },
                        updated_at: now,
                        ..old_ps[pi]
                    }),
                )
                &&& new_ps[pi].success_rate == if old_ps[pi].total_messages_sent > 0 {
                    crate::provider::spec_success_rate(
                        old_ps[pi].total_messages_delivered,
                        old_ps[pi].total_messages_sent,
                    )
                } else {
                    old_ps[pi].success_rate
                }
            }
    } else {
        new_ps == old_ps
    }
}

/// The combined Message and Job view that `status` reports to clients.
#[derive(Debug)]
pub struct MessageStatusResponse {
    pub message_id: String,
    pub job_id: String,
    pub status: String,
    pub provider_id: Option<String>,
    pub created_at: u64,
    pub updated_at: u64,
    pub delivery_attempts: u32,
    pub last_error: Option<String>,
}

impl DispatchEngine {
    /// The current view of a message and its paired job.
    pub fn status(&self, message_id: &str) -> (r: Option<MessageStatusResponse>)
        ensures
            match r {
                None => !spec_has_message(self.messages@, message_id@) || exists|mi: int|
                    spec_message_at(self.messages@, message_id@, mi) && !spec_has_job_for_message(
                        self.jobs@,
                        self.messages@[mi].id@,
                    ),
                Some(resp) => exists|mi: int, ji: int|
                    {
                        &&& spec_message_at(self.messages@, message_id@, mi)
                        &&& spec_job_for_message_at(self.jobs@, self.messages@[mi].id@, ji)
                        &&& resp.message_id@ == self.messages@[mi].id@
                        &&& resp.job_id@ == self.jobs@[ji].id@
                        &&& resp.status@ == crate::types::spec_message_status_label(
                            self.messages@[mi].status,
                        )
                        &&& match self.messages@[mi].provider_id {
                            Some(p) => resp.provider_id matches Some(q) && q@ == p@,
                            None => resp.provider_id is None,
                        }
                        &&& resp.created_at == self.messages@[mi].created_at
                        &&& resp.updated_at == self.messages@[mi].updated_at
                        &&& resp.delivery_attempts == self.jobs@[ji].retry_count
                        &&& match self.jobs@[ji].error_message {
                            Some(e) => resp.last_error matches Some(f) && f@ == e@,
                            None => resp.last_error is None,
                        }
                    },
            },
    {
        let mi = match self.find_message(message_id) {
            None => {
                return None;
            },
            Some(mi) => mi,
        };
        let ji = match self.find_job_for_message(self.messages[mi].id.as_str()) {
            None => {
                return None;
            },
            Some(ji) => ji,
        };
        let m = &self.messages[mi];
        let j = &self.jobs[ji];
        Some(MessageStatusResponse {
            message_id: m.id.clone(),
            job_id: j.id.clone(),
            status: String::from_str(m.status.label()),
            provider_id: m.provider_id.clone(),
            created_at: m.created_at,
            updated_at: m.updated_at,
            delivery_attempts: j.retry_count,
            last_error: j.error_message.clone(),
        })
    }

    /// Consumes an inbound delivery confirmation from the assigned provider:
    /// `Delivered` finalizes the message and completes the job, crediting the
    /// provider; `Failed` fails both and records the failure; `Pending`
    /// leaves the message `Sent`. Only the assigned provider may confirm.
    /// Returns the message's new status label.
    pub fn confirm_delivery(
        &mut self,
        message_id: &str,
        provider_id: &str,
        outcome: DeliveryOutcome,
        error_message: Option<String>,
        reward_micro: u64,
        now: u64,
    ) -> (r: Result<&'static str, PeerPowerError>)
        requires
            old(self).wf(),
            valid_time(now),
        ensures
            final(self).wf(),
            final(self).queue@ == old(self).queue@,
            final(self).delayed@ == old(self).delayed@,
            match r {
                Err(e) => {
                    &&& *final(self) == *old(self)
                    &&& match e {
                        PeerPowerError::NotFound { .. } => !spec_has_message(
                            old(self).messages@,
                            message_id@,
                        ),
                        PeerPowerError::ValidationError { .. } => exists|mi: int|
                            spec_message_at(old(self).messages@, message_id@, mi) && !(old(
                                self,
                            ).messages@[mi].provider_id matches Some(p) && p@ == provider_id@),
                        _ => false,
                    }
                },
                Ok(label) => exists|mi: int|
                    {
                        &&& spec_message_at(old(self).messages@, message_id@, mi)
                        &&& old(self).messages@[mi].provider_id matches Some(p) && p@
                            == provider_id@
                        &&& match outcome {
                            DeliveryOutcome::Delivered => {
                                &&& label@ == "delivered"@
                                &&& final(self).messages@ == old(self).messages@.update(
                                    mi,
                                    final(self).messages@[mi],
                                )
                                &&& final(self).messages@[mi] == (Message {
                                    status: MessageStatus::Delivered,
                                    delivery_report: final(self).messages@[mi].delivery_report,
                                    updated_at: now,
                                    ..old(self).messages@[mi]
                                })
                                &&& final(self).messages@[mi].delivery_report matches Some(rep)
                                    && rep.delivered_at == now && rep.provider_confirmation
                                    == true && rep.delivery_status@ == "delivered"@
                                    && rep.error_message is None
                                &&& spec_jobs_completed(
                                    old(self).jobs@,
                                    final(self).jobs@,
                                    old(self).messages@[mi].id@,
                                    now,
                                )
                                &&& spec_providers_delivery_recorded(
                                    old(self).providers@,
                                    final(self).providers@,
                                    provider_id@,
                                    reward_micro,
                                    now,
                                )
                            },
                            DeliveryOutcome::Failed => {
                                &&& label@ == "failed"@
                                &&& {
                                    let cause = match error_message {
                                        Some(e) => e@,
                                        None => "Delivery failed"@,
                                    };
                                    &&& final(self).messages@ == old(self).messages@.update(
                                        mi,
                                        final(self).messages@[mi],
                                    )
                                    &&& final(self).messages@[mi] == (Message {
                                        status: MessageStatus::Failed,
                                        delivery_report: final(self).messages@[mi].delivery_report,
                                        updated_at: now,
                                        ..old(self).messages@[mi]
                                    })
                                    &&& final(self).messages@[mi].delivery_report matches Some(
                                        rep,
                                    ) && rep.error_message matches Some(c) && c@ == cause
                                    &&& spec_jobs_failed(
                                        old(self).jobs@,
                                        final(self).jobs@,
                                        old(self).messages@[mi].id@,
                                        cause,
                                        now,
                                    )
                                    &&& spec_providers_failure_recorded(
                                        old(self).providers@,
                                        final(self).providers@,
                                        provider_id@,
                                        now,
                                    )
                                }
                            },
                            DeliveryOutcome::Pending => {
                                &&& label@ == "sent"@
                                &&& final(self).messages@ == old(self).messages@.update(
                                    mi,
                                    (Message {
                                        status: MessageStatus::Sent,
                                        updated_at: now,
                                        ..old(self).messages@[mi]
                                    }),
                                )
                                &&& final(self).jobs@ == old(self).jobs@
                                &&& final(self).providers@ == old(self).providers@
                            },
                        }
                    },
            },
    {
        let mi = match self.find_message(message_id) {
            None => {
                let mut resource = String::from_str("Message with ID: ");
                resource.append(message_id);
                return Err(PeerPowerError::NotFound { resource });
            },
            Some(mi) => mi,
        };
        let assigned = match &self.messages[mi].provider_id {
            Some(p) => crate::text::str_eq(p.as_str(), provider_id),
            None => false,
        };
        if !assigned {
            return Err(PeerPowerError::ValidationError {
                field: String::from_str("provider"),
                message: String::from_str("You are not assigned to this message"),
            });
        }
        let msg_id = self.messages[mi].id.clone();
        match outcome {
            DeliveryOutcome::Delivered => {
                let report = crate::message::DeliveryReport {
                    delivered_at: now,
                    provider_confirmation: true,
                    delivery_status: String::from_str("delivered"),
                    error_message: None,
                    network_info: None,
                };
                let mref = vstd::std_specs::vec::vec_index_mut(&mut self.messages, mi);
                mref.mark_delivered(report, now);
                if let Some(ji) = self.find_job_for_message(msg_id.as_str()) {
                    let jref = vstd::std_specs::vec::vec_index_mut(&mut self.jobs, ji);
                    jref.mark_completed(now);
                }
                if let Some(pi) = self.find_provider(provider_id) {
                    let pref = vstd::std_specs::vec::vec_index_mut(&mut self.providers, pi);
                    pref.record_message_delivered(reward_micro, now);
                    let pref2 = vstd::std_specs::vec::vec_index_mut(&mut self.providers, pi);
                    pref2.decrement_load(now);
                    proof {
                        assert(self.providers@ =~= old(self).providers@.update(
                            pi as int,
                            self.providers@[pi as int],
                        ));
                    }
                }
                Ok("delivered")
            },
            DeliveryOutcome::Failed => {
                let cause = match error_message {
                    Some(e) => e,
                    None => String::from_str("Delivery failed"),
                };
                let mref = vstd::std_specs::vec::vec_index_mut(&mut self.messages, mi);
                mref.mark_failed(cause.clone(), now);
                if let Some(ji) = self.find_job_for_message(msg_id.as_str()) {
                    let jref = vstd::std_specs::vec::vec_index_mut(&mut self.jobs, ji);
                    jref.mark_failed(cause, now);
                }
                if let Some(pi) = self.find_provider(provider_id) {
                    let pref = vstd::std_specs::vec::vec_index_mut(&mut self.providers, pi);
                    pref.record_message_failed(now);
                    let pref2 = vstd::std_specs::vec::vec_index_mut(&mut self.providers, pi);
                    pref2.decrement_load(now);
                    proof {
                        assert(self.providers@ =~= old(self).providers@.update(
                            pi as int,
                            self.providers@[pi as int],
                        ));
                    }
                }
                Ok("failed")
            },
            DeliveryOutcome::Pending => {
                let mref = vstd::std_specs::vec::vec_index_mut(&mut self.messages, mi);
                mref.mark_sent(now);
                Ok("sent")
            },
        }
    }

    /// Consumes a delivery confirmation arriving over the external webhook:
    /// unlike `confirm_delivery` it carries no provider identity, so only the
    /// message's status moves — `delivered`, `failed`, or back to `sent` for
    /// a still-pending report. Returns the message's new status label.
    pub fn delivery_webhook(&mut self, message_id: &str, status_text: &str, now: u64) -> (r:
        Result<&'static str, PeerPowerError>)
        requires
            old(self).wf(),
            valid_time(now),
        ensures
            final(self).wf(),
            final(self).jobs@ == old(self).jobs@,
            final(self).providers@ == old(self).providers@,
            final(self).queue@ == old(self).queue@,
            final(self).delayed@ == old(self).delayed@,
            match r {
                Err(e) => {
                    &&& *final(self) == *old(self)
                    &&& match e {
                        PeerPowerError::ValidationError { .. } =>
                            crate::message::spec_parse_delivery_status(status_text@) is None,
                        PeerPowerError::NotFound { .. } => {
                            &&& crate::message::spec_parse_delivery_status(status_text@) is Some
                            &&& !spec_has_message(old(self).messages@, message_id@)
                        },
                        _ => false,
                    }
                },
                Ok(label) => exists|mi: int|
                    {
                        &&& spec_message_at(old(self).messages@, message_id@, mi)
                        &&& {
                            let st = match crate::message::spec_parse_delivery_status(
                                status_text@,
                            ) {
                                Some(DeliveryOutcome::Delivered) => MessageStatus::Delivered,
                                Some(DeliveryOutcome::Failed) => MessageStatus::Failed,
                                _ => MessageStatus::Sent,
                            };
                            &&& crate::message::spec_parse_delivery_status(status_text@) is Some
                            &&& label@ == crate::types::spec_message_status_label(st)
                            &&& final(self).messages@ == old(self).messages@.update(
                                mi,
                                (Message { status: st, updated_at: now, ..old(self).messages@[mi] }),
                            )
                        }
                    },
            },
    {
        let outcome = match crate::message::parse_delivery_status(status_text) {
            None => {
                return Err(PeerPowerError::ValidationError {
                    field: String::from_str("status"),
                    message: String::from_str("Invalid delivery status"),
                });
            },
            Some(o) => o,
        };
        let mi = match self.find_message(message_id) {
            None => {
                let mut resource = String::from_str("Message with ID: ");
                resource.append(message_id);
                return Err(PeerPowerError::NotFound { resource });
            },
            Some(mi) => mi,
        };
        let mref = vstd::std_specs::vec::vec_index_mut(&mut self.messages, mi);
        let label = match outcome {
            DeliveryOutcome::Delivered => {
                mref.status = MessageStatus::Delivered;
                "delivered"
            },
            DeliveryOutcome::Failed => {
                mref.status = MessageStatus::Failed;
                "failed"
            },
            DeliveryOutcome::Pending => {
                mref.status = MessageStatus::Sent;
                "sent"
            },
        };
        mref.updated_at = now;
        Ok(label)
    }

    /// Registers a new provider device for a user, inferring its carrier
    /// from the phone number. A phone already registered by the same user is
    /// rejected. Returns the new provider's identifier.
    pub fn register_provider(
        &mut self,
        user_id: String,
        phone: PhoneNumber,
        fcm_token: String,
        location: Option<Location>,
        now: u64,
    ) -> (r: Result<String, PeerPowerError>)
        requires
            old(self).wf(),
            valid_time(now),
        ensures
            final(self).wf(),
            final(self).messages@ == old(self).messages@,
            final(self).jobs@ == old(self).jobs@,
            final(self).queue@ == old(self).queue@,
            final(self).delayed@ == old(self).delayed@,
            match r {
                Err(e) => {
                    &&& spec_has_provider_for_phone(old(self).providers@, phone@, user_id@)
                    &&& e matches PeerPowerError::ValidationError { field, .. } && field@
                        == "phone"@
                    &&& final(self).providers@ == old(self).providers@
                },
                Ok(id) => {
                    &&& !spec_has_provider_for_phone(old(self).providers@, phone@, user_id@)
                    &&& final(self).providers@.len() == old(self).providers@.len() + 1
                    &&& final(self).providers@.drop_last() == old(self).providers@
                    &&& {
                        let p = final(self).providers@.last();
                        &&& id@ == p.id@
                        &&& p.user_id == user_id
                        &&& p.phone == phone
                        &&& p.carrier == crate::types::spec_carrier_of(phone@)
                        &&& p.status is Offline
                        &&& p.fcm_token matches Some(t) && t == fcm_token
                        &&& p.location == location
                        &&& p.current_load == 0
                        &&& p.messages_sent_today == 0
                        &&& p.created_at == now
                    }
                },
            },
    {
        let n = self.providers.len();
        let mut i: usize = 0;
        while i < n
            invariant
                0 <= i <= n,
                n == self.providers@.len(),
                *self == *old(self),
                old(self).wf(),
                forall|k: int|
                    0 <= k < i ==> !(self.providers@[k].phone@ == phone@
                        && self.providers@[k].user_id@ == user_id@),
            decreases n - i,
        {
            if crate::text::str_eq(self.providers[i].phone.as_str(), phone.as_str())
                && crate::text::str_eq(self.providers[i].user_id.as_str(), user_id.as_str()) {
                return Err(PeerPowerError::ValidationError {
                    field: String::from_str("phone"),
                    message: String::from_str(
                        "Provider with this phone number already registered",
                    ),
                });
            }
            i += 1;
        }
        let carrier = crate::types::Carrier::from_phone_number(&phone);
        let mut provider = Provider::new(user_id, phone, carrier, now);
        provider.fcm_token = Some(fcm_token);
        provider.location = location;
        let id = provider.id.clone();
        self.providers.push(provider);
        proof {
            assert(self.providers@.drop_last() =~= old(self).providers@);
        }
        Ok(id)
    }

    /// Records a provider heartbeat: sets the reported status and refreshes
    /// the freshness window.
    pub fn heartbeat(&mut self, provider_id: &str, status: ProviderStatus, now: u64) -> (r:
        Result<(), PeerPowerError>)
        requires
            old(self).wf(),
            valid_time(now),
        ensures
            final(self).wf(),
            final(self).messages@ == old(self).messages@,
            final(self).jobs@ == old(self).jobs@,
            final(self).queue@ == old(self).queue@,
            final(self).delayed@ == old(self).delayed@,
            match r {
                Err(e) => {
                    &&& !spec_has_provider(old(self).providers@, provider_id@)
                    &&& e matches PeerPowerError::NotFound { .. }
                    &&& final(self).providers@ == old(self).providers@
                },
                Ok(()) => exists|pi: int|
                    {
                        &&& spec_provider_at(old(self).providers@, provider_id@, pi)
                        &&& final(self).providers@ == old(self).providers@.update(
                            pi,
                            (Provider {
                                status: status,
                                last_heartbeat: Some(now),
                                updated_at: now,
                                ..old(self).providers@[pi]
                            }),
                        )
                    },
            },
    {
        let pi = match self.find_provider(provider_id) {
            None => {
                let mut resource = String::from_str("Provider with ID: ");
                resource.append(provider_id);
                return Err(PeerPowerError::NotFound { resource });
            },
            Some(pi) => pi,
        };
        let pref = vstd::std_specs::vec::vec_index_mut(&mut self.providers, pi);
        pref.status = status;
        pref.update_heartbeat(now);
        Ok(())
    }

    /// Sets a provider's operational status from its written form; the
    /// heartbeat is not refreshed. Returns the status that was set.
    pub fn update_provider_status(&mut self, provider_id: &str, status_text: &str, now: u64) -> (r:
        Result<ProviderStatus, PeerPowerError>)
        requires
            old(self).wf(),
            valid_time(now),
        ensures
            final(self).wf(),
            final(self).messages@ == old(self).messages@,
            final(self).jobs@ == old(self).jobs@,
            final(self).queue@ == old(self).queue@,
            final(self).delayed@ == old(self).delayed@,
            match r {
                Err(e) => {
                    &&& final(self).providers@ == old(self).providers@
                    &&& match e {
                        PeerPowerError::ValidationError { .. } =>
                            crate::types::spec_parse_provider_status(status_text@) is None,
                        PeerPowerError::NotFound { .. } => {
                            &&& crate::types::spec_parse_provider_status(status_text@) is Some
                            &&& !spec_has_provider(old(self).providers@, provider_id@)
                        },
                        _ => false,
                    }
                },
                Ok(st) => {
                    &&& crate::types::spec_parse_provider_status(status_text@) == Some(st)
                    &&& exists|pi: int|
                        {
                            &&& spec_provider_at(old(self).providers@, provider_id@, pi)
                            &&& final(self).providers@ == old(self).providers@.update(
                                pi,
                                (Provider {
                                    status: st,
                                    updated_at: now,
                                    ..old(self).providers@[pi]
                                }),
                            )
                        }
                },
            },
    {
        let status = match ProviderStatus::parse(status_text) {
            None => {
                return Err(PeerPowerError::ValidationError {
                    field: String::from_str("status"),
                    message: String::from_str(
                        "Invalid status value. Must be one of: online, offline, busy, suspended",
                    ),
                });
            },
            Some(st) => st,
        };
        let pi = match self.find_provider(provider_id) {
            None => {
                let mut resource = String::from_str("Provider with ID: ");
                resource.append(provider_id);
                return Err(PeerPowerError::NotFound { resource });
            },
            Some(pi) => pi,
        };
        let pref = vstd::std_specs::vec::vec_index_mut(&mut self.providers, pi);
        pref.status = status;
        pref.updated_at = now;
        Ok(status)
    }
}

/// The provider pool after the provider with this identifier, if present,
/// recorded one sent message: its total and daily counters bumped
/// (saturating) at `now`; everything else unchanged.
pub open spec fn spec_providers_sent_recorded(
    old_ps: Seq<Provider>,
    new_ps: Seq<Provider>,
    id: Seq<char>,
    now: u64,
) -> bool {
    if spec_has_provider(old_ps, id) {
        exists|pi: int|
            {
                &&& spec_provider_at(old_ps, id, pi)
                &&& new_ps == old_ps.update(
                    pi,
                    (Provider {
                        total_messages_sent: crate::provider::spec_sat_inc_u64(
                            old_ps[pi].total_messages_sent,
                        ),
                        messages_sent_today: crate::provider::spec_sat_inc_u32(
                            old_ps[pi].messages_sent_today,
                        ),
                        updated_at: now,
                        ..old_ps[pi]
                    }),
                )
            }
    } else {
        new_ps == old_ps
    }
}

/// The provider pool after the provider with this identifier, if present,
/// shed one unit of load at `now`; everything else unchanged.
pub open spec fn spec_providers_load_shed(
    old_ps: Seq<Provider>,
    new_ps: Seq<Provider>,
    id: Seq<char>,
    now: u64,
) -> bool {
    if spec_has_provider(old_ps, id) {
        exists|pi: int|
            {
                &&& spec_provider_at(old_ps, id, pi)
                &&& new_ps == old_ps.update(
                    pi,
                    (Provider {
                        current_load: if old_ps[pi].current_load > 0 {
                            (old_ps[pi].current_load - 1) as u32
                        } else {
                            0u32
                        },
                        updated_at: now,
                        ..old_ps[pi]
                    }),
                )
            }
    } else {
        new_ps == old_ps
    }
}

} // verus!
