//! The durable queue of delivery tasks and the worker that drains it.
//!
//! An entry is written to the queue in the transaction of the business event
//! that causes it, claimed by one worker at a time, tried exactly once, and
//! removed whether the attempt succeeded or not. A failed attempt leaves a
//! record in the dead-letter table.
pub mod job;
pub mod store;

use crate::email::OutgoingEmail;
use crate::queue::job::attempt_error;
use crate::queue::job::confirmation_message;
use crate::queue::job::Job;
use crate::queue::job::JobEvent;
use crate::queue::job::JobStep;
use crate::queue::store::QueueStore;
use vstd::prelude::*;

verus! {

/// A pending delivery task: its identifier and the address to write to.
#[derive(Debug)]
pub struct QueueEntry {
    pub task_id: String,
    pub email: String,
}

/// A queue entry as plain text.
pub struct QueueEntryView {
    pub task_id: Seq<char>,
    pub email: Seq<char>,
}

impl View for QueueEntry {
    type V = QueueEntryView;

    open spec fn view(&self) -> QueueEntryView {
        QueueEntryView { task_id: self.task_id@, email: self.email@ }
    }
}

impl Clone for QueueEntry {
    fn clone(&self) -> (copy: Self)
        ensures
            copy@ == self@,
    {
        QueueEntry { task_id: self.task_id.clone(), email: self.email.clone() }
    }
}

/// The kinds of job that the dead-letter table knows.
#[derive(Clone, Copy, Debug, PartialEq, Eq, Structural)]
pub enum JobType {
    EmailDelivery,
}

impl JobType {
    /// The name of the kind in the dead-letter table.
    pub open spec fn name(self) -> Seq<char> {
        "email_delivery"@
    }

    /// The name of the kind in the dead-letter table.
    pub fn as_str(&self) -> (name: &'static str)
        ensures
            name@ == self.name(),
    {
        "email_delivery"
    }
}

/// What is kept of a failed attempt: the identifier of the task, the address
/// and the error text.
#[derive(Debug)]
pub struct FailureContext {
    pub task_id: String,
    pub email: String,
    pub error: String,
}

/// A row of the dead-letter table.
#[derive(Debug)]
pub struct DeadLetterRecord {
    pub job_id: String,
    pub job_type: JobType,
    pub context: FailureContext,
}

/// A dead-letter row as plain text.
pub struct DeadLetterView {
    pub job_id: Seq<char>,
    pub job_type: JobType,
    pub task_id: Seq<char>,
    pub email: Seq<char>,
    pub error: Seq<char>,
}

impl View for DeadLetterRecord {
    type V = DeadLetterView;

    open spec fn view(&self) -> DeadLetterView {
        DeadLetterView {
            job_id: self.job_id@,
            job_type: self.job_type,
            task_id: self.context.task_id@,
            email: self.context.email@,
            error: self.context.error@,
        }
    }
}

impl Clone for DeadLetterRecord {
    fn clone(&self) -> (copy: Self)
        ensures
            copy@ == self@,
    {
        DeadLetterRecord {
            job_id: self.job_id.clone(),
            job_type: self.job_type,
            context: FailureContext {
                task_id: self.context.task_id.clone(),
                email: self.context.email.clone(),
                error: self.context.error.clone(),
            },
        }
    }
}

/// How one iteration of the worker ended.
#[derive(Clone, Copy, Debug, PartialEq, Eq, Structural)]
pub enum ExecutionOutcome {
    /// An entry was claimed, tried once and removed.
    TaskCompleted,
    /// No entry could be claimed.
    EmptyQueue,
}

/// How long the worker rests between two iterations.
#[derive(Clone, Copy, Debug, PartialEq, Eq, Structural)]
pub struct WorkerSchedule {
    /// Seconds to rest after an iteration that found the queue empty.
    pub idle_seconds: u64,
    /// Seconds to rest after an iteration that the store failed.
    pub error_seconds: u64,
}

impl Default for WorkerSchedule {
    /// Ten seconds on an empty queue, one second after a failure of the store.
    fn default() -> (schedule: Self)
        ensures
            schedule.idle_seconds == 10,
            schedule.error_seconds == 1,
    {
        WorkerSchedule { idle_seconds: 10, error_seconds: 1 }
    }
}

impl WorkerSchedule {
    /// The rest after an iteration, in seconds: none when an entry was done,
    /// so that the next one is taken at once; the idle rest when the queue was
    /// empty; the short rest when the store failed.
    pub open spec fn rest_after<E>(self, iteration: Result<ExecutionOutcome, E>) -> Option<u64> {
        match iteration {
            Ok(ExecutionOutcome::TaskCompleted) => None,
            Ok(ExecutionOutcome::EmptyQueue) => Some(self.idle_seconds),
            Err(_) => Some(self.error_seconds),
        }
    }

    /// The rest after an iteration; see [`WorkerSchedule::rest_after`].
    pub fn delay_after<E>(&self, iteration: &Result<ExecutionOutcome, E>) -> (seconds: Option<u64>)
        ensures
            seconds == self.rest_after(*iteration),
    {
        match iteration {
            Ok(ExecutionOutcome::TaskCompleted) => None,
            Ok(ExecutionOutcome::EmptyQueue) => Some(self.idle_seconds),
            Err(_) => Some(self.error_seconds),
        }
    }
}

/// The error text of a delivery, `None` for a success.
pub open spec fn delivery_error(delivered: Result<(), String>) -> Option<Seq<char>> {
    match delivered {
        Ok(_) => None,
        Err(error) => Some(error@),
    }
}

/// Whether `deliver`, asked to send the confirmation message of `entry`, may
/// have ended with `error`.
pub open spec fn may_end_with<D: FnOnce(&OutgoingEmail) -> Result<(), String>>(
    deliver: D,
    entry: QueueEntryView,
    error: Option<Seq<char>>,
) -> bool {
    exists|message: OutgoingEmail, delivered: Result<(), String>|
        message@ == confirmation_message(entry) && #[trigger] call_ensures(
            deliver,
            (&message,),
            delivered,
        ) && delivery_error(delivered) == error
}

/// One iteration of the worker on the store: claims the oldest unclaimed
/// entry, tries it once and completes the claim. An entry with an invalid
/// address is not handed to `deliver`. Whatever the attempt brings, the entry
/// is removed, and exactly a failed attempt leaves a dead-letter row.
pub fn try_execute_task<D: FnOnce(&OutgoingEmail) -> Result<(), String>>(
    store: &mut QueueStore,
    deliver: D,
) -> (outcome: ExecutionOutcome)
    requires
        old(store)@.distinct_ids(),
        forall|message: &OutgoingEmail| call_requires(deliver, (message,)),
    ensures
        final(store)@.distinct_ids(),
        outcome == ExecutionOutcome::EmptyQueue <==> old(store)@.all_claimed(),
        match old(store)@.first_unclaimed() {
            None => outcome == ExecutionOutcome::EmptyQueue && final(store)@ == old(store)@,
            Some(i) => {
                &&& outcome == ExecutionOutcome::TaskCompleted
                &&& exists|error: Option<Seq<char>>|
                    {
                        &&& #[trigger] old(store)@.attempted(
                            i,
                            attempt_error(old(store)@.pending[i].entry, error),
                        ) == final(store)@
                        &&& crate::email::email_is_valid(old(store)@.pending[i].entry.email)
                            ==> may_end_with(deliver, old(store)@.pending[i].entry, error)
                    }
            },
        },
{
    let mut claim = match store.dequeue_one() {
        Some(claim) => claim,
        None => {
            return ExecutionOutcome::EmptyQueue;
        },
    };
    let ghost i = old(store)@.first_unclaimed()->0;
    let ghost entry = old(store)@.pending[i].entry;
    let mut job = Job::new(claim.entry().clone());
    let ghost mut error: Option<Seq<char>> = None;
    let reply = match job.due() {
        JobStep::Deliver(message) => {
            let delivered = deliver(message);
            proof {
                error = delivery_error(delivered);
                assert(may_end_with(deliver, entry, error));
            }
            match delivered {
                Ok(()) => Some(JobEvent::Delivered),
                Err(text) => Some(JobEvent::DeliveryFailed(text)),
            }
        },
        _ => None,
    };
    if let Some(event) = reply {
        job.advance(event);
    }
    let recorded = match job.due() {
        JobStep::Record(context) => {
            claim.record_failure(
                JobType::EmailDelivery,
                FailureContext {
                    task_id: context.task_id.clone(),
                    email: context.email.clone(),
                    error: context.error.clone(),
                },
            );
            true
        },
        _ => false,
    };
    if recorded {
        job.advance(JobEvent::Recorded);
    }
    assert(job.due_view() is Remove);
    store.complete(claim);
    job.advance(JobEvent::Removed);
    assert(job.due_view() is Finished);
    assert(store@ == old(store)@.attempted(i, attempt_error(entry, error)));
    ExecutionOutcome::TaskCompleted
}

} // verus!
