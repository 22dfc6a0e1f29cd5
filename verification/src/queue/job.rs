//! What a worker does with one claimed entry.
//!
//! The work on an entry is a short sequence of steps, each of which needs the
//! outside world: the sender for a delivery, the store for the record of a
//! failure and for the removal of the entry. [`Job`] decides which step is
//! due; the caller carries the step out and reports how it went. Every entry
//! is tried exactly once and removed afterwards, whatever the attempt brought.
use crate::email::email_is_valid;
use crate::email::Email;
use crate::email::EmailError;
use crate::email::OutgoingEmail;
use crate::email::OutgoingEmailView;
use crate::queue::FailureContext;
use crate::queue::QueueEntry;
use crate::queue::QueueEntryView;
use vstd::prelude::*;

verus! {

/// The step that is due for a claimed entry.
#[derive(Debug)]
pub enum JobStep {
    /// Hand the message to the sender, once.
    Deliver(OutgoingEmail),
    /// Write the failure to the dead-letter table, in the transaction of the claim.
    Record(FailureContext),
    /// Remove the entry from the queue and commit.
    Remove,
    /// Nothing is left to do.
    Finished,
}

/// A failure as plain text.
pub struct FailureView {
    pub task_id: Seq<char>,
    pub email: Seq<char>,
    pub error: Seq<char>,
}

/// A step as plain text.
pub enum JobStepView {
    Deliver(OutgoingEmailView),
    Record(FailureView),
    Remove,
    Finished,
}

/// How the step that was due has ended.
#[derive(Debug)]
pub enum JobEvent {
    /// The sender accepted the message.
    Delivered,
    /// The sender failed, with this error text.
    DeliveryFailed(String),
    /// The failure was written.
    Recorded,
    /// The entry was removed and the transaction committed.
    Removed,
}

/// An event as plain text.
pub enum JobEventView {
    Delivered,
    DeliveryFailed(Seq<char>),
    Recorded,
    Removed,
}

impl View for FailureContext {
    type V = FailureView;

    open spec fn view(&self) -> FailureView {
        FailureView { task_id: self.task_id@, email: self.email@, error: self.error@ }
    }
}

impl View for JobStep {
    type V = JobStepView;

    open spec fn view(&self) -> JobStepView {
        match self {
            JobStep::Deliver(message) => JobStepView::Deliver(message@),
            JobStep::Record(context) => JobStepView::Record(context@),
            JobStep::Remove => JobStepView::Remove,
            JobStep::Finished => JobStepView::Finished,
        }
    }
}

impl View for JobEvent {
    type V = JobEventView;

    open spec fn view(&self) -> JobEventView {
        match self {
            JobEvent::Delivered => JobEventView::Delivered,
            JobEvent::DeliveryFailed(error) => JobEventView::DeliveryFailed(error@),
            JobEvent::Recorded => JobEventView::Recorded,
            JobEvent::Removed => JobEventView::Removed,
        }
    }
}

/// The subject of the confirmation message.
pub open spec fn confirmation_subject() -> Seq<char> {
    "Recipe App confirm registration"@
}

/// The body that names the confirmation link as plain text.
pub open spec fn link_sentence(task_id: Seq<char>) -> Seq<char> {
    "Visit http://localhost:3001/confirm?token="@ + task_id + " to confirm your registration."@
}

/// The body that wraps the confirmation link in an anchor.
pub open spec fn anchor_sentence(task_id: Seq<char>) -> Seq<char> {
    "Visit <a href=http://localhost:3001/confirm?token="@ + task_id
        + ">the website</a> to confirm your registration."@
}

/// The confirmation message for an entry.
pub open spec fn confirmation_message(entry: QueueEntryView) -> OutgoingEmailView {
    OutgoingEmailView {
        recipient: entry.email,
        subject: confirmation_subject(),
        html_body: link_sentence(entry.task_id),
        text_body: anchor_sentence(entry.task_id),
    }
}

/// The failure that is kept of an attempt on `entry` that ended with `error`.
pub open spec fn failure_of(entry: QueueEntryView, error: Seq<char>) -> FailureView {
    FailureView { task_id: entry.task_id, email: entry.email, error }
}

/// The first step for a claimed entry: a delivery when its address is valid,
/// the record of the invalid address when it is not.
pub open spec fn first_step(entry: QueueEntryView) -> JobStepView {
    if email_is_valid(entry.email) {
        JobStepView::Deliver(confirmation_message(entry))
    } else {
        JobStepView::Record(failure_of(entry, EmailError::InvalidEmail.text()))
    }
}

/// The step that is due after `event`, when `due` was due before. An event
/// that does not answer the step that was due changes nothing.
pub open spec fn next_step(entry: QueueEntryView, due: JobStepView, event: JobEventView)
    -> JobStepView {
    match (due, event) {
        (JobStepView::Deliver(_), JobEventView::Delivered) => JobStepView::Remove,
        (JobStepView::Deliver(_), JobEventView::DeliveryFailed(error)) => JobStepView::Record(
            failure_of(entry, error),
        ),
        (JobStepView::Record(_), JobEventView::Recorded) => JobStepView::Remove,
        (JobStepView::Remove, JobEventView::Removed) => JobStepView::Finished,
        _ => due,
    }
}

/// The error with which the single attempt on `entry` ends, when the sender,
/// if it is asked at all, answers with `delivery` (`None` for success).
pub open spec fn attempt_error(entry: QueueEntryView, delivery: Option<Seq<char>>) -> Option<
    Seq<char>,
> {
    if email_is_valid(entry.email) {
        delivery
    } else {
        Some(EmailError::InvalidEmail.text())
    }
}

/// Builds the confirmation message for a valid recipient.
pub fn build_confirmation(task_id: &String, recipient: Email) -> (message: OutgoingEmail)
    ensures
        message@ == confirmation_message(
            QueueEntryView { task_id: task_id@, email: recipient@ },
        ),
{
    let subject = String::from_str("Recipe App confirm registration");
    let mut html_body = String::from_str("Visit http://localhost:3001/confirm?token=");
    html_body.append(task_id.as_str());
    html_body.append(" to confirm your registration.");
    let mut text_body = String::from_str("Visit <a href=http://localhost:3001/confirm?token=");
    text_body.append(task_id.as_str());
    text_body.append(">the website</a> to confirm your registration.");
    OutgoingEmail { recipient, subject, html_body, text_body }
}

/// The work on one claimed entry: the entry and the step that is due.
#[derive(Debug)]
pub struct Job {
    entry: QueueEntry,
    due: JobStep,
}

impl Job {
    /// The entry that the job works on.
    pub closed spec fn entry_view(self) -> QueueEntryView {
        self.entry@
    }

    /// The step that is due.
    pub closed spec fn due_view(self) -> JobStepView {
        self.due@
    }

    /// Starts the work on a claimed entry; see [`first_step`].
    pub fn new(entry: QueueEntry) -> (job: Job)
        ensures
            job.entry_view() == entry@,
            job.due_view() == first_step(entry@),
            !entry@.email.contains('@') ==> !email_is_valid(entry@.email),
    {
        let due = match Email::parse(entry.email.clone()) {
            Ok(recipient) => JobStep::Deliver(build_confirmation(&entry.task_id, recipient)),
            Err(error) => JobStep::Record(
                FailureContext {
                    task_id: entry.task_id.clone(),
                    email: entry.email.clone(),
                    error: error.describe(),
                },
            ),
        };
        Job { entry, due }
    }

    /// The entry that the job works on.
    pub fn entry(&self) -> (entry: &QueueEntry)
        ensures
            entry@ == self.entry_view(),
    {
        &self.entry
    }

    /// The step that is due.
    pub fn due(&self) -> (step: &JobStep)
        ensures
            step@ == self.due_view(),
    {
        &self.due
    }

    /// Whether nothing is left to do.
    pub fn is_finished(&self) -> (finished: bool)
        ensures
            finished == (self.due_view() is Finished),
    {
        match self.due {
            JobStep::Finished => true,
            _ => false,
        }
    }

    /// Takes note of how the step that was due has ended; see [`next_step`].
    pub fn advance(&mut self, event: JobEvent)
        ensures
            final(self).entry_view() == old(self).entry_view(),
            final(self).due_view() == next_step(
                old(self).entry_view(),
                old(self).due_view(),
                event@,
            ),
    {
        let mut due = JobStep::Finished;
        std::mem::swap(&mut self.due, &mut due);
        let next = match (due, event) {
            (JobStep::Deliver(_), JobEvent::Delivered) => JobStep::Remove,
            (JobStep::Deliver(_), JobEvent::DeliveryFailed(error)) => JobStep::Record(
                FailureContext {
                    task_id: self.entry.task_id.clone(),
                    email: self.entry.email.clone(),
                    error,
                },
            ),
            (JobStep::Record(_), JobEvent::Recorded) => JobStep::Remove,
            (JobStep::Remove, JobEvent::Removed) => JobStep::Finished,
            (unchanged, _) => unchanged,
        };
        self.due = next;
    }
}

/// An entry with a valid address whose delivery succeeds is delivered once
/// and then removed; nothing is recorded.
pub proof fn law_delivered_entry_is_removed(entry: QueueEntryView)
    requires
        email_is_valid(entry.email),
    ensures
        first_step(entry) == JobStepView::Deliver(confirmation_message(entry)),
        next_step(entry, first_step(entry), JobEventView::Delivered) == JobStepView::Remove,
        next_step(entry, JobStepView::Remove, JobEventView::Removed) == JobStepView::Finished,
{
}

/// An entry with a valid address whose delivery fails is not tried again:
/// the failure is recorded with the address and the error text, and the
/// entry is removed.
pub proof fn law_failed_delivery_is_recorded_then_removed(entry: QueueEntryView, error: Seq<char>)
    requires
        email_is_valid(entry.email),
    ensures
        first_step(entry) == JobStepView::Deliver(confirmation_message(entry)),
        next_step(entry, first_step(entry), JobEventView::DeliveryFailed(error))
            == JobStepView::Record(failure_of(entry, error)),
        next_step(entry, JobStepView::Record(failure_of(entry, error)), JobEventView::Recorded)
            == JobStepView::Remove,
        next_step(entry, JobStepView::Remove, JobEventView::Removed) == JobStepView::Finished,
{
}

/// An entry with an invalid address is never handed to the sender: the
/// invalid address is recorded and the entry is removed.
pub proof fn law_invalid_entry_is_recorded_then_removed(entry: QueueEntryView)
    requires
        !email_is_valid(entry.email),
    ensures
        first_step(entry) == JobStepView::Record(
            failure_of(entry, EmailError::InvalidEmail.text()),
        ),
        next_step(entry, first_step(entry), JobEventView::Recorded) == JobStepView::Remove,
        next_step(entry, JobStepView::Remove, JobEventView::Removed) == JobStepView::Finished,
{
}

/// No event leads back to a delivery: an entry is handed to the sender at most once.
pub proof fn law_no_second_delivery(entry: QueueEntryView, due: JobStepView, event: JobEventView)
    ensures
        next_step(entry, due, event) is Deliver ==> due is Deliver && next_step(entry, due, event)
            == due,
        due is Finished ==> next_step(entry, due, event) is Finished,
{
}

} // verus!
