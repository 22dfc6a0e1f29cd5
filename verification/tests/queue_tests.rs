use background_tasks::email::OutgoingEmail;
use background_tasks::queue::job::Job;
use background_tasks::queue::job::JobEvent;
use background_tasks::queue::job::JobStep;
use background_tasks::queue::store::QueueStore;
use background_tasks::queue::store::StorageError;
use background_tasks::queue::try_execute_task;
use background_tasks::queue::ExecutionOutcome;
use background_tasks::queue::FailureContext;
use background_tasks::queue::JobType;
use background_tasks::queue::QueueEntry;
use background_tasks::queue::WorkerSchedule;
use std::cell::Cell;

fn entry(task_id: &str, email: &str) -> QueueEntry {
    QueueEntry { task_id: String::from(task_id), email: String::from(email) }
}

fn seeded(entries: &[(&str, &str)]) -> QueueStore {
    let mut store = QueueStore::new();
    let mut tx = store.begin();
    for (task_id, email) in entries {
        assert_eq!(store.enqueue(&mut tx, entry(task_id, email)), Ok(()));
    }
    assert_eq!(store.commit(tx), Ok(()));
    store
}

#[test]
fn enqueued_entry_is_pending_after_commit() {
    let mut store = QueueStore::new();
    let mut tx = store.begin();
    assert_eq!(store.enqueue(&mut tx, entry("abc123", "user@x.com")), Ok(()));
    assert_eq!(tx.len(), 1);
    assert_eq!(store.pending_len(), 0);
    assert!(!store.is_pending(&String::from("abc123")));

    assert_eq!(store.commit(tx), Ok(()));
    assert_eq!(store.pending_len(), 1);
    let rows = store.pending_entries();
    assert_eq!(rows.len(), 1);
    assert_eq!(rows[0].task_id, "abc123");
    assert_eq!(rows[0].email, "user@x.com");
    assert_eq!(store.dead_letter_len(), 0);
}

#[test]
fn dropped_transaction_leaves_no_entry() {
    let store = QueueStore::new();
    let mut tx = store.begin();
    assert_eq!(store.enqueue(&mut tx, entry("abc123", "user@x.com")), Ok(()));
    drop(tx);
    assert_eq!(store.pending_len(), 0);
}

#[test]
fn failed_delivery_is_dead_lettered_and_removed() {
    let mut store = seeded(&[("abc123", "user@x.com")]);
    let outcome = try_execute_task(&mut store, |_message: &OutgoingEmail| {
        Err(String::from("connection refused"))
    });
    assert_eq!(outcome, ExecutionOutcome::TaskCompleted);
    assert_eq!(store.pending_len(), 0);
    assert_eq!(store.dead_letter_len(), 1);
    let records = store.dead_letter_records();
    assert_eq!(records[0].job_id, "abc123");
    assert_eq!(records[0].job_type, JobType::EmailDelivery);
    assert_eq!(records[0].job_type.as_str(), "email_delivery");
    assert_eq!(records[0].context.task_id, "abc123");
    assert_eq!(records[0].context.email, "user@x.com");
    assert_eq!(records[0].context.error, "connection refused");
    assert!(store.is_dead_letter(&String::from("abc123")));
}

#[test]
fn concurrent_dequeues_get_different_entries() {
    let mut store = seeded(&[("first", "a@x.com"), ("second", "b@x.com")]);
    let one = store.dequeue_one().expect("an entry for the first worker");
    let two = store.dequeue_one().expect("an entry for the second worker");
    assert_ne!(one.entry().task_id, two.entry().task_id);
    assert!(store.dequeue_one().is_none());
    assert_eq!(store.pending_len(), 2);
    store.complete(two);
    store.complete(one);
    assert_eq!(store.pending_len(), 0);
    assert_eq!(store.dead_letter_len(), 0);
}

#[test]
fn dequeue_on_empty_store_returns_nothing() {
    let mut store = QueueStore::new();
    assert!(store.dequeue_one().is_none());
    assert_eq!(store.pending_len(), 0);
    let called = Cell::new(false);
    let outcome = try_execute_task(&mut store, |_message: &OutgoingEmail| {
        called.set(true);
        Ok(())
    });
    assert_eq!(outcome, ExecutionOutcome::EmptyQueue);
    assert!(!called.get());
    assert_eq!(store.dead_letter_len(), 0);
}

#[test]
fn delivered_entry_is_removed_without_dead_letter() {
    let mut store = seeded(&[("abc123", "user@x.com")]);
    let sent = Cell::new(0u32);
    let outcome = try_execute_task(&mut store, |message: &OutgoingEmail| {
        sent.set(sent.get() + 1);
        assert_eq!(message.recipient.as_str(), "user@x.com");
        assert_eq!(message.subject, "Recipe App confirm registration");
        assert_eq!(
            message.html_body,
            "Visit http://localhost:3001/confirm?token=abc123 to confirm your registration."
        );
        assert_eq!(
            message.text_body,
            "Visit <a href=http://localhost:3001/confirm?token=abc123>the website</a> to confirm your registration."
        );
        Ok(())
    });
    assert_eq!(outcome, ExecutionOutcome::TaskCompleted);
    assert_eq!(sent.get(), 1);
    assert_eq!(store.pending_len(), 0);
    assert_eq!(store.dead_letter_len(), 0);
}

#[test]
fn invalid_address_is_dead_lettered_without_delivery() {
    let mut store = seeded(&[("abc123", "not-an-address")]);
    let called = Cell::new(false);
    let outcome = try_execute_task(&mut store, |_message: &OutgoingEmail| {
        called.set(true);
        Ok(())
    });
    assert_eq!(outcome, ExecutionOutcome::TaskCompleted);
    assert!(!called.get());
    assert_eq!(store.pending_len(), 0);
    let records = store.dead_letter_records();
    assert_eq!(records.len(), 1);
    assert_eq!(records[0].job_id, "abc123");
    assert_eq!(records[0].context.task_id, "abc123");
    assert_eq!(records[0].context.email, "not-an-address");
    assert_eq!(records[0].context.error, "error in the request body");
}

#[test]
fn worker_takes_one_entry_per_iteration() {
    let mut store = seeded(&[("first", "a@x.com"), ("second", "b@x.com")]);
    assert_eq!(
        try_execute_task(&mut store, |_message: &OutgoingEmail| Ok(())),
        ExecutionOutcome::TaskCompleted
    );
    let left = store.pending_entries();
    assert_eq!(left.len(), 1);
    assert_eq!(left[0].task_id, "second");
    assert_eq!(
        try_execute_task(&mut store, |_message: &OutgoingEmail| Ok(())),
        ExecutionOutcome::TaskCompleted
    );
    assert_eq!(
        try_execute_task(&mut store, |_message: &OutgoingEmail| Ok(())),
        ExecutionOutcome::EmptyQueue
    );
}

#[test]
fn claimed_entry_is_skipped_by_the_worker() {
    let mut store = seeded(&[("first", "a@x.com"), ("second", "b@x.com")]);
    let held = store.dequeue_one().expect("an entry");
    assert_eq!(held.entry().task_id, "first");
    let outcome = try_execute_task(&mut store, |message: &OutgoingEmail| {
        assert_eq!(message.recipient.as_str(), "b@x.com");
        Ok(())
    });
    assert_eq!(outcome, ExecutionOutcome::TaskCompleted);
    assert!(store.is_pending(&String::from("first")));
    assert!(!store.is_pending(&String::from("second")));
    assert_eq!(
        try_execute_task(&mut store, |_message: &OutgoingEmail| Ok(())),
        ExecutionOutcome::EmptyQueue
    );
    store.complete(held);
    assert_eq!(store.pending_len(), 0);
}

#[test]
fn abandoned_claim_releases_the_entry() {
    let mut store = seeded(&[("abc123", "user@x.com")]);
    let mut claim = store.dequeue_one().expect("an entry");
    claim.record_failure(
        JobType::EmailDelivery,
        FailureContext {
            task_id: String::from("abc123"),
            email: String::from("user@x.com"),
            error: String::from("lost"),
        },
    );
    store.abandon(claim);
    assert_eq!(store.pending_len(), 1);
    assert_eq!(store.dead_letter_len(), 0);
    let again = store.dequeue_one().expect("the released entry");
    assert_eq!(again.entry().task_id, "abc123");
}

#[test]
fn duplicate_identifier_is_refused() {
    let mut store = seeded(&[("abc123", "user@x.com")]);
    let mut tx = store.begin();
    assert_eq!(store.enqueue(&mut tx, entry("abc123", "other@x.com")), Err(StorageError::Conflict));
    assert_eq!(store.enqueue(&mut tx, entry("new", "other@x.com")), Ok(()));
    assert_eq!(store.enqueue(&mut tx, entry("new", "third@x.com")), Err(StorageError::Conflict));
    assert_eq!(tx.len(), 1);
    assert!(tx.has_staged(&String::from("new")));
    assert_eq!(store.commit(tx), Ok(()));
    assert_eq!(store.pending_len(), 2);
}

#[test]
fn commit_is_all_or_nothing() {
    let mut store = QueueStore::new();
    let mut first = store.begin();
    let mut second = store.begin();
    assert_eq!(store.enqueue(&mut first, entry("shared", "a@x.com")), Ok(()));
    assert_eq!(store.enqueue(&mut second, entry("other", "b@x.com")), Ok(()));
    assert_eq!(store.enqueue(&mut second, entry("shared", "b@x.com")), Ok(()));
    assert_eq!(store.commit(first), Ok(()));
    assert_eq!(store.commit(second), Err(StorageError::Conflict));
    let rows = store.pending_entries();
    assert_eq!(rows.len(), 1);
    assert_eq!(rows[0].email, "a@x.com");
}

#[test]
fn dead_letter_is_written_once_per_identifier() {
    let mut store = seeded(&[("abc123", "user@x.com")]);
    try_execute_task(&mut store, |_message: &OutgoingEmail| Err(String::from("first failure")));
    let mut tx = store.begin();
    assert_eq!(store.enqueue(&mut tx, entry("abc123", "user@x.com")), Ok(()));
    assert_eq!(store.commit(tx), Ok(()));
    try_execute_task(&mut store, |_message: &OutgoingEmail| Err(String::from("second failure")));
    assert_eq!(store.pending_len(), 0);
    let records = store.dead_letter_records();
    assert_eq!(records.len(), 1);
    assert_eq!(records[0].context.error, "first failure");
}

#[test]
fn only_the_first_failure_of_a_claim_is_kept() {
    let mut store = seeded(&[("abc123", "user@x.com")]);
    let mut claim = store.dequeue_one().expect("an entry");
    claim.record_failure(
        JobType::EmailDelivery,
        FailureContext {
            task_id: String::from("abc123"),
            email: String::from("user@x.com"),
            error: String::from("one"),
        },
    );
    claim.record_failure(
        JobType::EmailDelivery,
        FailureContext {
            task_id: String::from("abc123"),
            email: String::from("user@x.com"),
            error: String::from("two"),
        },
    );
    store.complete(claim);
    let records = store.dead_letter_records();
    assert_eq!(records.len(), 1);
    assert_eq!(records[0].job_id, "abc123");
    assert_eq!(records[0].context.error, "one");
}

#[test]
fn worker_rests_ten_seconds_when_idle_and_one_after_an_error() {
    let schedule = WorkerSchedule::default();
    assert_eq!(schedule.idle_seconds, 10);
    assert_eq!(schedule.error_seconds, 1);
    let done: Result<ExecutionOutcome, String> = Ok(ExecutionOutcome::TaskCompleted);
    let idle: Result<ExecutionOutcome, String> = Ok(ExecutionOutcome::EmptyQueue);
    let failed: Result<ExecutionOutcome, String> = Err(String::from("pool timed out"));
    assert_eq!(schedule.delay_after(&done), None);
    assert_eq!(schedule.delay_after(&idle), Some(10));
    assert_eq!(schedule.delay_after(&failed), Some(1));
    let custom = WorkerSchedule { idle_seconds: 30, error_seconds: 2 };
    assert_eq!(custom.delay_after(&idle), Some(30));
    assert_eq!(custom.delay_after(&failed), Some(2));
}

#[test]
fn job_with_valid_address_delivers_then_removes() {
    let mut job = Job::new(entry("abc123", "user@x.com"));
    assert!(matches!(job.due(), JobStep::Deliver(_)));
    job.advance(JobEvent::Delivered);
    assert!(matches!(job.due(), JobStep::Remove));
    assert!(!job.is_finished());
    job.advance(JobEvent::Removed);
    assert!(job.is_finished());
    assert_eq!(job.entry().task_id, "abc123");
}

#[test]
fn job_records_a_failed_delivery_before_removing() {
    let mut job = Job::new(entry("abc123", "user@x.com"));
    job.advance(JobEvent::DeliveryFailed(String::from("503 Service Unavailable")));
    match job.due() {
        JobStep::Record(context) => {
            assert_eq!(context.task_id, "abc123");
            assert_eq!(context.email, "user@x.com");
            assert_eq!(context.error, "503 Service Unavailable");
        }
        other => panic!("a record was due, not {:?}", other),
    }
    job.advance(JobEvent::Recorded);
    assert!(matches!(job.due(), JobStep::Remove));
    job.advance(JobEvent::Removed);
    assert!(job.is_finished());
}

#[test]
fn job_ignores_events_that_do_not_answer_its_step() {
    let mut job = Job::new(entry("abc123", "user@x.com"));
    job.advance(JobEvent::Removed);
    job.advance(JobEvent::Recorded);
    assert!(matches!(job.due(), JobStep::Deliver(_)));
    job.advance(JobEvent::Delivered);
    job.advance(JobEvent::Delivered);
    job.advance(JobEvent::DeliveryFailed(String::from("late")));
    assert!(matches!(job.due(), JobStep::Remove));
    job.advance(JobEvent::Removed);
    job.advance(JobEvent::Delivered);
    assert!(job.is_finished());
}

#[test]
fn job_with_invalid_address_starts_with_the_record() {
    let mut job = Job::new(entry("abc123", "nobody"));
    match job.due() {
        JobStep::Record(context) => {
            assert_eq!(context.task_id, "abc123");
            assert_eq!(context.email, "nobody");
            assert_eq!(context.error, "error in the request body");
        }
        other => panic!("a record was due, not {:?}", other),
    }
    job.advance(JobEvent::Delivered);
    assert!(matches!(job.due(), JobStep::Record(_)));
    job.advance(JobEvent::Recorded);
    job.advance(JobEvent::Removed);
    assert!(job.is_finished());
}
