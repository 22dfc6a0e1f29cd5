use background_tasks::task::supervised_task;
use background_tasks::task::PausableFuture;
use background_tasks::task::PausableFutureSupervisor;
use background_tasks::task::PausableState;
use std::sync::atomic::AtomicUsize;
use std::sync::atomic::Ordering;
use std::sync::Arc;
use std::sync::Mutex;
use std::task::Wake;
use std::task::Waker;

struct CountingWake {
    wakes: AtomicUsize,
}

impl Wake for CountingWake {
    fn wake(self: Arc<Self>) {
        self.wakes.fetch_add(1, Ordering::SeqCst);
    }
}

fn counting_waker() -> (Arc<CountingWake>, Waker) {
    let counter = Arc::new(CountingWake { wakes: AtomicUsize::new(0) });
    let waker = Waker::from(Arc::clone(&counter));
    (counter, waker)
}

fn is_running(state: &Arc<Mutex<PausableState>>) -> bool {
    state.lock().unwrap().is_running()
}

fn is_pause_pending(state: &Arc<Mutex<PausableState>>) -> bool {
    state.lock().unwrap().is_pause_pending()
}

fn is_paused(state: &Arc<Mutex<PausableState>>) -> bool {
    state.lock().unwrap().is_paused()
}

fn step(counter: &mut u32) -> u32 {
    *counter += 1;
    *counter
}

#[test]
fn new_task_starts_running() {
    let (_task, state) = PausableFuture::new(0u32);
    assert!(is_running(&state));
    assert!(!is_paused(&state));
    assert!(!is_pause_pending(&state));
}

#[test]
fn running_task_forwards_every_check() {
    let (mut task, state) = PausableFuture::new(0u32);
    for expected in 1..=4u32 {
        let progress = task.poll_with(Waker::noop().clone(), step);
        assert_eq!(progress, Some(expected));
    }
    assert!(is_running(&state));
    assert_eq!(task.into_inner(), 4);
}

#[test]
fn paused_counting_task_stops_until_resumed() {
    let (mut task, state) = PausableFuture::new(0u32);
    let mut supervisor = PausableFutureSupervisor::new(&state);
    assert_eq!(task.poll_with(Waker::noop().clone(), step), Some(1));

    supervisor.pause();
    assert!(is_pause_pending(&state));
    let (wakes, waker) = counting_waker();
    for _ in 0..3 {
        assert_eq!(task.poll_with(waker.clone(), step), None);
        assert!(is_paused(&state));
    }
    assert_eq!(wakes.wakes.load(Ordering::SeqCst), 0);

    supervisor.resume();
    assert!(is_running(&state));
    assert_eq!(wakes.wakes.load(Ordering::SeqCst), 1);
    assert_eq!(task.poll_with(waker.clone(), step), Some(2));
    assert_eq!(task.into_inner(), 2);
}

#[test]
fn pause_is_idempotent() {
    let (mut task, state) = PausableFuture::new(0u32);
    let mut supervisor = PausableFutureSupervisor::new(&state);
    supervisor.pause();
    supervisor.pause();
    assert!(is_pause_pending(&state));
    assert_eq!(task.poll_with(Waker::noop().clone(), step), None);
    supervisor.pause();
    assert!(is_paused(&state));
}

#[test]
fn resume_before_the_task_was_checked_is_ignored() {
    let (mut task, state) = PausableFuture::new(0u32);
    let mut supervisor = PausableFutureSupervisor::new(&state);
    supervisor.pause();
    supervisor.resume();
    assert!(is_pause_pending(&state));
    let (wakes, waker) = counting_waker();
    assert_eq!(task.poll_with(waker, step), None);
    assert!(is_paused(&state));
    assert_eq!(wakes.wakes.load(Ordering::SeqCst), 0);
    assert_eq!(task.into_inner(), 0);
}

#[test]
fn resume_on_a_running_task_changes_nothing() {
    let (mut task, state) = PausableFuture::new(0u32);
    let mut supervisor = PausableFutureSupervisor::new(&state);
    supervisor.resume();
    assert!(is_running(&state));
    assert_eq!(task.poll_with(Waker::noop().clone(), step), Some(1));
}

#[test]
fn resume_wakes_the_waker_of_the_last_check() {
    let (mut task, state) = PausableFuture::new(0u32);
    let mut supervisor = PausableFutureSupervisor::new(&state);
    supervisor.pause();
    let (first, first_waker) = counting_waker();
    let (last, last_waker) = counting_waker();
    assert_eq!(task.poll_with(first_waker, step), None);
    assert_eq!(task.poll_with(last_waker, step), None);
    supervisor.resume();
    assert_eq!(first.wakes.load(Ordering::SeqCst), 0);
    assert_eq!(last.wakes.load(Ordering::SeqCst), 1);
    supervisor.resume();
    assert_eq!(last.wakes.load(Ordering::SeqCst), 1);
}

#[test]
fn every_supervisor_acts_on_the_same_task() {
    let (mut task, state) = PausableFuture::new(0u32);
    let mut first = PausableFutureSupervisor::new(&state);
    let mut second = PausableFutureSupervisor::new(&state);
    first.pause();
    assert_eq!(task.poll_with(Waker::noop().clone(), step), None);
    second.resume();
    assert!(is_running(&state));
    assert_eq!(task.poll_with(Waker::noop().clone(), step), Some(1));
}

#[test]
fn supervised_task_hands_out_a_working_supervisor() {
    let (mut task, mut supervisor) = supervised_task(0u32);
    assert_eq!(task.poll_with(Waker::noop().clone(), step), Some(1));
    supervisor.pause();
    assert_eq!(task.poll_with(Waker::noop().clone(), step), None);
    supervisor.resume();
    assert_eq!(task.poll_with(Waker::noop().clone(), step), Some(2));
}

#[test]
fn state_rules_on_a_plain_value() {
    let mut state = PausableState::Running;
    assert!(state.poll(Waker::noop().clone()));
    assert!(state.is_running());
    state.pause();
    assert!(state.is_pause_pending());
    assert!(state.resume().is_none());
    assert!(state.is_pause_pending());
    assert!(!state.poll(Waker::noop().clone()));
    assert!(state.is_paused());
    state.pause();
    assert!(state.is_paused());
    assert!(state.resume().is_some());
    assert!(state.is_running());
    assert!(state.resume().is_none());
}
