//! Cooperative pausing of long-running work.
//!
//! A unit of work is wrapped in a [`PausableFuture`]. Every progress check of the
//! wrapper first looks at a small state cell that it shares with any number of
//! [`PausableFutureSupervisor`] handles. While the cell says `Running` the check
//! is passed to the wrapped work; once a pause was requested the check reports
//! "no progress" and remembers the waker that has to be invoked when a
//! supervisor resumes the work. Work that is already past its last check is
//! never interrupted.
//!
//! The rules of the cell are the methods of [`PausableState`]; they are stated
//! over the spec functions `after_pause`, `after_resume` and `after_poll`, and
//! the laws at the end of this file are proved from those.
use std::sync::Arc;
use std::sync::Mutex;
use std::sync::MutexGuard;
use std::task::Waker;
use vstd::prelude::*;

verus! {

/// `std::task::Waker`, carried through as an opaque value.
#[verifier::external_type_specification]
#[verifier::external_body]
pub struct ExWaker(Waker);

/// `std::sync::Mutex`, opaque: nothing is said of what a shared cell holds at
/// any moment, because every other handle may change it.
#[verifier::external_type_specification]
#[verifier::external_body]
#[verifier::reject_recursive_types(T)]
pub struct ExMutex<T: ?Sized>(Mutex<T>);

/// `std::sync::MutexGuard`, opaque.
#[verifier::external_type_specification]
#[verifier::external_body]
#[verifier::reject_recursive_types(T)]
pub struct ExMutexGuard<'a, T: ?Sized + 'a>(MutexGuard<'a, T>);

/// The state that a pausable task shares with its supervisors.
pub enum PausableState {
    /// Progress checks reach the wrapped work.
    Running,
    /// The task has observed a pause request; the waker reschedules it.
    Paused(Waker),
    /// A pause was requested and the task has not been checked since.
    PausePending,
}

/// What can happen to a [`PausableState`].
pub enum TaskEvent {
    /// A supervisor asked for a pause.
    Pause,
    /// A supervisor asked to resume.
    Resume,
    /// The task was checked for progress, with the waker of that check.
    Poll(Waker),
}

impl PausableState {
    /// Whether a progress check in this state is passed to the wrapped work.
    pub open spec fn admits_progress(self) -> bool {
        self is Running
    }

    /// The state after a pause request.
    pub open spec fn after_pause(self) -> PausableState {
        match self {
            PausableState::Running => PausableState::PausePending,
            other => other,
        }
    }

    /// The state after a resume request.
    pub open spec fn after_resume(self) -> PausableState {
        match self {
            PausableState::Paused(_) => PausableState::Running,
            other => other,
        }
    }

    /// The waker that a resume request in this state has to invoke.
    pub open spec fn resume_handle(self) -> Option<Waker> {
        match self {
            PausableState::Paused(waker) => Some(waker),
            _ => None,
        }
    }

    /// The state after a progress check made with `waker`.
    pub open spec fn after_poll(self, waker: Waker) -> PausableState {
        match self {
            PausableState::Running => PausableState::Running,
            _ => PausableState::Paused(waker),
        }
    }

    /// The state after one event.
    pub open spec fn after(self, event: TaskEvent) -> PausableState {
        match event {
            TaskEvent::Pause => self.after_pause(),
            TaskEvent::Resume => self.after_resume(),
            TaskEvent::Poll(waker) => self.after_poll(waker),
        }
    }

    /// The state after a sequence of events, first event first.
    pub open spec fn after_all(self, events: Seq<TaskEvent>) -> PausableState
        decreases events.len(),
    {
        if events.len() == 0 {
            self
        } else {
            self.after(events[0]).after_all(events.drop_first())
        }
    }

    /// How many progress checks of `events` reach the wrapped work when the
    /// sequence starts in this state.
    pub open spec fn progress(self, events: Seq<TaskEvent>) -> nat
        decreases events.len(),
    {
        if events.len() == 0 {
            0
        } else {
            let here: nat = if events[0] is Poll && self.admits_progress() {
                1
            } else {
                0
            };
            here + self.after(events[0]).progress(events.drop_first())
        }
    }

    /// Requests a pause: `Running` becomes `PausePending`, any other state stays.
    pub fn pause(&mut self)
        ensures
            *final(self) == old(self).after_pause(),
    {
        let running = match self {
            PausableState::Running => true,
            _ => false,
        };
        if running {
            *self = PausableState::PausePending;
        }
    }

    /// Requests to resume: `Paused` becomes `Running` and its waker is handed
    /// out to be invoked once; any other state stays and nothing is handed out.
    pub fn resume(&mut self) -> (woken: Option<Waker>)
        ensures
            *final(self) == old(self).after_resume(),
            woken == old(self).resume_handle(),
    {
        let mut previous = PausableState::Running;
        std::mem::swap(self, &mut previous);
        match previous {
            PausableState::Paused(waker) => Some(waker),
            other => {
                *self = other;
                None
            },
        }
    }

    /// One progress check: returns whether the check is passed to the wrapped
    /// work. When it is not, the state is `Paused` with the waker of this check.
    pub fn poll(&mut self, waker: Waker) -> (forward: bool)
        ensures
            forward == old(self).admits_progress(),
            *final(self) == old(self).after_poll(waker),
    {
        let running = match self {
            PausableState::Running => true,
            _ => false,
        };
        if !running {
            *self = PausableState::Paused(waker);
        }
        running
    }

    /// Whether progress checks currently reach the wrapped work.
    pub fn is_running(&self) -> (running: bool)
        ensures
            running == self.admits_progress(),
    {
        match self {
            PausableState::Running => true,
            _ => false,
        }
    }

    /// Whether the task has observed a pause request.
    pub fn is_paused(&self) -> (paused: bool)
        ensures
            paused == (self is Paused),
    {
        match self {
            PausableState::Paused(_) => true,
            _ => false,
        }
    }

    /// Whether a pause was requested that the task has not observed yet.
    pub fn is_pause_pending(&self) -> (pending: bool)
        ensures
            pending == (self is PausePending),
    {
        match self {
            PausableState::PausePending => true,
            _ => false,
        }
    }
}

/// The state with which a shared cell was created.
pub uninterp spec fn initial_state(cell: Mutex<PausableState>) -> PausableState;

/// `Mutex::new`: a fresh cell. The contract records the value it was created
/// with, which stays true of the cell whatever is stored in it later.
#[verifier::external_body]
fn new_cell(initial: PausableState) -> (cell: Mutex<PausableState>)
    ensures
        initial_state(cell) == initial,
{
    Mutex::new(initial)
}

/// The cell that a guard gives access to.
pub uninterp spec fn guarded_cell(guard: MutexGuard<PausableState>) -> Mutex<PausableState>;

/// `Mutex::lock`: waits for the cell and returns its guard. A cell poisoned by
/// a panicking holder is taken over as it is, since every state is valid. The
/// guard is the guard of this cell; nothing is promised of the state found.
#[verifier::external_body]
pub(crate) fn lock(cell: &Mutex<PausableState>) -> (guard: MutexGuard<'_, PausableState>)
    ensures
        guarded_cell(guard) == *cell,
{
    cell.lock().unwrap_or_else(std::sync::PoisonError::into_inner)
}

/// The state behind a held guard. While a guard is held nobody else reaches
/// the cell, so the state is what was found at the lock and what the holder
/// has written since.
pub uninterp spec fn guarded_state(guard: MutexGuard<PausableState>) -> PausableState;

/// `DerefMut::deref_mut` of `MutexGuard`: the state behind a held guard. The
/// reference starts at the state that the guard holds, what is written through
/// it is what the guard holds afterwards, and the guard stays the guard of
/// its cell.
#[verifier::external_body]
pub(crate) fn state_mut<'a, 'b>(guard: &'a mut MutexGuard<'b, PausableState>) -> (state:
    &'a mut PausableState)
    ensures
        *state == guarded_state(*old(guard)),
        *final(state) == guarded_state(*final(guard)),
        guarded_cell(*final(guard)) == guarded_cell(*old(guard)),
{
    &mut **guard
}

/// `Waker::wake`: asks the executor to check the task again.
#[verifier::external_body]
pub(crate) fn wake(waker: Waker) {
    waker.wake()
}

/// A handle on the state of one pausable task. Any number of handles may exist.
pub struct PausableFutureSupervisor {
    state: Arc<Mutex<PausableState>>,
}

impl PausableFutureSupervisor {
    /// The cell that this handle refers to.
    pub closed spec fn cell(self) -> Mutex<PausableState> {
        *self.state
    }

    /// A handle on the given cell.
    pub fn new(state: &Arc<Mutex<PausableState>>) -> (supervisor: Self)
        ensures
            supervisor.cell() == **state,
    {
        Self { state: Arc::clone(state) }
    }

    /// Requests a pause. It takes effect at the next progress check of the
    /// task. The cell of this handle is locked, and the state that the guard
    /// holds when it is given up is `after_pause` of the state that it held
    /// when it was taken.
    pub fn pause(&mut self)
        ensures
            final(self).cell() == old(self).cell(),
            exists|held: MutexGuard<PausableState>, left: MutexGuard<PausableState>|
                {
                    &&& guarded_cell(held) == old(self).cell()
                    &&& guarded_cell(left) == old(self).cell()
                    &&& #[trigger] guarded_state(left) == (#[trigger] guarded_state(
                        held,
                    )).after_pause()
                },
    {
        let mut guard = lock(&self.state);
        let ghost held = guard;
        state_mut(&mut guard).pause();
        assert(guarded_state(guard) == guarded_state(held).after_pause());
    }

    /// Requests to resume. The cell of this handle is locked, and the state
    /// that the guard holds when it is given up is `after_resume` of the state
    /// that it held when it was taken. The waker of a paused task is invoked
    /// after the cell has been released.
    pub fn resume(&mut self)
        ensures
            final(self).cell() == old(self).cell(),
            exists|held: MutexGuard<PausableState>, left: MutexGuard<PausableState>|
                {
                    &&& guarded_cell(held) == old(self).cell()
                    &&& guarded_cell(left) == old(self).cell()
                    &&& #[trigger] guarded_state(left) == (#[trigger] guarded_state(
                        held,
                    )).after_resume()
                },
    {
        let woken = {
            let mut guard = lock(&self.state);
            let ghost held = guard;
            let woken = state_mut(&mut guard).resume();
            assert(guarded_state(guard) == guarded_state(held).after_resume());
            woken
        };
        if let Some(waker) = woken {
            wake(waker);
        }
    }

    /// Locks the cell of this handle for a caller in this crate that applies
    /// several rules at once. The guard returned is the guard of that cell.
    pub(crate) fn lock(&self) -> (guard: MutexGuard<'_, PausableState>)
        ensures
            guarded_cell(guard) == self.cell(),
    {
        lock(&self.state)
    }
}

impl Clone for PausableFutureSupervisor {
    /// One more handle on the same cell.
    fn clone(&self) -> (copy: Self)
        ensures
            copy.cell() == self.cell(),
    {
        Self { state: Arc::clone(&self.state) }
    }
}

/// Work of type `F` together with the state cell that its progress checks consult.
pub struct PausableFuture<F> {
    future: F,
    state: Arc<Mutex<PausableState>>,
}

impl<F> PausableFuture<F> {
    /// The wrapped work.
    pub closed spec fn inner(self) -> F {
        self.future
    }

    /// The cell that the progress checks consult.
    pub closed spec fn cell(self) -> Mutex<PausableState> {
        *self.state
    }

    /// Wraps `future`. The second component is the shared cell, created as
    /// `Running`, from which supervisors are made.
    pub fn new(future: F) -> (wrapped: (Self, Arc<Mutex<PausableState>>))
        ensures
            wrapped.0.inner() == future,
            wrapped.0.cell() == *wrapped.1,
            initial_state(*wrapped.1) == PausableState::Running,
    {
        let state = Arc::new(new_cell(PausableState::Running));
        let handle = Arc::clone(&state);
        (Self { future, state }, handle)
    }

    /// One progress check. While the task runs, `advance` is applied to the
    /// wrapped work and its result returned; otherwise the wrapped work is not
    /// touched, the waker is kept for the next resume, and `None` says that
    /// there is no progress yet. The cell is locked for the check: the state
    /// that the guard holds when it is given up is `after_poll` of the state
    /// that it held when it was taken, and the work is advanced exactly when
    /// that state admitted progress.
    pub fn poll_with<R, A: FnOnce(&mut F) -> R>(&mut self, waker: Waker, advance: A) -> (progress:
        Option<R>)
        requires
            forall|work: &mut F| call_requires(advance, (work,)),
        ensures
            final(self).cell() == old(self).cell(),
            progress is None ==> final(self).inner() == old(self).inner(),
            progress is Some ==> exists|work: &mut F|
                {
                    &&& *work == old(self).inner()
                    &&& *final(work) == final(self).inner()
                    &&& #[trigger] call_ensures(advance, (work,), progress->0)
                },
            exists|held: MutexGuard<PausableState>, left: MutexGuard<PausableState>|
                {
                    &&& guarded_cell(held) == old(self).cell()
                    &&& guarded_cell(left) == old(self).cell()
                    &&& #[trigger] guarded_state(left) == (#[trigger] guarded_state(
                        held,
                    )).after_poll(waker)
                    &&& progress is Some <==> guarded_state(held).admits_progress()
                },
    {
        let forward = {
            let mut guard = lock(&self.state);
            let ghost held = guard;
            let forward = state_mut(&mut guard).poll(waker);
            assert(guarded_state(guard) == guarded_state(held).after_poll(waker));
            assert(forward == guarded_state(held).admits_progress());
            forward
        };
        if forward {
            let result = advance(&mut self.future);
            assert(exists|work: &mut F|
                {
                    &&& *work == old(self).inner()
                    &&& *final(work) == self.inner()
                    &&& #[trigger] call_ensures(advance, (work,), result)
                });
            let progress = Some(result);
            proof {
                let done = choose|work: &mut F|
                    {
                        &&& *work == old(self).inner()
                        &&& *final(work) == self.inner()
                        &&& #[trigger] call_ensures(advance, (work,), result)
                    };
                assert(call_ensures(advance, (done,), progress->0));
            }
            progress
        } else {
            None
        }
    }

    /// Gives the wrapped work back.
    pub fn into_inner(self) -> (future: F)
        ensures
            future == self.inner(),
    {
        self.future
    }
}

/// Wraps `future` and makes the first supervisor of its state.
pub fn supervised_task<F>(future: F) -> (pair: (PausableFuture<F>, PausableFutureSupervisor))
    ensures
        pair.0.inner() == future,
        pair.0.cell() == pair.1.cell(),
        initial_state(pair.1.cell()) == PausableState::Running,
{
    let (task, state) = PausableFuture::new(future);
    let supervisor = PausableFutureSupervisor::new(&state);
    (task, supervisor)
}

/// Whether no event of the sequence is a resume request.
pub open spec fn without_resume(events: Seq<TaskEvent>) -> bool {
    forall|i: int| 0 <= i < events.len() ==> !(#[trigger] events[i] is Resume)
}

/// Whether no event of the sequence is a pause request.
pub open spec fn without_pause(events: Seq<TaskEvent>) -> bool {
    forall|i: int| 0 <= i < events.len() ==> !(#[trigger] events[i] is Pause)
}

/// How many events of the sequence are progress checks.
pub open spec fn checks(events: Seq<TaskEvent>) -> nat
    decreases events.len(),
{
    if events.len() == 0 {
        0
    } else {
        let here: nat = if events[0] is Poll {
            1
        } else {
            0
        };
        here + checks(events.drop_first())
    }
}

/// A second pause request changes nothing.
pub proof fn law_pause_is_idempotent(state: PausableState)
    ensures
        state.after_pause().after_pause() == state.after_pause(),
{
}

/// A state that admits no progress keeps doing so, and lets no check through,
/// as long as nobody resumes.
pub proof fn law_suspended_until_resumed(state: PausableState, events: Seq<TaskEvent>)
    requires
        !state.admits_progress(),
        without_resume(events),
    ensures
        state.progress(events) == 0,
        !state.after_all(events).admits_progress(),
    decreases events.len(),
{
    if events.len() > 0 {
        let rest = events.drop_first();
        assert(!(events[0] is Resume));
        assert forall|i: int| 0 <= i < rest.len() implies !(#[trigger] rest[i] is Resume) by {
            assert(rest[i] == events[i + 1]);
        }
        law_suspended_until_resumed(state.after(events[0]), rest);
    }
}

/// Once a pause has been requested, in whatever state, no progress check
/// reaches the wrapped work until a resume is requested: not even the first
/// check after the request, and however many checks and further pause
/// requests follow.
pub proof fn law_pause_stops_progress(state: PausableState, events: Seq<TaskEvent>)
    requires
        without_resume(events),
    ensures
        state.after_pause().progress(events) == 0,
        !state.after_pause().after_all(events).admits_progress(),
{
    law_suspended_until_resumed(state.after_pause(), events);
}

/// A resume request that arrives after a pause request, but before the task
/// was checked again, is ignored: nothing is woken, and the next check still
/// suspends the task, with the waker of that check.
pub proof fn law_resume_before_suspension_is_ignored(waker: Waker)
    ensures
        PausableState::Running.after_pause() == PausableState::PausePending,
        PausableState::PausePending.after_resume() == PausableState::PausePending,
        PausableState::PausePending.resume_handle() is None,
        !PausableState::PausePending.after_resume().admits_progress(),
        PausableState::PausePending.after_resume().after_poll(waker) == PausableState::Paused(
            waker,
        ),
{
}

/// A resume request on a suspended task hands out exactly the waker of the
/// check that suspended it, and the next check reaches the wrapped work.
pub proof fn law_resume_restores_progress(state: PausableState, suspended_with: Waker, next: Waker)
    requires
        !state.admits_progress(),
    ensures
        state.after_poll(suspended_with).resume_handle() == Some(suspended_with),
        state.after_poll(suspended_with).after_resume() == PausableState::Running,
        state.after_poll(suspended_with).after_resume().progress(seq![TaskEvent::Poll(next)]) == 1,
{
    let running = PausableState::Running;
    let events = seq![TaskEvent::Poll(next)];
    assert(events.drop_first().len() == 0);
    assert(running.after(events[0]).progress(events.drop_first()) == 0);
}

/// While nobody asks for a pause, every progress check of a running task
/// reaches the wrapped work.
pub proof fn law_running_passes_every_check(events: Seq<TaskEvent>)
    requires
        without_pause(events),
    ensures
        PausableState::Running.progress(events) == checks(events),
        PausableState::Running.after_all(events) == PausableState::Running,
    decreases events.len(),
{
    if events.len() > 0 {
        let rest = events.drop_first();
        assert(!(events[0] is Pause));
        assert forall|i: int| 0 <= i < rest.len() implies !(#[trigger] rest[i] is Pause) by {
            assert(rest[i] == events[i + 1]);
        }
        law_running_passes_every_check(rest);
    }
}

} // verus!
