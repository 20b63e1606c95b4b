//! The refresh loop: it invokes the write callback, waits as the interval
//! says, and ends when nobody holds the shared state any more.
//!
//! The loop is driven from outside. `RefreshLoop::step` takes what has just
//! happened and the shared state, if it is still there, and returns what
//! the caller has to do next.

use crate::buffers::MetricsBuffer;
use crate::handle::{wait_for, wait_step, MetricsExporterHandle, WaitEvent, WaitState};
use vstd::prelude::*;

verus! {

/// Where a refresh loop stands.
#[derive(Clone, Copy, Debug, PartialEq, Eq)]
pub enum LoopState {
    /// At the top of an iteration, about to look for the shared state.
    Top,
    /// The write callback is running.
    Invoking,
    /// Between two refreshes.
    Waiting(WaitState),
    /// The loop has ended.
    Exited,
}

/// What has just happened.
#[derive(Clone, Copy, Debug, PartialEq, Eq)]
pub enum RefreshEvent {
    /// An iteration begins.
    Start,
    /// The write callback has returned and its snapshot is published.
    Invoked,
    /// The interval was set anew.
    Notified,
    /// The sleep ran out.
    Elapsed,
}

/// What the caller has to do next.
#[derive(Clone, Copy, Debug, PartialEq, Eq)]
pub enum RefreshAction {
    /// Acquire the write handle, run the callback on it, publish, then
    /// report `Invoked`.
    Invoke,
    /// Suspend until the interval changes, then report `Notified`.
    Park,
    /// Suspend for `secs` seconds or until the interval changes, then
    /// report `Elapsed` or `Notified`.
    Sleep { secs: u64 },
    /// Let go of the shared state and report `Start`.
    Restart,
    /// End the task.
    Exit,
    /// Nothing: the event answered nothing that the loop had asked for.
    Ignore,
}

/// The action that a wait state asks for.
pub open spec fn action_for(wait: WaitState) -> RefreshAction {
    match wait {
        WaitState::Parked => RefreshAction::Park,
        WaitState::Sleeping { secs } => RefreshAction::Sleep { secs },
        WaitState::Done => RefreshAction::Restart,
    }
}

/// The state that follows a wait state: a finished wait leads to the top
/// of the next iteration.
pub open spec fn state_for(wait: WaitState) -> LoopState {
    match wait {
        WaitState::Done => LoopState::Top,
        _ => LoopState::Waiting(wait),
    }
}

/// One step of the refresh loop. `interval_sec` is the interval in the
/// shared state, or `None` when the shared state is gone.
///
/// Without the shared state the loop ends. An iteration starts with an
/// invocation of the callback; after it the loop waits as the interval
/// says, and each event that ends a suspension moves the wait on. An
/// event that answers nothing is ignored.
pub open spec fn refresh_step(
    state: LoopState,
    interval_sec: Option<u64>,
    event: RefreshEvent,
) -> (LoopState, RefreshAction) {
    match (state, interval_sec, event) {
        (LoopState::Exited, _, _) => (LoopState::Exited, RefreshAction::Exit),
        (_, None, _) => (LoopState::Exited, RefreshAction::Exit),
        (LoopState::Top, Some(_), RefreshEvent::Start) => (
            LoopState::Invoking,
            RefreshAction::Invoke,
        ),
        (LoopState::Invoking, Some(interval), RefreshEvent::Invoked) => (
            state_for(wait_for(interval)),
            action_for(wait_for(interval)),
        ),
        (LoopState::Waiting(wait), Some(interval), RefreshEvent::Notified) => (
            state_for(wait_step(interval, wait, WaitEvent::Notified)),
            action_for(wait_step(interval, wait, WaitEvent::Notified)),
        ),
        (LoopState::Waiting(wait), Some(interval), RefreshEvent::Elapsed) => (
            state_for(wait_step(interval, wait, WaitEvent::Elapsed)),
            action_for(wait_step(interval, wait, WaitEvent::Elapsed)),
        ),
        _ => (state, RefreshAction::Ignore),
    }
}

/// The interval that a loop reads from the shared state, if it is there.
pub open spec fn interval_of(handle: Option<&MetricsExporterHandle>) -> Option<u64> {
    match handle {
        Some(h) => Some(h.interval()),
        None => None,
    }
}

/// The state of a loop after a sequence of events, with the shared state
/// there and its interval fixed.
pub open spec fn refresh_run(
    state: LoopState,
    interval_sec: u64,
    events: Seq<RefreshEvent>,
) -> LoopState
    decreases events.len(),
{
    if events.len() == 0 {
        state
    } else {
        refresh_step(
            refresh_run(state, interval_sec, events.drop_last()),
            Some(interval_sec),
            events.last(),
        ).0
    }
}

/// The number of invocations that a sequence of events asks for, with the
/// shared state there and its interval fixed.
pub open spec fn invocations(
    state: LoopState,
    interval_sec: u64,
    events: Seq<RefreshEvent>,
) -> nat
    decreases events.len(),
{
    if events.len() == 0 {
        0
    } else {
        let before = refresh_run(state, interval_sec, events.drop_last());
        let asked: nat = if refresh_step(before, Some(interval_sec), events.last()).1
            == RefreshAction::Invoke {
            1
        } else {
            0
        };
        invocations(state, interval_sec, events.drop_last()) + asked
    }
}

/// With the schedule switched off a parked loop stays parked: no event
/// makes it invoke the callback.
pub proof fn lemma_disabled_loop_stays_parked(events: Seq<RefreshEvent>)
    ensures
        refresh_run(LoopState::Waiting(WaitState::Parked), 0, events) == LoopState::Waiting(
            WaitState::Parked,
        ),
        invocations(LoopState::Waiting(WaitState::Parked), 0, events) == 0,
    decreases events.len(),
{
    if events.len() > 0 {
        lemma_disabled_loop_stays_parked(events.drop_last());
    }
}

/// The invocations that a loop still owes once the schedule is switched
/// off: the one that is due at the top of an iteration, or after a sleep
/// that may run out before the loop hears of the change.
pub open spec fn owed_when_disabled(state: LoopState) -> nat {
    match state {
        LoopState::Top => 1,
        LoopState::Waiting(WaitState::Sleeping { secs }) => 1,
        LoopState::Waiting(WaitState::Done) => 1,
        _ => 0,
    }
}

/// With the schedule switched off the callback is invoked once more at
/// most, whatever the loop was doing and whatever happens: no invocation
/// in a parked loop or after the callback, one where an invocation was
/// due already or the sleep runs out first.
pub proof fn lemma_disabled_loop_invokes_once_at_most(state: LoopState, events: Seq<RefreshEvent>)
    ensures
        invocations(state, 0, events) + owed_when_disabled(refresh_run(state, 0, events))
            <= owed_when_disabled(state),
        invocations(state, 0, events) <= 1,
    decreases events.len(),
{
    if events.len() > 0 {
        lemma_disabled_loop_invokes_once_at_most(state, events.drop_last());
    }
}

/// Switching the schedule off parks the loop: after its callback, and when
/// it is notified in its sleep, the loop parks and asks for no invocation.
pub proof fn lemma_disabling_parks_the_loop(secs: u64)
    ensures
        refresh_step(LoopState::Invoking, Some(0), RefreshEvent::Invoked) == (
            LoopState::Waiting(WaitState::Parked),
            RefreshAction::Park,
        ),
        refresh_step(
            LoopState::Waiting(WaitState::Sleeping { secs }),
            Some(0),
            RefreshEvent::Notified,
        ) == (LoopState::Waiting(WaitState::Parked), RefreshAction::Park),
{
}

/// Switching the schedule on again resumes the same loop: notified of the
/// new interval it sleeps that long, and then invokes the callback.
pub proof fn lemma_enabling_resumes_the_loop(interval_sec: u64)
    requires
        interval_sec > 0,
    ensures
        ({
            let woken = refresh_step(
                LoopState::Waiting(WaitState::Parked),
                Some(interval_sec),
                RefreshEvent::Notified,
            );
            let slept = refresh_step(woken.0, Some(interval_sec), RefreshEvent::Elapsed);
            let started = refresh_step(slept.0, Some(interval_sec), RefreshEvent::Start);
            &&& woken == (
                LoopState::Waiting(WaitState::Sleeping { secs: interval_sec }),
                RefreshAction::Sleep { secs: interval_sec },
            )
            &&& slept == (LoopState::Top, RefreshAction::Restart)
            &&& started == (LoopState::Invoking, RefreshAction::Invoke)
        }),
{
}

/// A loop that is notified in its sleep does not wait the sleep out: with
/// a schedule still set, the next invocation is due at once, however long
/// the sleep was to last.
pub proof fn lemma_notified_sleeper_wakes_at_once(secs: u64, interval_sec: u64)
    requires
        interval_sec > 0,
    ensures
        ({
            let woken = refresh_step(
                LoopState::Waiting(WaitState::Sleeping { secs }),
                Some(interval_sec),
                RefreshEvent::Notified,
            );
            let started = refresh_step(woken.0, Some(interval_sec), RefreshEvent::Start);
            &&& woken == (LoopState::Top, RefreshAction::Restart)
            &&& started == (LoopState::Invoking, RefreshAction::Invoke)
        }),
{
}

/// Once the shared state is gone the loop ends, and it invokes nothing
/// after that.
pub proof fn lemma_loop_ends_without_shared_state(
    state: LoopState,
    event: RefreshEvent,
    interval_sec: Option<u64>,
    later: RefreshEvent,
)
    ensures
        refresh_step(state, None, event) == (LoopState::Exited, RefreshAction::Exit),
        refresh_step(LoopState::Exited, interval_sec, later) == (
            LoopState::Exited,
            RefreshAction::Exit,
        ),
{
}

/// The capability to start the refresh loop. Starting consumes it.
pub struct MetricsWriter {
    _private: (),
}

/// A refresh loop.
pub struct RefreshLoop {
    state: LoopState,
}

impl View for RefreshLoop {
    type V = LoopState;

    closed spec fn view(&self) -> LoopState {
        self.state
    }
}

impl MetricsWriter {
    pub(crate) fn new() -> Self {
        MetricsWriter { _private: () }
    }

    /// Starts the refresh loop: it stands at the top of its first
    /// iteration.
    pub fn spawn(self) -> (refresh: RefreshLoop)
        ensures
            refresh@ == LoopState::Top,
    {
        RefreshLoop { state: LoopState::Top }
    }
}

fn action_of(wait: WaitState) -> (action: RefreshAction)
    ensures
        action == action_for(wait),
{
    match wait {
        WaitState::Parked => RefreshAction::Park,
        WaitState::Sleeping { secs } => RefreshAction::Sleep { secs },
        WaitState::Done => RefreshAction::Restart,
    }
}

fn state_of(wait: WaitState) -> (state: LoopState)
    ensures
        state == state_for(wait),
{
    match wait {
        WaitState::Done => LoopState::Top,
        _ => LoopState::Waiting(wait),
    }
}

impl RefreshLoop {
    /// Where the loop stands.
    pub fn state(&self) -> (state: LoopState)
        ensures
            state == self@,
    {
        self.state
    }

    /// Performs the invocation that the loop has asked for: one refresh of
    /// the snapshot by `write`, after which the loop waits as the interval
    /// says. A loop that has asked for no invocation is left alone, and so
    /// are the buffers.
    pub fn invoke<F>(&mut self, handle: &mut MetricsExporterHandle, write: F) -> (action:
        RefreshAction) where F: FnOnce(&mut MetricsBuffer)
        requires
            forall|buffer: &mut MetricsBuffer|
                buffer@ == Seq::<char>::empty() ==> #[trigger] write.requires((buffer,)),
        ensures
            final(handle).interval() == old(handle).interval(),
            old(self)@ != LoopState::Invoking ==> final(self)@ == old(self)@,
            old(self)@ != LoopState::Invoking ==> action == RefreshAction::Ignore,
            old(self)@ != LoopState::Invoking
                ==> final(handle).buffer_pair() == old(handle).buffer_pair(),
            old(self)@ == LoopState::Invoking ==> (final(self)@, action) == refresh_step(
                LoopState::Invoking,
                Some(old(handle).interval()),
                RefreshEvent::Invoked,
            ),
            old(self)@ == LoopState::Invoking && old(handle).buffer_pair().writing()
                ==> final(handle).buffer_pair().published()
                == old(handle).buffer_pair().published(),
            old(self)@ == LoopState::Invoking && !old(handle).buffer_pair().writing()
                ==> exists|buffer: &mut MetricsBuffer|
                buffer@ == Seq::<char>::empty() && #[trigger] write.ensures((buffer,), ())
                    && final(handle).buffer_pair().published() == final(buffer)@,
    {
        match self.state {
            LoopState::Invoking => {
                handle.buffers_mut().refresh(write);
                self.step(Some(&*handle), RefreshEvent::Invoked)
            },
            _ => RefreshAction::Ignore,
        }
    }

    /// Takes one step of the loop. `handle` is the shared state, or `None`
    /// when nobody holds it any more.
    pub fn step(&mut self, handle: Option<&MetricsExporterHandle>, event: RefreshEvent) -> (action:
        RefreshAction)
        ensures
            (final(self)@, action) == refresh_step(old(self)@, interval_of(handle), event),
    {
        let state = self.state;
        if let LoopState::Exited = state {
            return RefreshAction::Exit;
        }
        let handle = match handle {
            Some(handle) => handle,
            None => {
                self.state = LoopState::Exited;
                return RefreshAction::Exit;
            },
        };
        match (state, event) {
            (LoopState::Top, RefreshEvent::Start) => {
                self.state = LoopState::Invoking;
                RefreshAction::Invoke
            },
            (LoopState::Invoking, RefreshEvent::Invoked) => {
                let wait = handle.begin_wait();
                self.state = state_of(wait);
                action_of(wait)
            },
            (LoopState::Waiting(wait), RefreshEvent::Notified) => {
                let wait = handle.wait(wait, WaitEvent::Notified);
                self.state = state_of(wait);
                action_of(wait)
            },
            (LoopState::Waiting(wait), RefreshEvent::Elapsed) => {
                let wait = handle.wait(wait, WaitEvent::Elapsed);
                self.state = state_of(wait);
                action_of(wait)
            },
            _ => RefreshAction::Ignore,
        }
    }
}

} // verus!
