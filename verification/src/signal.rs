//! A one-shot completion signal: one trigger, any number of receivers.
//!
//! The trigger side owns the state of the signal. A receiver is an
//! identity; it registers the waker of the task that waits for it, and
//! firing hands every registered waker out to be woken.

use std::collections::HashMap;
use std::task::Waker;
use vstd::prelude::*;
use vstd::std_specs::hash::*;

verus! {

broadcast use vstd::std_specs::hash::group_hash_axioms;

/// `std::task::Waker`: the handle with which a task is woken. Its inside
/// is not looked at.
#[verifier::external_type_specification]
#[verifier::external_body]
pub struct ExWaker(Waker);

/// `Waker::wake_by_ref` of std wakes the task of the waker. Nothing is
/// claimed of it.
pub assume_specification[ Waker::wake_by_ref ](waker: &Waker);

/// `Waker::will_wake` of std says, as well as it can tell, whether two
/// wakers wake the same task. Nothing is claimed of the answer.
pub assume_specification[ Waker::will_wake ](waker: &Waker, other: &Waker) -> bool;

/// `Waker::clone` of std makes another waker for the same task. Nothing is
/// claimed of the copy.
pub assume_specification[ <Waker as Clone>::clone ](waker: &Waker) -> Waker;

/// What polling a receiver finds.
#[derive(Clone, Copy, Debug, PartialEq, Eq)]
pub enum Polled {
    /// The signal has fired.
    Ready,
    /// The signal has not fired; the waker is registered.
    Pending,
}

impl Polled {
    pub fn is_ready(&self) -> (ready: bool)
        ensures
            ready == (*self == Polled::Ready),
    {
        match self {
            Polled::Ready => true,
            Polled::Pending => false,
        }
    }

    pub fn is_pending(&self) -> (pending: bool)
        ensures
            pending == (*self == Polled::Pending),
    {
        match self {
            Polled::Ready => false,
            Polled::Pending => true,
        }
    }
}

/// The state of a signal: whether it has fired, the receivers that have a
/// waker registered, and the identity of the next receiver.
pub struct SignalView {
    pub complete: bool,
    pub waiters: Set<usize>,
    pub next_id: usize,
}

/// The identity after `id`.
pub open spec fn id_after(id: usize) -> usize {
    if id == usize::MAX {
        0
    } else {
        (id + 1) as usize
    }
}

/// A signal that has not fired, with no waker registered. Its first
/// receiver has identity 0.
pub open spec fn fresh_signal() -> SignalView {
    SignalView { complete: false, waiters: Set::empty(), next_id: 1 }
}

/// Firing: the signal is complete and the registered wakers leave it. A
/// signal that has fired stays as it is.
pub open spec fn fired(signal: SignalView) -> SignalView {
    if signal.complete {
        signal
    } else {
        SignalView { complete: true, waiters: Set::empty(), next_id: signal.next_id }
    }
}

/// Polling receiver `id`: before the signal fires its waker is registered,
/// once and under its own identity.
pub open spec fn polled(signal: SignalView, id: usize) -> SignalView {
    if signal.complete {
        signal
    } else {
        SignalView { waiters: signal.waiters.insert(id), ..signal }
    }
}

/// Making one more receiver: it gets `signal.next_id`.
pub open spec fn subscribed(signal: SignalView) -> SignalView {
    SignalView { next_id: id_after(signal.next_id), ..signal }
}

/// Dropping receiver `id`: before the signal fires its waker leaves the
/// signal.
pub open spec fn released(signal: SignalView, id: usize) -> SignalView {
    if signal.complete {
        signal
    } else {
        SignalView { waiters: signal.waiters.remove(id), ..signal }
    }
}

/// The receivers whose wakers a firing hands out: all waiters the first
/// time, none ever after.
pub open spec fn woken_by(signal: SignalView) -> Set<usize> {
    if signal.complete {
        Set::empty()
    } else {
        signal.waiters
    }
}

/// One operation on a signal.
pub enum SignalOp {
    Fire,
    Poll(usize),
    Subscribe,
    Release(usize),
}

/// The signal after one operation.
pub open spec fn applied(signal: SignalView, op: SignalOp) -> SignalView {
    match op {
        SignalOp::Fire => fired(signal),
        SignalOp::Poll(id) => polled(signal, id),
        SignalOp::Subscribe => subscribed(signal),
        SignalOp::Release(id) => released(signal, id),
    }
}

/// The signal after a sequence of operations.
pub open spec fn applied_all(signal: SignalView, ops: Seq<SignalOp>) -> SignalView
    decreases ops.len(),
{
    if ops.len() == 0 {
        signal
    } else {
        applied(applied_all(signal, ops.drop_last()), ops.last())
    }
}

/// Firing twice is firing once: the second firing changes nothing and
/// hands out no waker.
pub proof fn lemma_fire_is_idempotent(signal: SignalView)
    ensures
        fired(fired(signal)) == fired(signal),
        woken_by(fired(signal)) == Set::<usize>::empty(),
        fired(signal).complete,
{
}

/// The first firing hands out the waker of every receiver that waits, and
/// leaves none registered.
pub proof fn lemma_fire_wakes_every_waiter(signal: SignalView)
    requires
        !signal.complete,
    ensures
        woken_by(signal) == signal.waiters,
        fired(signal).waiters == Set::<usize>::empty(),
{
}

/// A signal that has fired stays fired, whatever is done with it: every
/// receiver, made before the firing or after it, finds it ready, and no
/// operation registers a waker any more.
pub proof fn lemma_fired_stays_fired(signal: SignalView, ops: Seq<SignalOp>)
    requires
        signal.complete,
    ensures
        applied_all(signal, ops).complete,
        applied_all(signal, ops).waiters == signal.waiters,
        forall|id: usize| polled(applied_all(signal, ops), id) == applied_all(signal, ops),
    decreases ops.len(),
{
    if ops.len() > 0 {
        lemma_fired_stays_fired(signal, ops.drop_last());
    }
}

/// Whether every receiver that waits has an identity that was handed out
/// before: the identity of the next receiver is then in nobody's use.
pub open spec fn waiters_are_known(signal: SignalView) -> bool {
    forall|id: usize| signal.waiters.contains(id) ==> id < signal.next_id
}

/// The receivers that wait stay known as long as identities are left: a
/// new signal knows its waiters, and so does a signal after any operation
/// of a receiver that it has made.
pub proof fn lemma_waiters_stay_known(signal: SignalView, op: SignalOp)
    requires
        waiters_are_known(signal),
        signal.next_id < usize::MAX,
        match op {
            SignalOp::Poll(id) => id < signal.next_id,
            SignalOp::Release(id) => id < signal.next_id,
            _ => true,
        },
    ensures
        waiters_are_known(fresh_signal()),
        waiters_are_known(applied(signal, op)),
        !signal.waiters.contains(signal.next_id),
{
}

/// A receiver that is made, polled and given up before the signal fires
/// leaves no waker behind: the waiters are those that were there before.
pub proof fn lemma_released_receiver_leaves_no_waiter(signal: SignalView)
    requires
        !signal.complete,
        !signal.waiters.contains(signal.next_id),
    ensures
        released(polled(subscribed(signal), signal.next_id), signal.next_id).waiters
            == signal.waiters,
        released(subscribed(signal), signal.next_id).waiters == signal.waiters,
{
    let id = signal.next_id;
    assert(signal.waiters.insert(id).remove(id) =~= signal.waiters);
    assert(signal.waiters.remove(id) =~= signal.waiters);
}

/// Giving up one receiver leaves the wakers of the others registered.
pub proof fn lemma_release_spares_the_others(signal: SignalView, id: usize, other: usize)
    requires
        other != id,
    ensures
        released(signal, id).waiters.contains(other) == signal.waiters.contains(other),
{
}

/// Polling a receiver again registers nothing twice.
pub proof fn lemma_poll_registers_once(signal: SignalView, id: usize)
    ensures
        polled(polled(signal, id), id) == polled(signal, id),
{
    assert(signal.waiters.insert(id).insert(id) =~= signal.waiters.insert(id));
}

/// The firing side of a signal, with the state of the signal.
pub struct Trigger {
    complete: bool,
    wakers: HashMap<usize, Waker>,
    next_id: usize,
}

/// A waiting side of a signal.
#[derive(Debug)]
pub struct TriggerReceiver {
    id: usize,
}

impl View for Trigger {
    type V = SignalView;

    closed spec fn view(&self) -> SignalView {
        SignalView {
            complete: self.complete,
            waiters: self.wakers@.dom(),
            next_id: self.next_id,
        }
    }
}

impl View for TriggerReceiver {
    type V = usize;

    closed spec fn view(&self) -> usize {
        self.id
    }
}

/// Creates a signal: its trigger and its first receiver.
pub fn trigger() -> (created: (Trigger, TriggerReceiver))
    ensures
        created.0@ == fresh_signal(),
        created.1@ == 0,
{
    let signal = Trigger { complete: false, wakers: HashMap::new(), next_id: 1 };
    assert(signal@.waiters =~= Set::empty());
    (signal, TriggerReceiver { id: 0 })
}

/// Wakes every waker in `wakers`.
pub fn wake_all(wakers: &HashMap<usize, Waker>) {
    for waker in wakers.values() {
        waker.wake_by_ref();
    }
}

impl Trigger {
    /// The registered wakers, by receiver.
    pub closed spec fn wakers(&self) -> Map<usize, Waker> {
        self.wakers@
    }

    /// The registered wakers are those of the waiters.
    pub proof fn lemma_wakers_of_waiters(&self)
        ensures
            self.wakers().dom() == self@.waiters,
    {
    }

    /// Whether the signal has fired.
    pub fn is_complete(&self) -> (complete: bool)
        ensures
            complete == self@.complete,
    {
        self.complete
    }

    /// The number of registered wakers.
    pub fn waiter_count(&self) -> (count: usize)
        ensures
            count == self@.waiters.len(),
    {
        self.wakers.len()
    }

    /// Fires the signal and hands out the wakers that were registered:
    /// all of them the first time, none ever after.
    pub fn fire(&mut self) -> (woken: HashMap<usize, Waker>)
        ensures
            final(self)@ == fired(old(self)@),
            woken@ == if old(self)@.complete {
                Map::<usize, Waker>::empty()
            } else {
                old(self).wakers()
            },
            woken@.dom() == woken_by(old(self)@),
    {
        let mut woken: HashMap<usize, Waker> = HashMap::new();
        if self.complete {
            return woken;
        }
        self.complete = true;
        std::mem::swap(&mut self.wakers, &mut woken);
        assert(self@.waiters =~= Set::empty());
        woken
    }

    /// Fires the signal and wakes every registered waker.
    pub fn trigger(&mut self)
        ensures
            final(self)@ == fired(old(self)@),
    {
        let woken = self.fire();
        wake_all(&woken);
    }
}

impl TriggerReceiver {
    /// The identity of the receiver.
    pub fn id(&self) -> (id: usize)
        ensures
            id == self@,
    {
        self.id
    }

    /// Makes one more receiver of `signal`, with an identity of its own.
    pub fn subscribe(&self, signal: &mut Trigger) -> (receiver: TriggerReceiver)
        ensures
            receiver@ == old(signal)@.next_id,
            final(signal)@ == subscribed(old(signal)@),
            final(signal).wakers() == old(signal).wakers(),
    {
        let id: usize = signal.next_id;
        signal.next_id = id.wrapping_add(1);
        TriggerReceiver { id }
    }

    /// Polls the receiver. Before the signal fires, a copy of `waker` is
    /// registered for this receiver, in place of the one it had registered
    /// before; a registered waker that wakes the same task stays.
    pub fn poll(&self, signal: &mut Trigger, waker: &Waker) -> (found: Polled)
        ensures
            found == if old(signal)@.complete {
                Polled::Ready
            } else {
                Polled::Pending
            },
            final(signal)@ == polled(old(signal)@, self@),
            forall|other: usize|
                other != self@ && old(signal).wakers().contains_key(other)
                    ==> final(signal).wakers()[other] == old(signal).wakers()[other],
            old(signal)@.complete ==> final(signal).wakers() == old(signal).wakers(),
    {
        if signal.complete {
            return Polled::Ready;
        }
        let keep = match signal.wakers.get(&self.id) {
            Some(registered) => waker.will_wake(registered),
            None => false,
        };
        if !keep {
            signal.wakers.insert(self.id, waker.clone());
        }
        assert(signal@.waiters =~= old(signal)@.waiters.insert(self.id));
        Polled::Pending
    }

    /// Gives the receiver up. Before the signal fires, its waker leaves
    /// the signal.
    pub fn release(self, signal: &mut Trigger)
        ensures
            final(signal)@ == released(old(signal)@, self@),
            forall|other: usize|
                other != self@ && old(signal).wakers().contains_key(other)
                    ==> final(signal).wakers()[other] == old(signal).wakers()[other],
            old(signal)@.complete ==> final(signal).wakers() == old(signal).wakers(),
    {
        if !signal.complete {
            signal.wakers.remove(&self.id);
            assert(signal@.waiters =~= old(signal)@.waiters.remove(self.id));
        }
    }
}

} // verus!
