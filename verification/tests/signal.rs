use futures_test::task::new_count_waker;
use pomfrit::signal;
use pomfrit::signal::Polled;

#[test]
fn correct_trigger_behaviour() {
    let (waker, wake_counter) = new_count_waker();

    let (mut trigger, receiver) = signal::trigger();
    let receiver = receiver.subscribe(&mut trigger);

    assert!(receiver.poll(&mut trigger, &waker).is_pending());
    assert_eq!(wake_counter.get(), 0);

    trigger.trigger();
    assert!(receiver.poll(&mut trigger, &waker).is_ready());
    assert_eq!(wake_counter.get(), 1);
}

#[test]
fn correct_trigger_behaviour_with_multiple_wakes() {
    let (waker, wake_counter) = new_count_waker();

    let (mut trigger, receiver) = signal::trigger();
    let receiver = receiver.subscribe(&mut trigger);

    assert!(receiver.poll(&mut trigger, &waker).is_pending());
    assert_eq!(wake_counter.get(), 0);

    assert!(receiver.poll(&mut trigger, &waker).is_pending());
    assert_eq!(wake_counter.get(), 0);

    trigger.trigger();
    assert!(receiver.poll(&mut trigger, &waker).is_ready());
    assert_eq!(wake_counter.get(), 1);
}

#[test]
fn new_signal_has_not_fired_and_has_no_waiter() {
    let (trigger, receiver) = signal::trigger();
    assert!(!trigger.is_complete());
    assert_eq!(trigger.waiter_count(), 0);
    assert_eq!(receiver.id(), 0);
}

#[test]
fn receivers_get_identities_of_their_own() {
    let (mut trigger, first) = signal::trigger();
    let second = first.subscribe(&mut trigger);
    let third = second.subscribe(&mut trigger);
    assert_eq!(first.id(), 0);
    assert_eq!(second.id(), 1);
    assert_eq!(third.id(), 2);
    assert_eq!(trigger.waiter_count(), 0);
}

#[test]
fn firing_twice_is_firing_once() {
    let (waker, wake_counter) = new_count_waker();
    let (mut trigger, receiver) = signal::trigger();

    assert_eq!(receiver.poll(&mut trigger, &waker), Polled::Pending);
    assert_eq!(trigger.waiter_count(), 1);

    trigger.trigger();
    assert!(trigger.is_complete());
    assert_eq!(trigger.waiter_count(), 0);
    assert_eq!(wake_counter.get(), 1);

    trigger.trigger();
    assert!(trigger.is_complete());
    assert_eq!(trigger.waiter_count(), 0);
    assert_eq!(wake_counter.get(), 1);
    assert_eq!(receiver.poll(&mut trigger, &waker), Polled::Ready);
    assert_eq!(wake_counter.get(), 1);
}

#[test]
fn second_fire_hands_out_no_waker() {
    let (waker, _wake_counter) = new_count_waker();
    let (mut trigger, first) = signal::trigger();
    let second = first.subscribe(&mut trigger);
    assert!(first.poll(&mut trigger, &waker).is_pending());
    assert!(second.poll(&mut trigger, &waker).is_pending());

    let woken = trigger.fire();
    assert_eq!(woken.len(), 2);
    assert!(woken.contains_key(&0));
    assert!(woken.contains_key(&1));

    let again = trigger.fire();
    assert_eq!(again.len(), 0);
}

#[test]
fn firing_wakes_every_waiter_once() {
    let (first_waker, first_counter) = new_count_waker();
    let (second_waker, second_counter) = new_count_waker();
    let (mut trigger, first) = signal::trigger();
    let second = first.subscribe(&mut trigger);

    assert!(first.poll(&mut trigger, &first_waker).is_pending());
    assert!(second.poll(&mut trigger, &second_waker).is_pending());
    assert_eq!(trigger.waiter_count(), 2);

    trigger.trigger();
    assert_eq!(first_counter.get(), 1);
    assert_eq!(second_counter.get(), 1);
    assert!(first.poll(&mut trigger, &first_waker).is_ready());
    assert!(second.poll(&mut trigger, &second_waker).is_ready());
}

#[test]
fn receiver_made_after_the_firing_is_ready() {
    let (waker, wake_counter) = new_count_waker();
    let (mut trigger, first) = signal::trigger();
    trigger.trigger();
    let late = first.subscribe(&mut trigger);
    assert!(late.poll(&mut trigger, &waker).is_ready());
    assert_eq!(trigger.waiter_count(), 0);
    assert_eq!(wake_counter.get(), 0);
}

#[test]
fn released_receiver_leaves_no_waiter() {
    let (waker, wake_counter) = new_count_waker();
    let (mut trigger, first) = signal::trigger();
    let second = first.subscribe(&mut trigger);

    assert!(second.poll(&mut trigger, &waker).is_pending());
    assert_eq!(trigger.waiter_count(), 1);
    second.release(&mut trigger);
    assert_eq!(trigger.waiter_count(), 0);

    trigger.trigger();
    assert_eq!(wake_counter.get(), 0);
}

#[test]
fn release_spares_the_other_receivers() {
    let (kept_waker, kept_counter) = new_count_waker();
    let (gone_waker, gone_counter) = new_count_waker();
    let (mut trigger, kept) = signal::trigger();
    let gone = kept.subscribe(&mut trigger);

    assert!(kept.poll(&mut trigger, &kept_waker).is_pending());
    assert!(gone.poll(&mut trigger, &gone_waker).is_pending());
    gone.release(&mut trigger);
    assert_eq!(trigger.waiter_count(), 1);

    trigger.trigger();
    assert_eq!(kept_counter.get(), 1);
    assert_eq!(gone_counter.get(), 0);
}

#[test]
fn release_after_the_firing_changes_nothing() {
    let (mut trigger, first) = signal::trigger();
    trigger.trigger();
    first.release(&mut trigger);
    assert!(trigger.is_complete());
    assert_eq!(trigger.waiter_count(), 0);
}

#[test]
fn polling_with_another_waker_replaces_the_registered_one() {
    let (old_waker, old_counter) = new_count_waker();
    let (new_waker, new_counter) = new_count_waker();
    let (mut trigger, receiver) = signal::trigger();

    assert!(receiver.poll(&mut trigger, &old_waker).is_pending());
    assert!(receiver.poll(&mut trigger, &new_waker).is_pending());
    assert_eq!(trigger.waiter_count(), 1);

    trigger.trigger();
    assert_eq!(old_counter.get(), 0);
    assert_eq!(new_counter.get(), 1);
}

#[test]
fn wake_all_wakes_each_waker() {
    let (waker, wake_counter) = new_count_waker();
    let (mut trigger, first) = signal::trigger();
    let second = first.subscribe(&mut trigger);
    assert!(first.poll(&mut trigger, &waker).is_pending());
    assert!(second.poll(&mut trigger, &waker).is_pending());
    let woken = trigger.fire();
    assert_eq!(wake_counter.get(), 0);
    signal::wake_all(&woken);
    assert_eq!(wake_counter.get(), 2);
}

#[test]
fn polled_tells_ready_from_pending() {
    assert!(Polled::Ready.is_ready());
    assert!(!Polled::Ready.is_pending());
    assert!(Polled::Pending.is_pending());
    assert!(!Polled::Pending.is_ready());
}
