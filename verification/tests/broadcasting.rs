use tau_radio::audio::Sample;
use tau_radio::broadcast::{BroadcastStep, Broadcaster};
use tau_radio::shutdown::ShutdownSignal;

fn s(bits: u32) -> Sample {
    Sample { bits }
}

#[test]
fn every_live_consumer_gets_every_sample_in_order() {
    let mut b = Broadcaster::new();
    b.add_consumer(8);
    b.add_consumer(8);
    assert_eq!(b.consumer_count(), 2);
    let run = vec![s(10), s(20), s(30)];
    b.broadcast_all(&run);
    for i in 0..2 {
        assert_eq!(b.take_one(i), Some(s(10)));
        assert_eq!(b.take_one(i), Some(s(20)));
        assert_eq!(b.take_one(i), Some(s(30)));
        assert_eq!(b.take_one(i), None);
    }
}

#[test]
fn full_channel_drops_only_for_that_consumer() {
    let mut b = Broadcaster::new();
    b.add_consumer(1);
    b.add_consumer(8);
    b.broadcast_all(&vec![s(1), s(2), s(3)]);
    // The bounded sibling kept only what fit.
    assert_eq!(b.queued_len(0), 1);
    assert_eq!(b.take_one(0), Some(s(1)));
    assert_eq!(b.take_one(0), None);
    // The roomy consumer received everything, in order, unaffected.
    assert_eq!(b.take_one(1), Some(s(1)));
    assert_eq!(b.take_one(1), Some(s(2)));
    assert_eq!(b.take_one(1), Some(s(3)));
}

#[test]
fn closed_consumer_is_abandoned_and_siblings_continue() {
    let mut b = Broadcaster::new();
    b.add_consumer(8);
    b.add_consumer(8);
    b.broadcast_sample(s(1));
    b.close_consumer(0);
    b.broadcast_sample(s(2));
    // The abandoned path saw only what came before it closed.
    assert_eq!(b.take_one(0), Some(s(1)));
    assert_eq!(b.take_one(0), None);
    // The sibling saw everything.
    assert_eq!(b.take_one(1), Some(s(1)));
    assert_eq!(b.take_one(1), Some(s(2)));
}

#[test]
fn draining_frees_room_for_later_samples() {
    let mut b = Broadcaster::new();
    b.add_consumer(2);
    b.broadcast_all(&vec![s(1), s(2), s(3)]);
    assert_eq!(b.take_one(0), Some(s(1)));
    b.broadcast_sample(s(4));
    assert_eq!(b.take_one(0), Some(s(2)));
    assert_eq!(b.take_one(0), Some(s(4)));
    assert_eq!(b.take_one(0), None);
}

#[test]
fn broadcaster_sleeps_when_idle_and_stops_on_shutdown() {
    let b = Broadcaster::new();
    let mut sig = ShutdownSignal::new();
    assert_eq!(b.poll(&sig, true), BroadcastStep::Deliver);
    assert_eq!(b.poll(&sig, false), BroadcastStep::Sleep);
    sig.request();
    assert_eq!(b.poll(&sig, true), BroadcastStep::Stop);
    assert_eq!(b.poll(&sig, false), BroadcastStep::Stop);
}
