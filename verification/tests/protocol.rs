use oneshot::protocol::ChannelState;
use oneshot::{settle, Async, Canceled};

#[test]
fn model_deliver_then_poll() {
    let mut ch = ChannelState::<i32>::new();
    ch.deliver(3);
    let woken = ch.producer_drop(false);
    assert_eq!(woken, None);
    assert_eq!(ch.poll(1, false), Ok(Async::Ready(3)));
    // the value slot is taken at most once: a later poll finds it empty
    assert_eq!(ch.poll(1, false), Err(Canceled));
}

#[test]
fn model_producer_drop_without_delivery_cancels() {
    let mut ch = ChannelState::<i32>::new();
    let woken = ch.producer_drop(false);
    assert_eq!(woken, None);
    assert_eq!(ch.poll(1, false), Err(Canceled));
}

#[test]
fn model_parked_consumer_is_woken() {
    let mut ch = ChannelState::<i32>::new();
    assert_eq!(ch.poll(7, false), Ok(Async::NotReady));
    ch.deliver(5);
    let woken = ch.producer_drop(false);
    assert_eq!(woken, Some(7));
    assert_eq!(ch.poll(7, false), Ok(Async::Ready(5)));
}

#[test]
fn model_parked_producer_is_woken() {
    let mut ch = ChannelState::<i32>::new();
    assert_eq!(ch.poll_cancel(4, false), Ok(Async::NotReady));
    let woken = ch.consumer_drop(false, false);
    assert_eq!(woken, Some(4));
    assert_eq!(ch.poll_cancel(4, false), Ok(Async::Ready(())));
}

#[test]
fn model_contended_park_settles_the_poll() {
    // storing the consumer's task met contention: only the producer's
    // teardown touches that slot, so the poll settles — here, without a
    // value, as cancellation
    let mut ch = ChannelState::<i32>::new();
    assert_eq!(ch.poll(1, true), Err(Canceled));
}

#[test]
fn model_contended_cancel_park_is_ready() {
    // storing the producer's task met contention: the consumer is tearing
    // down, so cancellation interest is answered at once
    let mut ch = ChannelState::<i32>::new();
    assert_eq!(ch.poll_cancel(1, true), Ok(Async::Ready(())));
}

#[test]
fn model_contended_producer_teardown_leaves_waiter() {
    let mut ch = ChannelState::<i32>::new();
    assert_eq!(ch.poll(9, false), Ok(Async::NotReady));
    // the consumer wait slot was contended: the teardown wakes nobody and
    // leaves the flag to be read by the consumer itself
    let woken = ch.producer_drop(true);
    assert_eq!(woken, None);
    assert_eq!(ch.poll(9, false), Err(Canceled));
}

#[test]
fn model_completed_flag_is_sticky() {
    let mut ch = ChannelState::<i32>::new();
    assert!(!ch.completed);
    let _ = ch.consumer_drop(false, false);
    assert!(ch.completed);
    let _ = ch.poll_cancel(2, false);
    assert!(ch.completed);
    let _ = ch.poll(3, false);
    assert!(ch.completed);
    let _ = ch.producer_drop(false);
    assert!(ch.completed);
}

#[test]
fn settle_reads_the_slot() {
    assert_eq!(settle(Some(4)), Ok(Async::Ready(4)));
    assert_eq!(settle::<u32>(None), Err(Canceled));
}

#[test]
fn canceled_describes_itself() {
    assert_eq!(Canceled.description(), "oneshot canceled");
}
