use std::sync::atomic::AtomicUsize;
use std::sync::atomic::Ordering;
use std::sync::Arc;
use std::task::Wake;
use std::task::Waker;

use oneshot::{oneshot, Async, Canceled};

/// A waker that counts how often it is woken, so the tests can observe the
/// channel's wakeups.
struct CountingWake {
    count: AtomicUsize,
}

impl CountingWake {
    fn new() -> Arc<CountingWake> {
        Arc::new(CountingWake { count: AtomicUsize::new(0) })
    }

    fn wakes(&self) -> usize {
        self.count.load(Ordering::SeqCst)
    }
}

impl Wake for CountingWake {
    fn wake(self: Arc<Self>) {
        self.count.fetch_add(1, Ordering::SeqCst);
    }
}

#[test]
fn deliver_then_poll_is_ready() {
    let (tx, mut rx) = oneshot::<i32>();
    tx.complete(3);
    let w = CountingWake::new();
    let waker = Waker::from(w.clone());
    assert_eq!(rx.poll(&waker), Ok(Async::Ready(3)));
}

#[test]
fn dropped_producer_cancels_poll() {
    let (tx, mut rx) = oneshot::<i32>();
    drop(tx);
    let w = CountingWake::new();
    let waker = Waker::from(w.clone());
    assert_eq!(rx.poll(&waker), Err(Canceled));
}

#[test]
fn dropped_consumer_readies_poll_cancel() {
    let (mut tx, rx) = oneshot::<i32>();
    drop(rx);
    let w = CountingWake::new();
    let waker = Waker::from(w.clone());
    assert_eq!(tx.poll_cancel(&waker), Ok(Async::Ready(())));
}

#[test]
fn pending_then_deliver_wakes_and_readies() {
    let (tx, mut rx) = oneshot::<u32>();
    let w = CountingWake::new();
    let waker = Waker::from(w.clone());
    assert_eq!(rx.poll(&waker), Ok(Async::NotReady));
    assert_eq!(w.wakes(), 0);
    tx.complete(7);
    // delivery consumed the producer handle, whose teardown woke the
    // parked consumer
    assert_eq!(w.wakes(), 1);
    assert_eq!(rx.poll(&waker), Ok(Async::Ready(7)));
}

#[test]
fn consumer_drop_wakes_cancellation_poller() {
    let (mut tx, rx) = oneshot::<u32>();
    let w = CountingWake::new();
    let waker = Waker::from(w.clone());
    assert_eq!(tx.poll_cancel(&waker), Ok(Async::NotReady));
    assert_eq!(w.wakes(), 0);
    drop(rx);
    assert_eq!(w.wakes(), 1);
    // ready without having to park again
    assert_eq!(tx.poll_cancel(&waker), Ok(Async::Ready(())));
}

#[test]
fn cancellation_is_sticky() {
    let (tx, mut rx) = oneshot::<i32>();
    drop(tx);
    let w = CountingWake::new();
    let waker = Waker::from(w.clone());
    assert_eq!(rx.poll(&waker), Err(Canceled));
    assert_eq!(rx.poll(&waker), Err(Canceled));
}

#[test]
fn poll_cancel_pending_while_consumer_alive() {
    let (mut tx, _rx) = oneshot::<i32>();
    let w = CountingWake::new();
    let waker = Waker::from(w.clone());
    assert_eq!(tx.poll_cancel(&waker), Ok(Async::NotReady));
    assert_eq!(w.wakes(), 0);
}

#[test]
fn consumer_drop_discards_own_parked_task() {
    let (mut tx, mut rx) = oneshot::<u32>();
    let w = CountingWake::new();
    let waker = Waker::from(w.clone());
    assert_eq!(rx.poll(&waker), Ok(Async::NotReady));
    drop(rx);
    // the consumer's own parked task is discarded, not woken: the receiver
    // itself went away, so there is nobody left to wake it for
    assert_eq!(w.wakes(), 0);
    assert_eq!(tx.poll_cancel(&waker), Ok(Async::Ready(())));
}

#[test]
fn deliver_after_consumer_drop_is_harmless() {
    let (tx, rx) = oneshot::<u32>();
    drop(rx);
    tx.complete(5);
}

#[test]
fn both_sides_dropped_without_contact() {
    let (tx, rx) = oneshot::<String>();
    drop(rx);
    drop(tx);
}
