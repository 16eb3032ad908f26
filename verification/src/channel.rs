use vstd::prelude::*;
use std::sync::atomic::AtomicBool;
use std::sync::atomic::Ordering;
use std::sync::Arc;
use std::sync::Mutex;
use std::task::Waker;
use crate::poll::{settle, Async, Canceled, Poll};
use crate::slot::{arc_share, flag_set, new_slot, slot_try_store, slot_try_take};
use crate::wake::{waker_clone, waker_wake};

verus! {

// The live channel.  The two handles share one `Inner` and may race from
// different threads, so nothing about the shared fields can be stated here;
// what each function does for every observation it can make is stated and
// proved in `crate::protocol`, whose transitions these bodies follow branch
// for branch.

/// Shared state of one channel, jointly owned by the two handles and freed
/// when the last of them goes.  Every slot is touched only through
/// non-blocking attempts: with both sides able to tear down concurrently, a
/// blocking lock could deadlock, and a failed attempt is informative — only
/// the counterpart's one other operation on that slot can be holding it.
#[verifier::reject_recursive_types(T)]
struct Inner<T> {
    /// Monotonic completion flag, set by whichever handle is destroyed
    /// first; sequentially consistent, so that once one side reads it
    /// `true`, the other side's prior writes (a delivered value) are
    /// visible.
    completed: AtomicBool,
    /// The value, written at most once by the producer before its teardown
    /// sets the flag, taken at most once by the consumer afterwards.
    data: Mutex<Option<T>>,
    /// The consumer's parked task while it awaits a value.
    rx_task: Mutex<Option<Waker>>,
    /// The producer's parked task while it awaits notice that the consumer
    /// has vanished.
    tx_task: Mutex<Option<Waker>>,
}

/// The consumer half: resolves to the delivered value, or to [`Canceled`]
/// if the producer vanished without delivering.
#[must_use]
#[verifier::reject_recursive_types(T)]
pub struct Oneshot<T> {
    inner: Arc<Inner<T>>,
}

/// The producer half: delivers at most one value, and can poll for the
/// consumer's disappearance.
#[verifier::reject_recursive_types(T)]
pub struct Complete<T> {
    inner: Arc<Inner<T>>,
}

/// The two halves of one channel are linked: they refer to the same shared
/// state block, so what one side settles the other side observes.
pub closed spec fn linked<T>(tx: &Complete<T>, rx: &Oneshot<T>) -> bool {
    tx.inner == rx.inner
}

/// Creates a linked pair of handles.  Each half can be owned and dropped
/// independently, on different threads; the channel's outcome is settled by
/// whichever of delivery and the two teardowns come first, as
/// `crate::protocol` states.  (That the shared state starts fresh — flag
/// clear, every slot empty — is not statable here: the cells are opaque.)
pub fn oneshot<T>() -> (r: (Complete<T>, Oneshot<T>))
    ensures
        linked(&r.0, &r.1),
{
    let inner = Arc::new(
        Inner {
            completed: AtomicBool::new(false),
            data: new_slot(None),
            rx_task: new_slot(None),
            tx_task: new_slot(None),
        },
    );
    let receiver = Oneshot { inner: arc_share(&inner) };
    let sender = Complete { inner };
    (sender, receiver)
}

/// The park-then-recheck motif both halves share: report settled if the
/// flag is already set; otherwise park the caller's task in `slot` and
/// re-read the flag.  Settled (`true`) comes back when the flag was seen
/// set at either read, or when the slot attempt met contention — only the
/// counterpart's teardown touches that slot, so contention means the
/// outcome is fixed or about to be.  `false` means the task is parked and
/// the flag was still clear on the recheck, so the stored handle will be
/// woken when the counterpart resolves.  The recheck closes the race where
/// the counterpart set the flag after the first read but before the store:
/// its teardown would have found the slot held and left the waking to this
/// side's next look at the flag — which is exactly this recheck.
fn register(completed: &AtomicBool, slot: &Mutex<Option<Waker>>, waker: &Waker) -> bool {
    if completed.load(Ordering::SeqCst) {
        return true;
    }
    if !slot_try_store(slot, waker_clone(waker)) {
        return true;
    }
    completed.load(Ordering::SeqCst)
}

impl<T> Complete<T> {
    /// Delivers the value, consuming this handle — so delivery can happen
    /// at most once per channel, by construction.  The handle's teardown
    /// runs right after and does the waking; the protocol's delivery step
    /// itself only fills the slot ([`crate::protocol::ChannelState::spec_deliver`]).
    pub fn complete(self, t: T) {
        // The slot's only other user is the consumer's settle step, which
        // runs only after the flag is set; this handle has not set it yet,
        // so the attempt meets no contention and the store happens.
        let _stored = slot_try_store(&self.inner.data, t);
    }

    /// Polls for the disappearance of the consumer half.  `waker` stands
    /// for the calling task.  Ready means the consumer is gone and a value
    /// would never be received; not-ready means it was still alive, and the
    /// task is parked to be woken if that changes.  Exactly what comes back
    /// for each observation is [`crate::protocol::ChannelState::spec_poll_cancel`].
    /// Whatever the observations, a cancellation poll never fails: the
    /// `Err` arm of its return type is never produced.
    pub fn poll_cancel(&mut self, waker: &Waker) -> (r: Poll<(), ()>)
        ensures
            r is Ok,
    {
        // This handle's own teardown has not run, so a set flag can only
        // mean the consumer's did: it is gone.
        if register(&self.inner.completed, &self.inner.tx_task, waker) {
            Ok(Async::Ready(()))
        } else {
            Ok(Async::NotReady)
        }
    }
}

impl<T> Drop for Complete<T> {
    /// The producer's teardown, whether or not it delivered first: set the
    /// flag, then wake a parked consumer if the wait slot is free.  On
    /// contention the consumer is itself mid-poll or mid-teardown and will
    /// re-read the flag, so no wakeup is owed from here
    /// ([`crate::protocol::ChannelState::spec_producer_drop`]).
    fn drop(&mut self)
        opens_invariants none
        no_unwind
    {
        flag_set(&self.inner.completed);
        match slot_try_take(&self.inner.rx_task) {
            Some(Some(task)) => waker_wake(task),
            _ => (),
        }
    }
}

impl<T> Oneshot<T> {
    /// Polls for the channel's outcome.  `waker` stands for the calling
    /// task.  Ready carries the delivered value; [`Canceled`] means the
    /// producer vanished without delivering; not-ready means neither has
    /// happened yet and the task is parked to be woken when it does.
    /// Exactly what comes back for each observation is
    /// [`crate::protocol::ChannelState::spec_poll`].
    pub fn poll(&mut self, waker: &Waker) -> Poll<T, Canceled> {
        if register(&self.inner.completed, &self.inner.rx_task, waker) {
            match slot_try_take(&self.inner.data) {
                Some(contents) => settle(contents),
                // The value slot's only other user is `complete`, which
                // finishes before the flag is set, and the flag was
                // observed set on the way here; the protocol makes this
                // arm unreachable, and cancellation is the only terminal
                // answer it could stand for.
                None => Err(Canceled),
            }
        } else {
            Ok(Async::NotReady)
        }
    }
}

impl<T> Drop for Oneshot<T> {
    /// The consumer's teardown: set the flag; discard its own parked task —
    /// the receiver is going away, so nobody needs it; and wake a producer
    /// that registered cancellation interest.  Either slot being contended
    /// means the producer is concurrently handling that slot itself and
    /// re-reads the flag ([`crate::protocol::ChannelState::spec_consumer_drop`]).
    fn drop(&mut self)
        opens_invariants none
        no_unwind
    {
        flag_set(&self.inner.completed);
        let _own = slot_try_take(&self.inner.rx_task);
        match slot_try_take(&self.inner.tx_task) {
            Some(Some(task)) => waker_wake(task),
            _ => (),
        }
    }
}

} // verus!
