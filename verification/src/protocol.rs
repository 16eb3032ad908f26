use vstd::prelude::*;
use crate::poll::{settle, Async, Canceled, Poll};

verus! {

// The channel's protocol, stated and proved over plain data.
//
// The live channel in `crate::channel` keeps the same four fields behind an
// atomic flag and non-blocking slots; Verus cannot watch two handles race on
// that shared memory, so the protocol itself is verified here, where every
// transition acts atomically on a `ChannelState` and the outcome of each
// non-blocking slot attempt enters as an explicit boolean input.  A
// `..._contended` input set to `true` stands for the attempt finding the
// slot momentarily held by the other side's one concurrent operation on it;
// each transition's contract states the inference the protocol draws from
// that, for both values of the input.  A parked task is represented by an
// integer token, and a transition that wakes one reports the token it woke.

/// The shared state of one channel, as plain data.
pub struct ChannelState<T> {
    /// The monotonic completion flag: set by whichever handle is destroyed
    /// first, never reset.  Once it is observed `true`, the channel's
    /// outcome — value or cancellation — is fixed.
    pub completed: bool,
    /// The value slot: written at most once by the producer, taken at most
    /// once by the consumer.
    pub value: Option<T>,
    /// The consumer's parked task, stored while it awaits a value.
    pub rx_waiter: Option<u64>,
    /// The producer's parked task, stored while it awaits notice that the
    /// consumer has vanished.
    pub tx_waiter: Option<u64>,
}

impl<T> ChannelState<T> {
    /// The state a channel is created in: nothing delivered, nobody parked.
    pub open spec fn fresh() -> ChannelState<T> {
        ChannelState { completed: false, value: None, rx_waiter: None, tx_waiter: None }
    }

    /// The producer delivers: the value goes into the slot, and nothing else
    /// moves.  Waking the consumer is not part of delivery; it happens in
    /// the producer's teardown, which is the same path whether or not a
    /// value was delivered first.
    pub open spec fn spec_deliver(self, t: T) -> ChannelState<T> {
        ChannelState { value: Some(t), ..self }
    }

    /// The producer's teardown: sets the flag, then tries the consumer's
    /// wait slot.  If the attempt succeeds, any parked consumer is taken and
    /// woken; if it is contended, the consumer is itself concurrently
    /// polling or tearing down, and will read the flag afterwards, so no
    /// wakeup is owed from this side.
    pub open spec fn spec_producer_drop(self, rx_contended: bool) -> (ChannelState<T>, Option<
        u64,
    >) {
        if rx_contended {
            (ChannelState { completed: true, ..self }, None)
        } else {
            (ChannelState { completed: true, rx_waiter: None, ..self }, self.rx_waiter)
        }
    }

    /// The consumer's teardown: sets the flag; discards its own parked task
    /// if the consumer wait slot is free (nobody needs it — the receiver is
    /// going away); and wakes a producer that registered cancellation
    /// interest, if the producer wait slot is free.  A contended slot is
    /// left to the side holding it: the producer taking the consumer's
    /// task will wake or drop it, and a producer mid-registration will
    /// re-read the flag before trusting its stored task.
    pub open spec fn spec_consumer_drop(self, rx_contended: bool, tx_contended: bool) -> (
        ChannelState<T>,
        Option<u64>,
    ) {
        let flagged = ChannelState { completed: true, ..self };
        let cleared = if rx_contended {
            flagged
        } else {
            ChannelState { rx_waiter: None, ..flagged }
        };
        if tx_contended {
            (cleared, None)
        } else {
            (ChannelState { tx_waiter: None, ..cleared }, self.tx_waiter)
        }
    }

    /// One consumer poll.  The consumer is settled when the flag is already
    /// set, or when storing its task met contention — the only other user of
    /// that slot is the producer's teardown, so contention means the outcome
    /// is (or is about to be) fixed.  A settled poll takes the value slot:
    /// a value is a delivery, an empty slot is cancellation.  An unsettled
    /// poll parks the task and reports not-ready.
    pub open spec fn spec_poll(self, waiter: u64, park_contended: bool) -> (
        ChannelState<T>,
        Poll<T, Canceled>,
    ) {
        if self.completed || park_contended {
            let taken = ChannelState { value: None, ..self };
            match self.value {
                Some(t) => (taken, Ok(Async::Ready(t))),
                None => (taken, Err(Canceled)),
            }
        } else {
            (ChannelState { rx_waiter: Some(waiter), ..self }, Ok(Async::NotReady))
        }
    }

    /// One producer cancellation poll.  Ready when the flag is already set
    /// (only the consumer's teardown can have set it while the producer
    /// still lives), or when storing the task met contention (the consumer
    /// is concurrently tearing down); otherwise the task is parked and the
    /// poll reports not-ready.
    pub open spec fn spec_poll_cancel(self, waiter: u64, park_contended: bool) -> (
        ChannelState<T>,
        Poll<(), ()>,
    ) {
        if self.completed || park_contended {
            (self, Ok(Async::Ready(())))
        } else {
            (ChannelState { tx_waiter: Some(waiter), ..self }, Ok(Async::NotReady))
        }
    }

    /// Makes the state a channel is created in.
    pub fn new() -> (s: ChannelState<T>)
        ensures
            s == Self::fresh(),
    {
        ChannelState { completed: false, value: None, rx_waiter: None, tx_waiter: None }
    }

    /// Delivery.  The precondition is what the handle types enforce: the
    /// producer handle is consumed by delivering, so a second delivery — the
    /// only way the slot could already be full — cannot be asked for.
    pub fn deliver(&mut self, t: T)
        requires
            old(self).value is None,
        ensures
            *final(self) == old(self).spec_deliver(t),
    {
        self.value = Some(t);
    }

    /// The producer's teardown; hands back the token it woke, if any.
    pub fn producer_drop(&mut self, rx_contended: bool) -> (woken: Option<u64>)
        ensures
            (*final(self), woken) == old(self).spec_producer_drop(rx_contended),
    {
        self.completed = true;
        if rx_contended {
            None
        } else {
            let parked = self.rx_waiter;
            self.rx_waiter = None;
            parked
        }
    }

    /// The consumer's teardown; hands back the token it woke, if any.
    pub fn consumer_drop(&mut self, rx_contended: bool, tx_contended: bool) -> (woken: Option<
        u64,
    >)
        ensures
            (*final(self), woken) == old(self).spec_consumer_drop(rx_contended, tx_contended),
    {
        self.completed = true;
        if !rx_contended {
            self.rx_waiter = None;
        }
        if tx_contended {
            None
        } else {
            let parked = self.tx_waiter;
            self.tx_waiter = None;
            parked
        }
    }

    /// One consumer poll.
    pub fn poll(&mut self, waiter: u64, park_contended: bool) -> (r: Poll<T, Canceled>)
        ensures
            (*final(self), r) == old(self).spec_poll(waiter, park_contended),
    {
        if self.completed || park_contended {
            settle(self.value.take())
        } else {
            self.rx_waiter = Some(waiter);
            Ok(Async::NotReady)
        }
    }

    /// One producer cancellation poll.
    pub fn poll_cancel(&mut self, waiter: u64, park_contended: bool) -> (r: Poll<(), ()>)
        ensures
            (*final(self), r) == old(self).spec_poll_cancel(waiter, park_contended),
    {
        if self.completed || park_contended {
            Ok(Async::Ready(()))
        } else {
            self.tx_waiter = Some(waiter);
            Ok(Async::NotReady)
        }
    }
}

// What follows states the channel's laws over whole runs of the protocol.
// A run is a sequence of steps applied from the fresh state; the laws hold
// for every interleaving the two handles can produce, and for every outcome
// of every slot attempt.

/// One protocol step, with the contention observations it was taken under.
pub enum Step<T> {
    Deliver(T),
    ProducerDrop { rx_contended: bool },
    ConsumerDrop { rx_contended: bool, tx_contended: bool },
    PollStep { waiter: u64, park_contended: bool },
    PollCancelStep { waiter: u64, park_contended: bool },
}

/// The state after taking one step.
pub open spec fn step_state<T>(s: ChannelState<T>, e: Step<T>) -> ChannelState<T> {
    match e {
        Step::Deliver(t) => s.spec_deliver(t),
        Step::ProducerDrop { rx_contended } => s.spec_producer_drop(rx_contended).0,
        Step::ConsumerDrop { rx_contended, tx_contended } => s.spec_consumer_drop(
            rx_contended,
            tx_contended,
        ).0,
        Step::PollStep { waiter, park_contended } => s.spec_poll(waiter, park_contended).0,
        Step::PollCancelStep { waiter, park_contended } => s.spec_poll_cancel(
            waiter,
            park_contended,
        ).0,
    }
}

/// The state after taking every step of `tr` in order, starting from `s`.
pub open spec fn run<T>(s: ChannelState<T>, tr: Seq<Step<T>>) -> ChannelState<T>
    decreases tr.len(),
{
    if tr.len() == 0 {
        s
    } else {
        run(step_state(s, tr[0]), tr.drop_first())
    }
}

/// How many steps of `tr` are deliveries.
pub open spec fn deliver_count<T>(tr: Seq<Step<T>>) -> int
    decreases tr.len(),
{
    if tr.len() == 0 {
        0
    } else {
        (if tr[0] matches Step::Deliver(_) {
            1int
        } else {
            0int
        }) + deliver_count(tr.drop_first())
    }
}

/// How many steps of the run from `s` write the value slot (take it from
/// empty to full).
pub open spec fn write_count<T>(s: ChannelState<T>, tr: Seq<Step<T>>) -> int
    decreases tr.len(),
{
    if tr.len() == 0 {
        0
    } else {
        let s2 = step_state(s, tr[0]);
        (if s.value is None && s2.value is Some {
            1int
        } else {
            0int
        }) + write_count(s2, tr.drop_first())
    }
}

/// How many steps of the run from `s` take the value slot (from full back
/// to empty).
pub open spec fn take_count<T>(s: ChannelState<T>, tr: Seq<Step<T>>) -> int
    decreases tr.len(),
{
    if tr.len() == 0 {
        0
    } else {
        let s2 = step_state(s, tr[0]);
        (if s.value is Some && s2.value is None {
            1int
        } else {
            0int
        }) + take_count(s2, tr.drop_first())
    }
}

/// Only a delivery writes the value slot: every other step leaves it alone
/// or empties it.
pub proof fn lemma_writes_need_deliveries<T>(s: ChannelState<T>, tr: Seq<Step<T>>)
    ensures
        write_count(s, tr) <= deliver_count(tr),
    decreases tr.len(),
{
    if tr.len() > 0 {
        lemma_writes_need_deliveries(step_state(s, tr[0]), tr.drop_first());
    }
}

/// The value slot cannot be taken a second time before it is written again.
pub proof fn lemma_takes_need_writes<T>(s: ChannelState<T>, tr: Seq<Step<T>>)
    ensures
        take_count(s, tr) <= (if s.value is Some {
            1int
        } else {
            0int
        }) + write_count(s, tr),
    decreases tr.len(),
{
    if tr.len() > 0 {
        lemma_takes_need_writes(step_state(s, tr[0]), tr.drop_first());
    }
}

/// At-most-once delivery: along any run of the protocol in which at most
/// one delivery step occurs — and the producer handle is consumed by
/// delivering, so no caller can produce more — the value slot is written at
/// most once and taken at most once, whatever the interleaving and whatever
/// every slot attempt observed.
pub proof fn lemma_at_most_once_delivery<T>(tr: Seq<Step<T>>)
    requires
        deliver_count(tr) <= 1,
    ensures
        write_count(ChannelState::<T>::fresh(), tr) <= 1,
        take_count(ChannelState::<T>::fresh(), tr) <= 1,
{
    lemma_writes_need_deliveries(ChannelState::<T>::fresh(), tr);
    lemma_takes_need_writes(ChannelState::<T>::fresh(), tr);
}

/// The completion flag is monotonic: no single step resets it.
pub proof fn lemma_completed_monotonic<T>(s: ChannelState<T>, e: Step<T>)
    ensures
        s.completed ==> step_state(s, e).completed,
{
}

/// The completion flag is monotonic over whole runs: once a state with the
/// flag set is reached, every later state has it set too.
pub proof fn lemma_completed_stays<T>(s: ChannelState<T>, tr: Seq<Step<T>>)
    ensures
        s.completed ==> run(s, tr).completed,
    decreases tr.len(),
{
    if tr.len() > 0 {
        lemma_completed_monotonic(s, tr[0]);
        lemma_completed_stays(step_state(s, tr[0]), tr.drop_first());
    }
}

/// No missed wakeup, producer side: if the consumer parked before the
/// producer's teardown runs, and the teardown finds the wait slot free,
/// the teardown wakes exactly that parked task, and leaves the flag set.
/// (A contended slot means the consumer is itself mid-poll or mid-teardown
/// and re-reads the flag; the other half of the argument is
/// [`lemma_poll_terminal_once_completed`].)
pub proof fn lemma_parked_consumer_is_woken<T>(s: ChannelState<T>, w: u64)
    requires
        s.rx_waiter == Some(w),
    ensures
        s.spec_producer_drop(false).1 == Some(w),
        s.spec_producer_drop(false).0.completed,
{
}

/// No missed wakeup, consumer side: once the flag is set, every poll is
/// terminal — it yields the value or cancellation, never not-ready — for
/// every waiter and every contention outcome.  So a consumer woken after
/// the producer resolved needs no further external signal.
pub proof fn lemma_poll_terminal_once_completed<T>(
    s: ChannelState<T>,
    waiter: u64,
    park_contended: bool,
)
    requires
        s.completed,
    ensures
        s.spec_poll(waiter, park_contended).1 != Ok::<Async<T>, Canceled>(Async::NotReady),
{
}

/// No missed wakeup, composed over a whole run: once the flag has been
/// set — by either side's teardown, anywhere in a run — every poll after
/// every further interleaving is terminal, with no further external signal
/// required.
pub proof fn lemma_poll_terminal_after_any_run<T>(
    s: ChannelState<T>,
    tr: Seq<Step<T>>,
    waiter: u64,
    park_contended: bool,
)
    requires
        s.completed,
    ensures
        run(s, tr).spec_poll(waiter, park_contended).1 != Ok::<Async<T>, Canceled>(
            Async::NotReady,
        ),
{
    lemma_completed_stays(s, tr);
}

/// Cancellation symmetry, consumer vanished first: after the consumer's
/// teardown, a producer's cancellation poll returns ready, for every
/// contention outcome on either side.
pub proof fn lemma_cancel_after_consumer_drop<T>(
    s: ChannelState<T>,
    rx_contended: bool,
    tx_contended: bool,
    waiter: u64,
    park_contended: bool,
)
    ensures
        s.spec_consumer_drop(rx_contended, tx_contended).0.spec_poll_cancel(
            waiter,
            park_contended,
        ).1 == Ok::<Async<()>, ()>(Async::Ready(())),
{
}

/// Cancellation symmetry, producer vanished first: if the producer is torn
/// down without having delivered, a consumer's poll returns the
/// cancellation error, for every contention outcome.
pub proof fn lemma_poll_after_producer_drop<T>(
    s: ChannelState<T>,
    rx_contended: bool,
    waiter: u64,
    park_contended: bool,
)
    requires
        s.value is None,
    ensures
        s.spec_producer_drop(rx_contended).0.spec_poll(waiter, park_contended).1 == Err::<
            Async<T>,
            Canceled,
        >(Canceled),
{
}

/// The mirror of [`lemma_parked_consumer_is_woken`]: a producer that parked
/// through a cancellation poll is woken by the consumer's teardown when the
/// wait slot is free, and the flag is left set, so its next cancellation
/// poll returns ready without parking again.
pub proof fn lemma_parked_producer_is_woken<T>(s: ChannelState<T>, w: u64, rx_contended: bool)
    requires
        s.tx_waiter == Some(w),
    ensures
        s.spec_consumer_drop(rx_contended, false).1 == Some(w),
        s.spec_consumer_drop(rx_contended, false).0.completed,
{
}

} // verus!
