use vstd::prelude::*;
use std::task::Waker;

verus! {

// The parked-task handles that the channel stores and wakes are
// `std::task::Waker`s: opaque here, wakeable from any thread, and safe to
// wake more than once or after the task has already finished.

/// `std::task::Waker`, declared so that parked-task handles can be stored in
/// the shared state's slots and carried through the channel's functions.
#[verifier::external_type_specification]
#[verifier::external_body]
pub struct ExWaker(Waker);

/// Relies on `Waker::clone`: the clone wakes the same task as the original.
#[verifier::external_body]
pub(crate) fn waker_clone(w: &Waker) -> Waker {
    w.clone()
}

/// Relies on `Waker::wake`: wakes the task the handle stands for; callable
/// from any thread, idempotent, and harmless after the task has finished.
/// The teardowns wake from `Drop`, which Verus requires not to unwind, so
/// this also trusts that waking does not panic — which any waker handed to
/// a poll must already satisfy, since a panicking waker would tear through
/// every executor's drop paths.
#[verifier::external_body]
pub(crate) fn waker_wake(w: Waker)
    opens_invariants none
    no_unwind
{
    w.wake()
}

} // verus!
