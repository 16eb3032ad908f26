use vstd::prelude::*;
use std::sync::atomic::AtomicBool;
use std::sync::atomic::Ordering;
use std::sync::Arc;
use std::sync::Mutex;

verus! {

// The shared state's slots are `std::sync::Mutex`es used only through
// `try_lock`: the protocol never blocks on a slot, and treats contention as
// information about what the other side is concurrently doing.

/// `std::sync::Mutex`, declared so that it can stand in the fields of the
/// shared state.  Its contents are opaque here; the functions below are the
/// only access the channel has to a slot.
#[verifier::external_type_specification]
#[verifier::external_body]
#[verifier::reject_recursive_types(T)]
pub struct ExMutex<T: ?Sized>(Mutex<T>);

/// Relies on `Mutex::new`: makes a fresh, unheld slot holding `v`.
#[verifier::external_body]
pub(crate) fn new_slot<T>(v: Option<T>) -> Mutex<Option<T>> {
    Mutex::new(v)
}

/// Relies on `Mutex::try_lock`: it never blocks, and `Err` means the lock is
/// held elsewhere at this moment.  On success the slot's contents are
/// replaced by `Some(v)` and `true` comes back; on contention `v` is dropped
/// and `false` comes back.  Nothing can be promised about the outcome here:
/// whether the attempt succeeds depends on what the other side of the
/// channel is concurrently doing.
#[verifier::external_body]
pub(crate) fn slot_try_store<T>(slot: &Mutex<Option<T>>, v: T) -> bool {
    match slot.try_lock() {
        Ok(mut guard) => {
            *guard = Some(v);
            true
        }
        Err(_) => false,
    }
}

/// Relies on `Mutex::try_lock`, as above.  On success the slot's contents
/// are taken (the slot is left `None`) and handed back as `Some(contents)`;
/// on contention `None` comes back and the slot is untouched.
#[verifier::external_body]
pub(crate) fn slot_try_take<T>(slot: &Mutex<Option<T>>) -> Option<Option<T>>
    opens_invariants none
    no_unwind
{
    match slot.try_lock() {
        Ok(mut guard) => Some(guard.take()),
        Err(_) => None,
    }
}

/// Relies on `AtomicBool::store`: publishes the completion flag.  vstd
/// already specifies the store, but the teardowns call this from `Drop`,
/// which Verus requires not to unwind; an atomic store never panics, so
/// that is promised here.
#[verifier::external_body]
pub(crate) fn flag_set(flag: &AtomicBool)
    opens_invariants none
    no_unwind
{
    flag.store(true, Ordering::SeqCst);
}

/// Relies on `Arc::clone`: the new handle refers to the same shared value.
#[verifier::external_body]
pub(crate) fn arc_share<T>(a: &Arc<T>) -> (r: Arc<T>)
    ensures
        r == *a,
{
    Arc::clone(a)
}

} // verus!
