use vstd::prelude::*;
use vstd::string::StringExecFns;

verus! {

/// Outcome of polling a computation that may not have finished yet: either
/// the result is here, or the caller's task has been scheduled for a wakeup
/// and should poll again after it fires.
#[derive(Clone, Copy, PartialEq, Eq, Debug)]
pub enum Async<T> {
    Ready(T),
    NotReady,
}

/// A poll either progresses (`Ok`, ready or not) or fails for good (`Err`).
pub type Poll<T, E> = Result<Async<T>, E>;

/// The one domain error of the channel: the producer handle was destroyed
/// before delivering a value, so no value will ever arrive.
#[derive(Clone, Copy, PartialEq, Eq, Debug)]
pub struct Canceled;

impl Canceled {
    /// A short human-readable account of the error.
    pub fn description(&self) -> (s: String)
        ensures
            s@ == "oneshot canceled"@,
    {
        String::from_str("oneshot canceled")
    }
}

/// Reads the settled outcome out of the value slot's contents: a present
/// value is a delivery, an empty slot means the producer vanished without
/// delivering.  Both the live consumer and the protocol model settle through
/// this one function, so the meaning of "settled" is stated once.
pub fn settle<T>(contents: Option<T>) -> (r: Poll<T, Canceled>)
    ensures
        contents matches Some(t) ==> r == Ok::<Async<T>, Canceled>(Async::Ready(t)),
        contents is None ==> r == Err::<Async<T>, Canceled>(Canceled),
{
    match contents {
        Some(t) => Ok(Async::Ready(t)),
        None => Err(Canceled),
    }
}

} // verus!
