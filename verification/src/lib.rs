//! A oneshot handoff channel: exactly one producer delivers at most one value
//! to exactly one consumer, the two sides may poll or vanish in any order, and
//! whichever side survives observes the other's disappearance as cancellation.
//!
//! The live pair of handles lives in [`channel`]; the protocol they follow —
//! every slot attempt, every inference drawn from contention — is stated and
//! proved over plain data in [`protocol`].

mod poll;
mod slot;
mod wake;
pub mod protocol;
pub mod channel;

pub use crate::channel::{linked, oneshot, Complete, Oneshot};
pub use crate::poll::{Async, Canceled, Poll, settle};
