//! The error surface of the core.
use vstd::prelude::*;

verus! {

/// The failures the core can report to its callers.
#[derive(Clone, Copy, Debug, PartialEq, Eq, Structural)]
pub enum Error {
    /// A duration string that duration parsing rejects, or whose value does
    /// not fit the millisecond range of a `u64`.
    InvalidDuration,
    /// The manager's message queue is closed because its worker has
    /// terminated; the channel front-end reports a refused reload with it.
    QueueClosed,
}

} // verus!
