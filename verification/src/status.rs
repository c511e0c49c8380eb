//! The outcome of an operation on a route, and the two ways to submit.

use vstd::prelude::*;

verus! {

/// The result of an operation on a route.
#[derive(Clone, Copy, Debug, PartialEq, Eq, Structural)]
pub enum Status {
    /// The operation took effect.
    Success,
    /// A bounded route held as many envelopes as it may.
    QueueFull,
    /// The coordinating thread's loop is going away; nothing more is accepted.
    Closing,
    /// The route is gone.
    Closed,
    /// An argument was not usable.
    InvalidArgument,
    /// Any other failure.
    GenericFailure,
}

/// How a submission behaves when a bounded route is full.
#[derive(Clone, Copy, Debug, PartialEq, Eq, Structural)]
pub enum CallMode {
    /// Wait until there is room or the route is closing.
    Blocking,
    /// Fail at once with `Status::QueueFull`.
    NonBlocking,
}

/// The mode a submission runs in: the one asked for, `Blocking` when none was.
pub open spec fn mode_of(is_blocking: Option<CallMode>) -> CallMode {
    match is_blocking {
        Some(mode) => mode,
        None => CallMode::Blocking,
    }
}

/// Computes `mode_of`.
pub fn resolve_mode(is_blocking: Option<CallMode>) -> (mode: CallMode)
    ensures
        mode == mode_of(is_blocking),
{
    match is_blocking {
        Some(mode) => mode,
        None => CallMode::Blocking,
    }
}

} // verus!
