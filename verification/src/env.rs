//! The coordinating thread's execution context.

use vstd::prelude::*;

verus! {

/// A handle to the execution context of the coordinating thread.
///
/// Holding one stands for running on that thread: creating a route and
/// changing whether it keeps the loop alive both ask for it, and every
/// delivered payload is handed to the callback together with it. A value made
/// on any other thread breaks that convention; nothing detects it at run time.
#[derive(Clone, Copy, Debug, PartialEq, Eq, Structural)]
pub struct Env {
    /// Tells one execution context from another.
    pub id: usize,
}

} // verus!
