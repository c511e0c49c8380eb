//! A cross-thread callback gateway.
//!
//! Any number of submitting contexts hand payloads to a route; the
//! coordinating thread takes them out again, one by one and in the order of
//! their submission, and runs the callback that the route was created with
//! on each. A payload is delivered at most once: when the coordinating
//! thread's loop goes away, what is still queued is discarded.
//!
//! - `status`: the results an operation can have, and the two ways to submit.
//! - `env`: the execution context of the coordinating thread.
//! - `error`: the error of a submission, which carries the payload back.
//! - `route`: the model of a route, its transitions, and what holds of them.
//! - `tsfn`: the handle, the envelope and the delivery entry point.

pub mod env;
pub mod error;
pub mod route;
pub mod status;
pub mod tsfn;
