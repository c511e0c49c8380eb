//! The error of a submission that the route did not take.

use vstd::prelude::*;
use crate::status::Status;

verus! {

/// A submission that was not queued, together with the payload it carried.
///
/// The route never took ownership of the payload, so the caller gets it back
/// and may submit it again or dispose of it.
#[derive(Debug)]
pub struct CallError<T> {
    kind: Status,
    data: T,
}

impl<T> CallError<T> {
    /// Why the submission failed.
    pub closed spec fn failure(&self) -> Status {
        self.kind
    }

    /// The payload that was submitted.
    pub closed spec fn payload(&self) -> T {
        self.data
    }

    /// Pairs a failure with the payload reclaimed from the envelope.
    pub(crate) fn reclaimed(kind: Status, data: T) -> (error: Self)
        ensures
            error.failure() == kind,
            error.payload() == data,
    {
        CallError { kind, data }
    }

    /// The specific error that occurred.
    pub fn kind(&self) -> (kind: Status)
        ensures
            kind == self.failure(),
    {
        self.kind
    }

    /// Gives back the payload that was submitted, so that it can be submitted
    /// again.
    pub fn into_inner(self) -> (data: T)
        ensures
            data == self.payload(),
    {
        self.data
    }
}

} // verus!
