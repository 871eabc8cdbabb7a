//! What a framed link hands back, and the progress of a reply that is
//! collected over several receives.
use vstd::prelude::*;

verus! {

/// Outcome of a failed receive on a framed link.
#[derive(Clone, Copy, Debug, PartialEq, Eq, Structural)]
pub enum LinkError {
    /// No chunk arrived within the deadline.
    TimedOut,
    /// The underlying stream ended.
    Closed,
    /// The transport reported a failure.
    IoError,
}

/// State of a reply that is assembled from several receives.
#[derive(Debug)]
pub enum Progress<T> {
    /// More bytes are needed: receive again.
    Pending,
    /// The reply is complete.
    Done(T),
    /// The reply failed; the request is over.
    Failed(crate::error::ProtocolError),
}

} // verus!
