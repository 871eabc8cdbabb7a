use vstd::prelude::*;

verus! {

/// Errors of the device protocols and of a sweep.
#[derive(Clone, Copy, Debug, PartialEq, Eq, Structural)]
pub enum ProtocolError {
    /// An operation was attempted before the device was connected.
    LinkNotInitialized,
    /// No response within the operation's deadline.
    Timeout,
    /// Bytes were received but they do not form a frame.
    MalformedFrame,
    /// A reply whose envelope magic does not match.
    UnexpectedResponse,
    /// The transport failed.
    IoError,
    /// A persistence write failed.
    StorageError,
    /// The operation was stopped by the cancellation signal.
    Cancelled,
}

} // verus!
