//! The single error channel of every call.
use vstd::prelude::*;

verus! {

/// Why a construction or a call failed.
#[derive(Debug, Clone, PartialEq)]
pub enum MorayError {
    /// Invalid construction input, such as a pool of no connections.
    Config(String),
    /// No connection became free within the claim timeout.
    PoolTimeout,
    /// Writing the request or reading a frame failed.
    Transport(String),
    /// A frame did not have the expected shape.
    Protocol(String),
    /// The service reported a failure in its end frame.
    Remote { code: String, message: String },
    /// The caller's handler refused a record; its message is kept as given.
    HandlerAborted(String),
}

} // verus!
