//! What can go wrong in the protocol engine.
use vstd::prelude::*;

verus! {

/// A feature that this client does not provide, by design.
#[derive(Clone, Copy, Debug, PartialEq, Eq, Structural)]
pub enum Feature {
    /// Active mode: the client would have to accept a connection from the server.
    ActiveMode,
    /// Restarting an interrupted transfer.
    Restart,
    /// Aborting a transfer.
    Abort,
    /// Allocating space on the server before a transfer.
    Allocate,
}

/// A protocol error.
#[derive(Debug)]
pub enum Error {
    /// A reply whose kind was not expected and whose code is not positive;
    /// the text names the code, the message and the expected kinds.
    UnexpectedStatusCode(String),
    /// Bytes that had to be text were not valid UTF-8.
    SerializationFailed(String),
    /// A passive-mode reply whose address or port could not be read.
    InvalidSocketPassiveMode(String),
    /// A reply line that does not start with a three-digit code; it holds the line.
    InvalidReply(String),
    /// A feature that the client does not provide.
    NotImplemented(Feature),
}

} // verus!
