//! Errors that end a relay.

use crate::proxy::codec::CodecError;
use vstd::prelude::*;

verus! {

/// An error setting up or driving a connection between the client and the
/// server. Either kind is fatal to the affected relay: both sockets are
/// closed, and the listener goes on accepting.
#[derive(Debug, PartialEq, Clone)]
pub enum PipeError {
    /// An error framing or deframing a packet.
    CodecError(CodecError),
    /// A socket read, write, connect or accept failed; the message text
    /// describes the failure.
    IoError(String),
}

} // verus!
