//! Error taxonomy of the transport layer.

use vstd::prelude::*;

verus! {

/// Errors surfaced by the transport layer.
///
/// A `CommandError` is fatal to the codec's current scan state; a
/// `ServerDisconnected` drives the reconnection state machine; a `TlsError`
/// is fatal to the connection attempt in progress. Every kind other than a
/// disconnection is returned to the caller untouched.
#[derive(Clone, Copy, Debug, PartialEq, Eq, Structural)]
pub enum NatsError {
    /// The external frame parser reported that the verb span is malformed.
    CommandError,
    /// The socket reported a disconnection condition.
    ServerDisconnected,
    /// Some other socket-level failure, not recovered automatically.
    IoError,
    /// Certificate or identity material was rejected, or the encrypted
    /// handshake machinery could not be assembled from it.
    TlsError,
    /// The external serializer could not turn a frame into bytes.
    SerializeError,
}

} // verus!
