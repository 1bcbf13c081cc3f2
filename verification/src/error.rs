use vstd::prelude::*;

verus! {

/// Errors of the RPC framing layer.
///
/// `MalformedHeader` is fatal for the frame (and normally for the whole
/// connection, since framing is then unrecoverable); `TransportError`
/// reports a short read/write or an I/O failure of the underlying
/// transport; `SerializationError` is local to the call whose payload
/// failed to encode and leaves the framing state intact.
#[derive(Clone, Copy, Debug, PartialEq, Eq, Structural)]
pub enum RpcError {
    MalformedHeader,
    TransportError,
    SerializationError,
}

} // verus!
