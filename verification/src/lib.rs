//! Client-side framing and multiplexing for the muxrpc protocol: the 9-byte
//! frame header codec, the JSON call-body encoder, the request-number
//! counter with its sign-based correlation scheme, stream cancellation and
//! session termination.

pub mod call;
pub mod error;
pub mod header;
pub mod rpc;
pub mod utils;
