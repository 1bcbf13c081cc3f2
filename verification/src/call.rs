use vstd::prelude::*;

use crate::error::RpcError;
use crate::utils::push_bytes;

verus! {

/// The two call kinds: an `Async` call expects exactly one response
/// frame, a `Source` call a stream of zero or more response frames
/// terminated by an end-or-error frame.
#[derive(Clone, Copy, Debug, PartialEq, Eq, Structural)]
pub enum RpcType {
    Async,
    Source,
}

/// The protocol name of a call kind, as characters.
pub open spec fn rpc_id_spec(t: RpcType) -> Seq<char> {
    match t {
        RpcType::Async => "async"@,
        RpcType::Source => "source"@,
    }
}

/// The protocol name of a call kind, as the ASCII bytes written into the
/// `type` field of an outgoing call body.
pub open spec fn rpc_id_bytes(t: RpcType) -> Seq<u8> {
    match t {
        RpcType::Async => seq![97u8, 115u8, 121u8, 110u8, 99u8],
        RpcType::Source => seq![115u8, 111u8, 117u8, 114u8, 99u8, 101u8],
    }
}

impl RpcType {
    /// The literal `"async"` or `"source"`, the value of the `type`
    /// field of an outgoing call body.
    pub fn rpc_id(&self) -> (r: &'static str)
        ensures
            r@ == rpc_id_spec(*self),
    {
        match self {
            RpcType::Async => "async",
            RpcType::Source => "source",
        }
    }
}

/// The bytes of `{"name":`.
pub open spec fn body_prefix() -> Seq<u8> {
    seq![123u8, 34u8, 110u8, 97u8, 109u8, 101u8, 34u8, 58u8]
}

/// The bytes of `,"type":"`.
pub open spec fn type_infix() -> Seq<u8> {
    seq![44u8, 34u8, 116u8, 121u8, 112u8, 101u8, 34u8, 58u8, 34u8]
}

/// The bytes of `","args":[`.
pub open spec fn args_infix() -> Seq<u8> {
    seq![34u8, 44u8, 34u8, 97u8, 114u8, 103u8, 115u8, 34u8, 58u8, 91u8]
}

/// The bytes of `]}`.
pub open spec fn body_suffix() -> Seq<u8> {
    seq![93u8, 125u8]
}

/// The exact bytes of an outgoing call body:
/// `{"name":<name_json>,"type":"<kind>","args":[<args_json>]}`.
/// The argument value is always wrapped in a one-element array, so an
/// argument that is itself an array nests; that is the wire format.
pub open spec fn call_body_spec(name_json: Seq<u8>, t: RpcType, args_json: Seq<u8>) -> Seq<u8> {
    body_prefix() + name_json + type_infix() + rpc_id_bytes(t) + args_infix() + args_json
        + body_suffix()
}

/// What `serde_json::to_vec` returns for a list of strings: the JSON
/// array of those strings, determined by the characters alone.
pub uninterp spec fn json_of_strings(names: Seq<Seq<char>>) -> Seq<u8>;

#[verifier::external_type_specification]
#[verifier::external_body]
pub struct ExSerdeJsonError(serde_json::Error);

/// Relies on `serde_json::to_vec`: serializing a `Vec<String>` yields
/// the JSON text of that list of strings, a function of the strings
/// alone. It always succeeds: string serialization has no error path of
/// its own, and the writer behind `to_vec` is a `Vec`, whose writes are
/// infallible.
#[verifier::external_body]
fn json_encode_strings(names: &Vec<String>) -> (r: Result<Vec<u8>, serde_json::Error>)
    ensures
        r is Ok,
        (r matches Result::Ok(v) ==> v@ == json_of_strings(names.deep_view())),
{
    serde_json::to_vec(names)
}

/// Assembles an outgoing call body around the already-encoded method
/// path and the caller-serialized argument value; total and exact.
pub fn build_call_body(name_json: &[u8], rpc_type: RpcType, args_json: &[u8]) -> (r: Vec<u8>)
    ensures
        r@ == call_body_spec(name_json@, rpc_type, args_json@),
{
    let mut out: Vec<u8> = Vec::new();
    let prefix: [u8; 8] = [123, 34, 110, 97, 109, 101, 34, 58];
    push_bytes(&mut out, prefix.as_slice());
    push_bytes(&mut out, name_json);
    let infix: [u8; 9] = [44, 34, 116, 121, 112, 101, 34, 58, 34];
    push_bytes(&mut out, infix.as_slice());
    match rpc_type {
        RpcType::Async => {
            let kind: [u8; 5] = [97, 115, 121, 110, 99];
            push_bytes(&mut out, kind.as_slice());
        },
        RpcType::Source => {
            let kind: [u8; 6] = [115, 111, 117, 114, 99, 101];
            push_bytes(&mut out, kind.as_slice());
        },
    }
    let args_open: [u8; 10] = [34, 44, 34, 97, 114, 103, 115, 34, 58, 91];
    push_bytes(&mut out, args_open.as_slice());
    push_bytes(&mut out, args_json);
    let suffix: [u8; 2] = [93, 125];
    push_bytes(&mut out, suffix.as_slice());
    proof {
        assert(out@ =~= call_body_spec(name_json@, rpc_type, args_json@));
    }
    out
}

/// Encodes the body of an outgoing call: serializes the method path with
/// serde_json, then wraps it together with the call kind and the
/// caller-serialized argument value in the wire object. This always
/// succeeds; the `Result` shape mirrors the serializer's and would carry
/// a `SerializationError`.
pub fn encode_call_body(name: &Vec<String>, rpc_type: RpcType, args_json: &[u8]) -> (r: Result<
    Vec<u8>,
    RpcError,
>)
    ensures
        r is Ok,
        (r matches Result::Ok(b) ==> b@ == call_body_spec(
            json_of_strings(name.deep_view()),
            rpc_type,
            args_json@,
        )),
{
    match json_encode_strings(name) {
        Result::Ok(nj) => Result::Ok(build_call_body(nj.as_slice(), rpc_type, args_json)),
        Result::Err(_) => Result::Err(RpcError::SerializationError),
    }
}

} // verus!
