use std::collections::HashMap;
use vstd::prelude::*;

use crate::call::{RpcType, call_body_spec, encode_call_body, json_of_strings};
use crate::error::RpcError;
use crate::utils::push_bytes;
use crate::header::{BodyType, Header, RequestNo, encode_spec};

verus! {

broadcast use vstd::std_specs::hash::group_hash_axioms;

/// Routing decision of `RpcClient::dispatch` for one received frame.
#[derive(Clone, Copy, Debug, PartialEq, Eq, Structural)]
pub enum Delivery {
    /// The frame belongs to the caller that sent request `req_no`;
    /// `done` says this is the last frame that caller must wait for.
    Deliver { req_no: RequestNo, done: bool },
    /// No outstanding request matches; the frame is ignored.
    Unmatched,
}

/// The 4 ASCII bytes `true`, the body of every cancellation frame.
pub open spec fn cancel_body() -> Seq<u8> {
    seq![116u8, 114u8, 117u8, 101u8]
}

/// The exact 13 bytes of the frame that cancels streaming call `n`.
pub open spec fn cancel_frame_spec(n: RequestNo) -> Seq<u8> {
    encode_spec(
        Header {
            req_no: n,
            is_stream: true,
            is_end_or_error: true,
            body_type: BodyType::JSON,
            body_len: 4,
        },
    ) + cancel_body()
}

/// The exact bytes of the outgoing frame of call `n`: the header, then
/// the JSON call body.
pub open spec fn send_frame_spec(
    n: RequestNo,
    t: RpcType,
    name_json: Seq<u8>,
    args_json: Seq<u8>,
) -> Seq<u8> {
    let body = call_body_spec(name_json, t, args_json);
    encode_spec(
        Header {
            req_no: n,
            is_stream: t is Source,
            is_end_or_error: false,
            body_type: BodyType::JSON,
            body_len: body.len() as u32,
        },
    ) + body
}

/// One send allocated request number `n`: the counter was pre-incremented
/// and `n` is its new value.
pub open spec fn allocates(pre: RpcClient, post: RpcClient, n: RequestNo) -> bool {
    n == pre.req_no + 1 && post.req_no == n
}

/// How routing one received header `h` takes the table of outstanding
/// requests from `pre` to `post` and produces decision `r`. A frame
/// matches outstanding request `n` exactly when its request number is
/// `-n`; the match is terminal on an end-or-error frame and on any frame
/// of a non-streaming call, and a terminal match retires the request.
pub open spec fn dispatch_rel(
    pre: Map<RequestNo, bool>,
    h: Header,
    r: Delivery,
    post: Map<RequestNo, bool>,
) -> bool {
    if h.req_no < 0 && h.req_no > i32::MIN && pre.dom().contains((-(h.req_no as int)) as RequestNo) {
        let n = (-(h.req_no as int)) as RequestNo;
        let done = h.is_end_or_error || !pre[n];
        &&& r == (Delivery::Deliver { req_no: n, done })
        &&& post == if done {
            pre.remove(n)
        } else {
            pre
        }
    } else {
        &&& r == Delivery::Unmatched
        &&& post == pre
    }
}

/// Client half of one multiplexed connection: the request-number counter
/// and the correlation table from outstanding positive request numbers
/// to whether the call streams. The transport stays outside this type;
/// every operation returns or accepts the exact bytes that cross the
/// wire, and the caller must write each returned frame contiguously.
pub struct RpcClient {
    /// Last allocated request number; pre-incremented on each send, so
    /// the first call is numbered 1.
    pub req_no: RequestNo,
    /// Outstanding requests, each mapped to whether the call streams.
    pub pending: HashMap<RequestNo, bool>,
    /// Whether the goodbye signal was requested; no frame may follow.
    pub closed: bool,
}

impl RpcClient {
    /// Well-formed state: the counter never ran backwards, and every
    /// outstanding request number was allocated by this counter.
    pub open spec fn wf(self) -> bool {
        &&& 0 <= self.req_no
        &&& forall|k: RequestNo| #[trigger]
            self.pending@.dom().contains(k) ==> 1 <= k <= self.req_no
    }

    /// A fresh connection: counter at 0, nothing outstanding, open.
    pub fn new() -> (r: RpcClient)
        ensures
            r.wf(),
            r.req_no == 0,
            r.pending@ == Map::<RequestNo, bool>::empty(),
            !r.closed,
    {
        RpcClient { req_no: 0, pending: HashMap::new(), closed: false }
    }

    /// Sends a call: allocates the next request number, registers it as
    /// outstanding, and returns it with the exact frame bytes that must
    /// reach the wire as one contiguous unit. It succeeds exactly when
    /// the encoded body fits the header's 32-bit length field; otherwise
    /// it fails with `SerializationError`, and the counter is then
    /// already advanced, so the number is skipped, never reused.
    pub fn send(&mut self, name: &Vec<String>, rpc_type: RpcType, args_json: &[u8]) -> (r: Result<
        (RequestNo, Vec<u8>),
        RpcError,
    >)
        requires
            old(self).wf(),
            !old(self).closed,
            old(self).req_no < i32::MAX,
        ensures
            final(self).wf(),
            final(self).req_no == old(self).req_no + 1,
            final(self).closed == old(self).closed,
            call_body_spec(json_of_strings(name.deep_view()), rpc_type, args_json@).len()
                <= u32::MAX ==> r is Ok,
            (r matches Ok(p) ==> {
                &&& allocates(*old(self), *final(self), p.0)
                &&& final(self).pending@ == old(self).pending@.insert(p.0, rpc_type is Source)
                &&& call_body_spec(json_of_strings(name.deep_view()), rpc_type, args_json@).len()
                    <= u32::MAX
                &&& p.1@ == send_frame_spec(
                    p.0,
                    rpc_type,
                    json_of_strings(name.deep_view()),
                    args_json@,
                )
            }),
            (r matches Err(e) ==> {
                &&& e == RpcError::SerializationError
                &&& final(self).pending@ == old(self).pending@
                &&& call_body_spec(json_of_strings(name.deep_view()), rpc_type, args_json@).len()
                    > u32::MAX
            }),
    {
        self.req_no = self.req_no + 1;
        let n = self.req_no;
        let body = match encode_call_body(name, rpc_type, args_json) {
            Ok(b) => b,
            Err(e) => {
                return Err(e);
            },
        };
        if body.len() > u32::MAX as usize {
            return Err(RpcError::SerializationError);
        }
        let header = Header {
            req_no: n,
            is_stream: rpc_type == RpcType::Source,
            is_end_or_error: false,
            body_type: BodyType::JSON,
            body_len: body.len() as u32,
        };
        let mut frame: Vec<u8> = Vec::new();
        let head = header.to_array();
        push_bytes(&mut frame, head.as_slice());
        push_bytes(&mut frame, body.as_slice());
        self.pending.insert(n, rpc_type == RpcType::Source);
        Ok((n, frame))
    }

    /// Routes one received frame header to the caller that awaits it,
    /// as `dispatch_rel` says: only the negated number of an outstanding
    /// request matches, and a terminal frame retires the request.
    pub fn dispatch(&mut self, h: &Header) -> (r: Delivery)
        requires
            old(self).wf(),
        ensures
            final(self).wf(),
            final(self).req_no == old(self).req_no,
            final(self).closed == old(self).closed,
            dispatch_rel(old(self).pending@, *h, r, final(self).pending@),
    {
        if h.req_no >= 0 || h.req_no == i32::MIN {
            return Delivery::Unmatched;
        }
        let n: i32 = -h.req_no;
        let entry: Option<bool> = match self.pending.get(&n) {
            Some(b) => Some(*b),
            None => None,
        };
        match entry {
            Some(is_stream) => {
                let done = h.is_end_or_error || !is_stream;
                if done {
                    self.pending.remove(&n);
                }
                Delivery::Deliver { req_no: n, done }
            },
            None => Delivery::Unmatched,
        }
    }

    /// Builds the frame that cancels streaming call `req_no` and drops
    /// it from the outstanding table: the stream is locally terminated
    /// once the frame is on the wire, and a late terminal frame from the
    /// peer is then ignored by `dispatch`.
    pub fn send_cancel_stream(&mut self, req_no: RequestNo) -> (r: Vec<u8>)
        requires
            old(self).wf(),
            !old(self).closed,
        ensures
            final(self).wf(),
            final(self).req_no == old(self).req_no,
            final(self).closed == old(self).closed,
            final(self).pending@ == old(self).pending@.remove(req_no),
            r@ == cancel_frame_spec(req_no),
    {
        self.pending.remove(&req_no);
        let header = Header {
            req_no,
            is_stream: true,
            is_end_or_error: true,
            body_type: BodyType::JSON,
            body_len: 4,
        };
        let mut frame: Vec<u8> = Vec::new();
        let head = header.to_array();
        push_bytes(&mut frame, head.as_slice());
        let body: [u8; 4] = [116, 114, 117, 101];
        push_bytes(&mut frame, body.as_slice());
        proof {
            assert(frame@ =~= cancel_frame_spec(req_no));
        }
        frame
    }

    /// Marks the session closed; the caller then delivers the goodbye
    /// signal through the transport. No frame may be sent afterwards.
    pub fn close(&mut self)
        ensures
            final(self).req_no == old(self).req_no,
            final(self).pending@ == old(self).pending@,
            final(self).closed,
    {
        self.closed = true;
    }
}

/// Counter monotonicity: two successive sends on one connection return
/// strictly increasing positive request numbers, so numbers are never
/// repeated for the life of the connection.
pub proof fn lemma_counter_monotonic(
    c0: RpcClient,
    c1: RpcClient,
    c2: RpcClient,
    n1: RequestNo,
    n2: RequestNo,
)
    requires
        c0.wf(),
        allocates(c0, c1, n1),
        allocates(c1, c2, n2),
    ensures
        0 < n1 < n2,
{
}

/// Sign correlation: a frame delivered to the waiter for request `n`
/// carries exactly the request number `-n` on the wire.
pub proof fn lemma_sign_correlation(
    pre: Map<RequestNo, bool>,
    h: Header,
    r: Delivery,
    post: Map<RequestNo, bool>,
    n: RequestNo,
    done: bool,
)
    requires
        dispatch_rel(pre, h, r, post),
        r == (Delivery::Deliver { req_no: n, done }),
    ensures
        h.req_no as int == -(n as int),
        h.req_no < 0,
        n > 0,
{
}

/// Sign correlation, the other direction: a frame whose request number
/// is not negative never satisfies any waiter. In particular a frame
/// carrying the positive number `n` itself never answers request `n`.
pub proof fn lemma_nonnegative_never_matches(
    pre: Map<RequestNo, bool>,
    h: Header,
    r: Delivery,
    post: Map<RequestNo, bool>,
)
    requires
        dispatch_rel(pre, h, r, post),
        h.req_no >= 0,
    ensures
        r == Delivery::Unmatched,
        post == pre,
{
}

/// Streaming continuation: a non-terminal frame of an outstanding
/// streaming call is delivered to its waiter without retiring the call,
/// so the waiter keeps waiting for further frames.
pub proof fn lemma_stream_continues(
    pre: Map<RequestNo, bool>,
    h: Header,
    r: Delivery,
    post: Map<RequestNo, bool>,
    n: RequestNo,
)
    requires
        dispatch_rel(pre, h, r, post),
        1 <= n,
        pre.dom().contains(n),
        pre[n] == true,
        h.req_no as int == -(n as int),
        !h.is_end_or_error,
    ensures
        r == (Delivery::Deliver { req_no: n, done: false }),
        post == pre,
        post.dom().contains(n),
{
}

/// Streaming termination: once a terminal frame for request `n` has been
/// delivered, `n` is no longer outstanding, and any later frame with the
/// same correlation number is ignored.
pub proof fn lemma_stream_end_stops_waiting(
    pre: Map<RequestNo, bool>,
    h: Header,
    post: Map<RequestNo, bool>,
    n: RequestNo,
    h2: Header,
    r2: Delivery,
    post2: Map<RequestNo, bool>,
)
    requires
        dispatch_rel(pre, h, (Delivery::Deliver { req_no: n, done: true }), post),
        dispatch_rel(post, h2, r2, post2),
        h2.req_no as int == -(n as int),
    ensures
        !post.dom().contains(n),
        r2 == Delivery::Unmatched,
        post2 == post,
{
}

} // verus!
