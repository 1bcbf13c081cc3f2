use vstd::prelude::*;

use crate::error::RpcError;

verus! {

/// Identifies a call on one connection: positive when assigned by the
/// sender, negated by the responder to mark a reply.
pub type RequestNo = i32;

/// Size in bytes of an encoded frame header.
pub const HEADER_SIZE: usize = 9;

/// Interpretation of the body bytes that follow a header.
#[derive(Clone, Copy, Debug, PartialEq, Eq, Structural)]
pub enum BodyType {
    Binary,
    UTF8,
    JSON,
}

/// The fixed 9-byte frame header: one flags byte (stream and end-or-error
/// bits plus a two-bit body type), the body length as a big-endian
/// unsigned 32-bit integer, and the request number as a big-endian
/// two's-complement signed 32-bit integer.
#[derive(Clone, Copy, Debug, PartialEq, Eq, Structural)]
pub struct Header {
    pub req_no: RequestNo,
    pub is_stream: bool,
    pub is_end_or_error: bool,
    pub body_type: BodyType,
    pub body_len: u32,
}

/// The two low bits of the flags byte; the value 3 is reserved and never
/// produced by `flags_byte`.
pub open spec fn body_type_code(t: BodyType) -> u8 {
    match t {
        BodyType::Binary => 0,
        BodyType::UTF8 => 1,
        BodyType::JSON => 2,
    }
}

/// Byte 0 of an encoded header: bit 3 is the stream flag, bit 2 the
/// end-or-error flag, bits 0-1 the body type.
pub open spec fn flags_byte(h: Header) -> u8 {
    body_type_code(h.body_type) | (if h.is_end_or_error {
        4u8
    } else {
        0u8
    }) | (if h.is_stream {
        8u8
    } else {
        0u8
    })
}

/// The four big-endian bytes of a 32-bit word, most significant first.
pub open spec fn be32(w: u32) -> Seq<u8> {
    seq![
        ((w >> 24) & 0xff) as u8,
        ((w >> 16) & 0xff) as u8,
        ((w >> 8) & 0xff) as u8,
        (w & 0xff) as u8,
    ]
}

/// The 32-bit word read from four big-endian bytes.
pub open spec fn word_of_be(b0: u8, b1: u8, b2: u8, b3: u8) -> u32 {
    (b0 as u32) << 24 | (b1 as u32) << 16 | (b2 as u32) << 8 | (b3 as u32)
}

/// The unsigned word that carries a request number on the wire:
/// its two's-complement representation.
pub open spec fn req_word(n: i32) -> u32 {
    (if n >= 0 {
        n as int
    } else {
        n as int + 0x1_0000_0000
    }) as u32
}

/// The request number read back from its wire word.
pub open spec fn req_of_word(w: u32) -> i32 {
    (if w < 0x8000_0000 {
        w as int
    } else {
        w as int - 0x1_0000_0000
    }) as i32
}

/// The exact 9 bytes that encode a header.
pub open spec fn encode_spec(h: Header) -> Seq<u8> {
    seq![flags_byte(h)] + be32(h.body_len) + be32(req_word(h.req_no))
}

/// The header read from the first 9 bytes of `s`, if `s` is long enough
/// and the body-type bits are not the reserved value 3.
pub open spec fn decode_spec(s: Seq<u8>) -> Option<Header> {
    if s.len() < HEADER_SIZE {
        Option::None
    } else if s[0] & 3 == 3 {
        Option::None
    } else {
        Option::Some(
            Header {
                req_no: req_of_word(word_of_be(s[5], s[6], s[7], s[8])),
                is_stream: s[0] & 8 == 8,
                is_end_or_error: s[0] & 4 == 4,
                body_type: if s[0] & 3 == 0 {
                    BodyType::Binary
                } else if s[0] & 3 == 1 {
                    BodyType::UTF8
                } else {
                    BodyType::JSON
                },
                body_len: word_of_be(s[1], s[2], s[3], s[4]),
            },
        )
    }
}

proof fn lemma_flags_bits(b: u8, e: u8, st: u8)
    requires
        b < 3,
        e == 0 || e == 4,
        st == 0 || st == 8,
    ensures
        (b | e | st) & 3 == b,
        ((b | e | st) & 4 == 4) == (e == 4),
        ((b | e | st) & 8 == 8) == (st == 8),
{
    assert((b | e | st) & 3 == b && ((b | e | st) & 4 == 4) == (e == 4) && ((b | e | st) & 8 == 8)
        == (st == 8)) by (bit_vector)
        requires
            b < 3,
            e == 0 || e == 4,
            st == 0 || st == 8,
    ;
}

proof fn lemma_be32_round_trip(w: u32)
    ensures
        word_of_be(be32(w)[0], be32(w)[1], be32(w)[2], be32(w)[3]) == w,
{
    assert((w >> 24) & 0xff < 256 && (w >> 16) & 0xff < 256 && (w >> 8) & 0xff < 256 && w & 0xff
        < 256) by (bit_vector);
    assert(w == ((w >> 24) & 0xff) << 24 | ((w >> 16) & 0xff) << 16 | ((w >> 8) & 0xff) << 8 | (w
        & 0xff)) by (bit_vector);
}

proof fn lemma_req_round_trip(n: i32)
    ensures
        req_of_word(req_word(n)) == n,
{
}

/// Round trip: decoding the encoding of any header yields that header.
pub proof fn lemma_header_round_trip(h: Header)
    ensures
        decode_spec(encode_spec(h)) == Option::Some(h),
{
    let s = encode_spec(h);
    let bt = body_type_code(h.body_type);
    let e: u8 = if h.is_end_or_error {
        4
    } else {
        0
    };
    let st: u8 = if h.is_stream {
        8
    } else {
        0
    };
    assert(flags_byte(h) == (bt | e | st));
    lemma_flags_bits(bt, e, st);
    assert(s[0] == flags_byte(h));
    assert(s[1] == be32(h.body_len)[0] && s[2] == be32(h.body_len)[1] && s[3] == be32(
        h.body_len,
    )[2] && s[4] == be32(h.body_len)[3]);
    assert(s[5] == be32(req_word(h.req_no))[0] && s[6] == be32(req_word(h.req_no))[1] && s[7]
        == be32(req_word(h.req_no))[2] && s[8] == be32(req_word(h.req_no))[3]);
    lemma_be32_round_trip(h.body_len);
    lemma_be32_round_trip(req_word(h.req_no));
    lemma_req_round_trip(h.req_no);
    assert(decode_spec(s) == Option::Some(h));
}

/// Rejection: a byte sequence shorter than 9 bytes never decodes.
pub proof fn lemma_decode_rejects_short(s: Seq<u8>)
    requires
        s.len() < 9,
    ensures
        decode_spec(s) is None,
{
}

/// Rejection: a flag byte whose low two bits hold the reserved value 3
/// never decodes.
pub proof fn lemma_decode_rejects_reserved_body_type(s: Seq<u8>)
    requires
        s.len() >= 9,
        s[0] & 3 == 3,
    ensures
        decode_spec(s) is None,
{
}

impl Header {
    /// Encodes this header as its 9 wire bytes; total for every header.
    pub fn to_array(&self) -> (r: [u8; 9])
        ensures
            r@ == encode_spec(*self),
    {
        let bt: u8 = match self.body_type {
            BodyType::Binary => 0,
            BodyType::UTF8 => 1,
            BodyType::JSON => 2,
        };
        let e: u8 = if self.is_end_or_error {
            4
        } else {
            0
        };
        let st: u8 = if self.is_stream {
            8
        } else {
            0
        };
        let flags: u8 = bt | e | st;
        let len = self.body_len;
        let w: u32 = if self.req_no >= 0 {
            self.req_no as u32
        } else {
            ((self.req_no as i64) + 0x1_0000_0000i64) as u32
        };
        let mut r: [u8; 9] = [0; 9];
        r[0] = flags;
        r[1] = #[verifier::truncate] (((len >> 24) & 0xff) as u8);
        r[2] = #[verifier::truncate] (((len >> 16) & 0xff) as u8);
        r[3] = #[verifier::truncate] (((len >> 8) & 0xff) as u8);
        r[4] = #[verifier::truncate] ((len & 0xff) as u8);
        r[5] = #[verifier::truncate] (((w >> 24) & 0xff) as u8);
        r[6] = #[verifier::truncate] (((w >> 16) & 0xff) as u8);
        r[7] = #[verifier::truncate] (((w >> 8) & 0xff) as u8);
        r[8] = #[verifier::truncate] ((w & 0xff) as u8);
        proof {
            assert(r@ =~= encode_spec(*self));
        }
        r
    }

    /// Decodes a header from the first 9 bytes of `bytes`; fails with
    /// `MalformedHeader` exactly when fewer than 9 bytes are supplied or
    /// the body-type bits hold the reserved value 3.
    pub fn from_slice(bytes: &[u8]) -> (r: Result<Header, RpcError>)
        ensures
            match r {
                Result::Ok(h) => decode_spec(bytes@) == Option::Some(h),
                Result::Err(e) => e == RpcError::MalformedHeader && decode_spec(bytes@) is None,
            },
    {
        if bytes.len() < HEADER_SIZE {
            return Result::Err(RpcError::MalformedHeader);
        }
        let flags = bytes[0];
        let body_type = if flags & 3 == 0 {
            BodyType::Binary
        } else if flags & 3 == 1 {
            BodyType::UTF8
        } else if flags & 3 == 2 {
            BodyType::JSON
        } else {
            proof {
                let f = flags;
                assert(f & 3 == 3) by (bit_vector)
                    requires
                        f & 3 != 0,
                        f & 3 != 1,
                        f & 3 != 2,
                ;
            }
            return Result::Err(RpcError::MalformedHeader);
        };
        let body_len: u32 = (bytes[1] as u32) << 24 | (bytes[2] as u32) << 16 | (bytes[3] as u32)
            << 8 | (bytes[4] as u32);
        let w: u32 = (bytes[5] as u32) << 24 | (bytes[6] as u32) << 16 | (bytes[7] as u32) << 8 | (
        bytes[8] as u32);
        let req_no: i32 = if w < 0x8000_0000 {
            w as i32
        } else {
            ((w as i64) - 0x1_0000_0000i64) as i32
        };
        Result::Ok(
            Header {
                req_no,
                is_stream: flags & 8 == 8,
                is_end_or_error: flags & 4 == 4,
                body_type,
                body_len,
            },
        )
    }
}

} // verus!
