use muxrpc::error::RpcError;
use muxrpc::header::{BodyType, Header, HEADER_SIZE};

#[test]
fn test_header_encoding_1() {
    let h = Header::from_slice(
        &(Header {
            req_no: 5,
            is_stream: true,
            is_end_or_error: false,
            body_type: BodyType::JSON,
            body_len: 123,
        }
        .to_array())[..],
    )
    .unwrap();
    assert_eq!(h.req_no, 5);
    assert_eq!(h.is_stream, true);
    assert_eq!(h.is_end_or_error, false);
    assert_eq!(h.body_type, BodyType::JSON);
    assert_eq!(h.body_len, 123);
}

#[test]
fn test_header_encoding_2() {
    let h = Header::from_slice(
        &(Header {
            req_no: -5,
            is_stream: false,
            is_end_or_error: true,
            body_type: BodyType::Binary,
            body_len: 2123,
        }
        .to_array())[..],
    )
    .unwrap();
    assert_eq!(h.req_no, -5);
    assert_eq!(h.is_stream, false);
    assert_eq!(h.is_end_or_error, true);
    assert_eq!(h.body_type, BodyType::Binary);
    assert_eq!(h.body_len, 2123);
}

#[test]
fn encode_stream_json_header_exact_bytes() {
    let bytes = Header {
        req_no: 5,
        is_stream: true,
        is_end_or_error: false,
        body_type: BodyType::JSON,
        body_len: 123,
    }
    .to_array();
    assert_eq!(bytes, [0x0A, 0x00, 0x00, 0x00, 0x7B, 0x00, 0x00, 0x00, 0x05]);
}

#[test]
fn encode_end_binary_header_exact_bytes() {
    let bytes = Header {
        req_no: -5,
        is_stream: false,
        is_end_or_error: true,
        body_type: BodyType::Binary,
        body_len: 2123,
    }
    .to_array();
    assert_eq!(bytes, [0x04, 0x00, 0x00, 0x08, 0x4B, 0xFF, 0xFF, 0xFF, 0xFB]);
}

#[test]
fn round_trip_extreme_headers() {
    let headers = [
        Header {
            req_no: i32::MIN,
            is_stream: false,
            is_end_or_error: false,
            body_type: BodyType::Binary,
            body_len: 0,
        },
        Header {
            req_no: i32::MAX,
            is_stream: true,
            is_end_or_error: true,
            body_type: BodyType::UTF8,
            body_len: u32::MAX,
        },
        Header {
            req_no: 0,
            is_stream: false,
            is_end_or_error: true,
            body_type: BodyType::JSON,
            body_len: 1,
        },
        Header {
            req_no: -1,
            is_stream: true,
            is_end_or_error: false,
            body_type: BodyType::UTF8,
            body_len: 0x0100_0000,
        },
    ];
    for h in headers {
        let back = Header::from_slice(&h.to_array()[..]).unwrap();
        assert_eq!(back, h);
    }
}

#[test]
fn decode_rejects_short_input() {
    for len in 0..HEADER_SIZE {
        let bytes = vec![0u8; len];
        assert_eq!(
            Header::from_slice(&bytes[..]),
            Err(RpcError::MalformedHeader)
        );
    }
}

#[test]
fn decode_rejects_reserved_body_type() {
    let mut bytes = [0u8; 9];
    bytes[0] = 0b0000_0011;
    assert_eq!(
        Header::from_slice(&bytes[..]),
        Err(RpcError::MalformedHeader)
    );
    bytes[0] = 0b0000_1111;
    assert_eq!(
        Header::from_slice(&bytes[..]),
        Err(RpcError::MalformedHeader)
    );
}

#[test]
fn decode_accepts_each_body_type() {
    let mut bytes = [0u8; 9];
    bytes[0] = 0;
    assert_eq!(
        Header::from_slice(&bytes[..]).unwrap().body_type,
        BodyType::Binary
    );
    bytes[0] = 1;
    assert_eq!(
        Header::from_slice(&bytes[..]).unwrap().body_type,
        BodyType::UTF8
    );
    bytes[0] = 2;
    assert_eq!(
        Header::from_slice(&bytes[..]).unwrap().body_type,
        BodyType::JSON
    );
}

#[test]
fn decode_ignores_trailing_bytes() {
    let h = Header {
        req_no: 7,
        is_stream: false,
        is_end_or_error: false,
        body_type: BodyType::JSON,
        body_len: 3,
    };
    let mut bytes = h.to_array().to_vec();
    bytes.extend_from_slice(&[1, 2, 3]);
    assert_eq!(Header::from_slice(&bytes[..]).unwrap(), h);
}
