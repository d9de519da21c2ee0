//! Byte-level checks of the codec: exact encodings, round trips, malformed
//! inputs, and agreement with prost's varint primitives.

use echo_add_server::codec::{add_wrapping, i32_to_u64, u64_to_i32};
use echo_add_server::decode::{decode_client_message, decode_server_message};
use echo_add_server::encode::{encode_client_message, encode_server_message};
use echo_add_server::messages::{
    AddRequest, AddResponse, ClientMessage, ClientPayload, EchoMessage, ServerMessage,
    ServerPayload,
};
use echo_add_server::varint::{decode_varint, encode_varint};

fn client_add(a: i32, b: i32) -> ClientMessage {
    ClientMessage { message: Some(ClientPayload::Add(AddRequest { a, b })) }
}

fn client_echo(content: &[u8]) -> ClientMessage {
    ClientMessage {
        message: Some(ClientPayload::Echo(EchoMessage { content: content.to_vec() })),
    }
}

#[test]
fn varint_exact_bytes() {
    let cases: &[(u64, &[u8])] = &[
        (0, &[0x00]),
        (1, &[0x01]),
        (127, &[0x7f]),
        (128, &[0x80, 0x01]),
        (300, &[0xac, 0x02]),
        (u64::MAX, &[0xff, 0xff, 0xff, 0xff, 0xff, 0xff, 0xff, 0xff, 0xff, 0x01]),
    ];
    for (v, expected) in cases {
        let mut out = Vec::new();
        encode_varint(*v, &mut out);
        assert_eq!(out.as_slice(), *expected);
    }
}

#[test]
fn varint_round_trip_values() {
    let values =
        [0u64, 1, 5, 127, 128, 129, 300, 16383, 16384, 1 << 32, u32::MAX as u64, u64::MAX];
    for v in values {
        let mut out = Vec::new();
        encode_varint(v, &mut out);
        let got = decode_varint(&out, 0, out.len());
        assert_eq!(got, Some((v, out.len())));
    }
}

#[test]
fn varint_matches_prost_encoding() {
    let values = [0u64, 1, 127, 128, 300, 1 << 21, 1 << 63, u64::MAX];
    for v in values {
        let mut mine = Vec::new();
        encode_varint(v, &mut mine);
        let mut theirs = Vec::new();
        prost::encoding::encode_varint(v, &mut theirs);
        assert_eq!(mine, theirs);
    }
}

#[test]
fn varint_decode_matches_prost() {
    let buffers: &[&[u8]] = &[
        &[0x00],
        &[0x7f],
        &[0x80, 0x01],
        &[0xac, 0x02],
        &[0xff, 0xff, 0xff, 0xff, 0xff, 0xff, 0xff, 0xff, 0xff, 0x01],
    ];
    for bytes in buffers {
        let v = Vec::from(*bytes);
        let mine = decode_varint(&v, 0, v.len()).expect("well-formed varint");
        let mut slice: &[u8] = bytes;
        let theirs = prost::encoding::decode_varint(&mut slice).expect("prost decodes");
        assert_eq!(mine.0, theirs);
        assert_eq!(mine.1, bytes.len() - slice.len());
    }
}

#[test]
fn varint_non_minimal_is_accepted_like_prost() {
    // A zero-padded continuation still names the same value.
    let bytes: &[u8] = &[0x80, 0x00];
    let v = Vec::from(bytes);
    let mine = decode_varint(&v, 0, v.len()).expect("non-minimal varint decodes");
    let mut slice: &[u8] = bytes;
    let theirs = prost::encoding::decode_varint(&mut slice).expect("prost decodes");
    assert_eq!(mine.0, 0);
    assert_eq!(mine.0, theirs);
}

#[test]
fn varint_truncated_is_rejected() {
    let v = vec![0x80u8, 0x80, 0x80];
    assert_eq!(decode_varint(&v, 0, v.len()), None);
}

#[test]
fn varint_overflow_is_rejected() {
    // Eleven significant groups: the value would need more than 64 bits.
    let v = vec![0xffu8, 0xff, 0xff, 0xff, 0xff, 0xff, 0xff, 0xff, 0xff, 0xff, 0x01];
    assert_eq!(decode_varint(&v, 0, v.len()), None);
}

#[test]
fn i32_wire_image() {
    assert_eq!(i32_to_u64(0), 0);
    assert_eq!(i32_to_u64(7), 7);
    assert_eq!(i32_to_u64(i32::MAX), 0x7fff_ffff);
    assert_eq!(i32_to_u64(-1), u64::MAX);
    assert_eq!(i32_to_u64(i32::MIN), 0xffff_ffff_8000_0000);
    for v in [0i32, 1, -1, 42, -42, i32::MAX, i32::MIN] {
        assert_eq!(u64_to_i32(i32_to_u64(v)), v);
    }
}

#[test]
fn add_wrapping_policy() {
    assert_eq!(add_wrapping(2, 3), 5);
    assert_eq!(add_wrapping(-2, 3), 1);
    assert_eq!(add_wrapping(i32::MAX, 1), i32::MIN);
    assert_eq!(add_wrapping(i32::MIN, -1), i32::MAX);
    assert_eq!(add_wrapping(i32::MAX, i32::MAX), -2);
}

#[test]
fn add_request_exact_bytes() {
    let bytes = encode_client_message(&client_add(2, 3));
    assert_eq!(bytes, vec![0x12, 0x04, 0x08, 0x02, 0x10, 0x03]);
}

#[test]
fn echo_request_exact_bytes() {
    let bytes = encode_client_message(&client_echo(b"hi"));
    assert_eq!(bytes, vec![0x0a, 0x04, 0x0a, 0x02, 0x68, 0x69]);
}

#[test]
fn add_response_exact_bytes() {
    let m = ServerMessage {
        message: Some(ServerPayload::AddResult(AddResponse { result: 5 })),
    };
    assert_eq!(encode_server_message(&m), vec![0x12, 0x02, 0x08, 0x05]);
}

#[test]
fn empty_message_encodes_to_nothing() {
    let bytes = encode_client_message(&ClientMessage { message: None });
    assert!(bytes.is_empty());
    let decoded = decode_client_message(&bytes).expect("empty body decodes");
    assert_eq!(decoded.message, None);
}

#[test]
fn client_round_trips() {
    let messages = [
        ClientMessage { message: None },
        client_add(2, 3),
        client_add(0, 0),
        client_add(-1, 1),
        client_add(i32::MIN, i32::MAX),
        client_echo(b""),
        client_echo(b"hi"),
        client_echo(&[0x00, 0xff, 0x80, 0x7f]),
    ];
    for m in messages {
        let bytes = encode_client_message(&m);
        let back = decode_client_message(&bytes).expect("round trip decodes");
        assert_eq!(back, m);
    }
}

#[test]
fn server_round_trips() {
    let messages = [
        ServerMessage { message: None },
        ServerMessage { message: Some(ServerPayload::AddResult(AddResponse { result: -7 })) },
        ServerMessage {
            message: Some(ServerPayload::Echo(EchoMessage { content: b"abc".to_vec() })),
        },
    ];
    for m in messages {
        let bytes = encode_server_message(&m);
        let back = decode_server_message(&bytes).expect("round trip decodes");
        assert_eq!(back, m);
    }
}

#[test]
fn negative_operand_takes_ten_bytes() {
    let bytes = encode_client_message(&client_add(-1, 0));
    assert_eq!(
        bytes,
        vec![0x12, 0x0b, 0x08, 0xff, 0xff, 0xff, 0xff, 0xff, 0xff, 0xff, 0xff, 0xff, 0x01]
    );
    let back = decode_client_message(&bytes).expect("decodes");
    assert_eq!(back, client_add(-1, 0));
}

#[test]
fn unknown_fields_are_skipped() {
    // Field 3 as a varint, then field 4 as a length-delimited payload: both
    // unknown to the schema, so the message has no payload.
    let bytes = vec![0x18u8, 0x2a, 0x22, 0x02, 0xaa, 0xbb];
    let decoded = decode_client_message(&bytes).expect("skippable fields decode");
    assert_eq!(decoded.message, None);
}

#[test]
fn last_payload_field_wins() {
    let mut bytes = encode_client_message(&client_echo(b"hi"));
    bytes.extend_from_slice(&encode_client_message(&client_add(2, 3)));
    let decoded = decode_client_message(&bytes).expect("decodes");
    assert_eq!(decoded, client_add(2, 3));
}

#[test]
fn truncated_message_is_rejected() {
    assert!(decode_client_message(&vec![0x12u8]).is_err());
    assert!(decode_client_message(&vec![0x12u8, 0x04, 0x08]).is_err());
}

#[test]
fn length_overrun_is_rejected() {
    // The payload field claims five bytes where only one follows.
    assert!(decode_client_message(&vec![0x0au8, 0x05, 0x0a]).is_err());
}

#[test]
fn echo_near_the_read_buffer_boundary() {
    // Content sized so that the whole encoded message still fits one
    // 512-byte read.
    let content: Vec<u8> = (0..500u16).map(|i| (i % 251) as u8).collect();
    let m = client_echo(&content);
    let bytes = encode_client_message(&m);
    assert!(bytes.len() <= 512);
    let back = decode_client_message(&bytes).expect("decodes");
    assert_eq!(back, m);
}

#[test]
fn wrong_wire_type_is_rejected() {
    // Field 1 with wire type 0 where the schema wants a length-delimited
    // payload.
    assert!(decode_client_message(&vec![0x08u8, 0x01]).is_err());
}

#[test]
fn field_zero_is_rejected() {
    assert!(decode_client_message(&vec![0x02u8, 0x00]).is_err());
}

#[test]
fn unsupported_wire_type_is_rejected() {
    // Wire type 3 (group start) is not part of the schema.
    assert!(decode_client_message(&vec![0x1bu8]).is_err());
}
