//! Executable encoders for the wire format, each proved to produce exactly
//! the bytes that the specification encoders of [`crate::codec`] describe.

use crate::codec::{
    i32_to_u64, spec_add_request_body, spec_add_response_body, spec_echo_body, spec_encode_client,
    spec_encode_server, spec_i32_field, spec_submessage_field, TAG_ADD_A, TAG_ADD_B,
    TAG_ADD_RESULT, TAG_ECHO_CONTENT, TAG_MSG_ADD, TAG_MSG_ECHO,
};
use crate::messages::{ClientMessage, ClientPayload, ServerMessage, ServerPayload};
use crate::varint::encode_varint;
use vstd::prelude::*;

verus! {

/// Appends all of `src` to `out`.
fn push_all(out: &mut Vec<u8>, src: &Vec<u8>)
    ensures
        final(out)@ == old(out)@ + src@,
{
    let mut k: usize = 0;
    while k < src.len()
        invariant
            k <= src.len(),
            out@ == old(out)@ + src@.subrange(0, k as int),
        decreases src.len() - k,
    {
        out.push(src[k]);
        k = k + 1;
        assert(out@ =~= old(out)@ + src@.subrange(0, k as int));
    }
    assert(out@ =~= old(out)@ + src@);
}

/// Appends the varint field holding the image of `v` under `tag`, unless `v`
/// is the default zero.
fn push_i32_field(out: &mut Vec<u8>, tag: u8, v: i32)
    ensures
        final(out)@ == old(out)@ + spec_i32_field(tag, v),
{
    if v != 0 {
        let ghost before = out@;
        out.push(tag);
        encode_varint(i32_to_u64(v), out);
        assert(out@ =~= before + spec_i32_field(tag, v));
    } else {
        assert(out@ =~= old(out)@ + spec_i32_field(tag, v));
    }
}

/// The encoded body of an echo message.
fn encode_echo_body(content: &Vec<u8>) -> (r: Vec<u8>)
    ensures
        r@ == spec_echo_body(content@),
{
    let mut out: Vec<u8> = Vec::new();
    if content.len() > 0 {
        out.push(TAG_ECHO_CONTENT);
        encode_varint(content.len() as u64, &mut out);
        push_all(&mut out, content);
    }
    assert(out@ =~= spec_echo_body(content@));
    out
}

/// The encoded body of an add request.
fn encode_add_request_body(a: i32, b: i32) -> (r: Vec<u8>)
    ensures
        r@ == spec_add_request_body(a, b),
{
    let mut out: Vec<u8> = Vec::new();
    push_i32_field(&mut out, TAG_ADD_A, a);
    push_i32_field(&mut out, TAG_ADD_B, b);
    assert(out@ =~= spec_add_request_body(a, b));
    out
}

/// The encoded body of an add result.
fn encode_add_response_body(result: i32) -> (r: Vec<u8>)
    ensures
        r@ == spec_add_response_body(result),
{
    let mut out: Vec<u8> = Vec::new();
    push_i32_field(&mut out, TAG_ADD_RESULT, result);
    assert(out@ =~= spec_add_response_body(result));
    out
}

/// Wraps a message body into the length-delimited payload field of the
/// enclosing union.
fn encode_submessage(tag: u8, body: &Vec<u8>) -> (r: Vec<u8>)
    ensures
        r@ == spec_submessage_field(tag, body@),
{
    let mut out: Vec<u8> = Vec::new();
    out.push(tag);
    encode_varint(body.len() as u64, &mut out);
    push_all(&mut out, body);
    assert(out@ =~= spec_submessage_field(tag, body@));
    out
}

/// Encodes one client message, producing exactly the bytes that
/// `spec_encode_client` names.
pub fn encode_client_message(m: &ClientMessage) -> (r: Vec<u8>)
    ensures
        r@ == spec_encode_client(m@),
{
    match &m.message {
        None => Vec::new(),
        Some(ClientPayload::Echo(e)) => {
            let body = encode_echo_body(&e.content);
            encode_submessage(TAG_MSG_ECHO, &body)
        },
        Some(ClientPayload::Add(q)) => {
            let body = encode_add_request_body(q.a, q.b);
            encode_submessage(TAG_MSG_ADD, &body)
        },
    }
}

/// Encodes one server message, producing exactly the bytes that
/// `spec_encode_server` names.
pub fn encode_server_message(m: &ServerMessage) -> (r: Vec<u8>)
    ensures
        r@ == spec_encode_server(m@),
{
    match &m.message {
        None => Vec::new(),
        Some(ServerPayload::Echo(e)) => {
            let body = encode_echo_body(&e.content);
            encode_submessage(TAG_MSG_ECHO, &body)
        },
        Some(ServerPayload::AddResult(q)) => {
            let body = encode_add_response_body(q.result);
            encode_submessage(TAG_MSG_ADD, &body)
        },
    }
}

} // verus!
