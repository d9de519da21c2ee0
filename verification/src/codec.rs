//! The wire schema of the tagged message unions, as a mathematical model.
//!
//! Every message is a sequence of fields. A field starts with a varint tag
//! whose value is `field_number * 8 + wire_type`; wire type 0 is a varint
//! value, wire type 2 a length-delimited payload (types 1 and 5 are fixed
//! widths that only appear in unknown fields, which decoding skips). The
//! unions put each payload in a length-delimited field of the enclosing
//! message: field 1 carries an echo message, field 2 an add request (client
//! side) or an add result (server side). Inside an echo message, field 1
//! holds the content bytes; inside an add request, fields 1 and 2 hold the
//! two 32-bit signed operands as varints of their two's-complement 64-bit
//! image; inside an add result, field 1 holds the result the same way.
//!
//! Encoding is canonical: a field whose value is the default (zero integer,
//! empty content) is left out. Decoding accepts any field order, skips
//! unknown fields, lets the last occurrence of a recognized field win, and
//! rejects a tag of field number zero, a recognized field of the wrong wire
//! type, a truncated or oversized varint, and a length that overruns the
//! buffer.

use crate::messages::{ClientMessageV, ClientPayloadV, ServerMessageV, ServerPayloadV};
use crate::varint::{lemma_decode_varint_bounds, spec_decode_varint, varint_bytes};
use vstd::prelude::*;

verus! {

/// Tag of the echo payload field in either union (field 1, wire type 2).
pub const TAG_MSG_ECHO: u8 = 0x0a;

/// Tag of the add payload field in either union (field 2, wire type 2).
pub const TAG_MSG_ADD: u8 = 0x12;

/// Tag of the content field of an echo message (field 1, wire type 2).
pub const TAG_ECHO_CONTENT: u8 = 0x0a;

/// Tag of the first operand of an add request (field 1, wire type 0).
pub const TAG_ADD_A: u8 = 0x08;

/// Tag of the second operand of an add request (field 2, wire type 0).
pub const TAG_ADD_B: u8 = 0x10;

/// Tag of the result field of an add result (field 1, wire type 0).
pub const TAG_ADD_RESULT: u8 = 0x08;

/// The two's-complement 64-bit image of a 32-bit signed integer.
pub open spec fn u64_of_i32(v: i32) -> u64 {
    if v >= 0 {
        v as u64
    } else {
        (v + 0x1_0000_0000_0000_0000) as u64
    }
}

/// The 32-bit signed integer whose two's-complement image is the low 32 bits
/// of `v`.
pub open spec fn i32_of_u64(v: u64) -> i32 {
    let low = v as int % 0x1_0000_0000;
    if low < 0x8000_0000 {
        low as i32
    } else {
        (low - 0x1_0000_0000) as i32
    }
}

/// 32-bit signed addition with two's-complement wraparound.
pub open spec fn wrap_add_i32(a: i32, b: i32) -> i32 {
    if a + b > i32::MAX {
        (a + b - 0x1_0000_0000) as i32
    } else if a + b < i32::MIN {
        (a + b + 0x1_0000_0000) as i32
    } else {
        (a + b) as i32
    }
}

/// Round trip of the 64-bit image: every 32-bit value survives the wire.
pub proof fn lemma_i32_wire_round_trip(v: i32)
    ensures
        i32_of_u64(u64_of_i32(v)) == v,
{
    if v < 0 {
        let u = u64_of_i32(v);
        vstd::arithmetic::div_mod::lemma_mod_multiples_vanish(
            0xffff_ffff,
            v + 0x1_0000_0000,
            0x1_0000_0000,
        );
        vstd::arithmetic::div_mod::lemma_small_mod((v + 0x1_0000_0000) as nat, 0x1_0000_0000);
        assert(u as int % 0x1_0000_0000 == v + 0x1_0000_0000);
    }
}

/// Computes `u64_of_i32`.
pub fn i32_to_u64(v: i32) -> (r: u64)
    ensures
        r == u64_of_i32(v),
{
    if v >= 0 {
        v as u64
    } else {
        let mag = (-(v as i64)) as u64;
        u64::MAX - mag + 1
    }
}

/// Computes `i32_of_u64`.
pub fn u64_to_i32(v: u64) -> (r: i32)
    ensures
        r == i32_of_u64(v),
{
    let low: u64 = v % 0x1_0000_0000;
    if low < 0x8000_0000 {
        low as i32
    } else {
        ((low as i64) - 0x1_0000_0000) as i32
    }
}

/// Computes `wrap_add_i32`.
pub fn add_wrapping(a: i32, b: i32) -> (r: i32)
    ensures
        r == wrap_add_i32(a, b),
{
    let s: i64 = a as i64 + b as i64;
    if s > i32::MAX as i64 {
        (s - 0x1_0000_0000) as i32
    } else if s < i32::MIN as i64 {
        (s + 0x1_0000_0000) as i32
    } else {
        s as i32
    }
}

// ---------------------------------------------------------------------------
// Encoding
// ---------------------------------------------------------------------------

/// A varint field holding the image of a 32-bit signed integer; left out when
/// the value is the default zero.
pub open spec fn spec_i32_field(tag: u8, v: i32) -> Seq<u8> {
    if v == 0 {
        Seq::<u8>::empty()
    } else {
        seq![tag] + varint_bytes(u64_of_i32(v) as nat)
    }
}

/// A length-delimited field holding raw bytes; left out when empty.
pub open spec fn spec_bytes_field(tag: u8, content: Seq<u8>) -> Seq<u8> {
    if content.len() == 0 {
        Seq::<u8>::empty()
    } else {
        seq![tag] + varint_bytes(content.len()) + content
    }
}

/// A length-delimited field holding an embedded message body; always present,
/// even when the body is empty, so that the payload choice stays visible.
pub open spec fn spec_submessage_field(tag: u8, body: Seq<u8>) -> Seq<u8> {
    seq![tag] + varint_bytes(body.len()) + body
}

/// The body of an echo message.
pub open spec fn spec_echo_body(content: Seq<u8>) -> Seq<u8> {
    spec_bytes_field(TAG_ECHO_CONTENT, content)
}

/// The body of an add request.
pub open spec fn spec_add_request_body(a: i32, b: i32) -> Seq<u8> {
    spec_i32_field(TAG_ADD_A, a) + spec_i32_field(TAG_ADD_B, b)
}

/// The body of an add result.
pub open spec fn spec_add_response_body(result: i32) -> Seq<u8> {
    spec_i32_field(TAG_ADD_RESULT, result)
}

/// The bytes of a whole client message.
pub open spec fn spec_encode_client(m: ClientMessageV) -> Seq<u8> {
    match m.message {
        None => Seq::<u8>::empty(),
        Some(ClientPayloadV::Echo { content }) => spec_submessage_field(
            TAG_MSG_ECHO,
            spec_echo_body(content),
        ),
        Some(ClientPayloadV::Add { a, b }) => spec_submessage_field(
            TAG_MSG_ADD,
            spec_add_request_body(a, b),
        ),
    }
}

/// The bytes of a whole server message.
pub open spec fn spec_encode_server(m: ServerMessageV) -> Seq<u8> {
    match m.message {
        None => Seq::<u8>::empty(),
        Some(ServerPayloadV::Echo { content }) => spec_submessage_field(
            TAG_MSG_ECHO,
            spec_echo_body(content),
        ),
        Some(ServerPayloadV::AddResult { result }) => spec_submessage_field(
            TAG_MSG_ADD,
            spec_add_response_body(result),
        ),
    }
}

// ---------------------------------------------------------------------------
// Decoding
// ---------------------------------------------------------------------------

/// Position just past an unknown field's value of the given wire type, or
/// `None` when the value is truncated or the wire type unsupported.
pub open spec fn spec_skip_field(s: Seq<u8>, i: int, end: int, wire: u64) -> Option<int> {
    if wire == 0 {
        match spec_decode_varint(s, i, end) {
            None => None,
            Some((_v, j)) => Some(j),
        }
    } else if wire == 1 {
        if i + 8 <= end {
            Some(i + 8)
        } else {
            None
        }
    } else if wire == 2 {
        match spec_decode_varint(s, i, end) {
            None => None,
            Some((l, j)) => if l <= end - j {
                Some(j + l)
            } else {
                None
            },
        }
    } else if wire == 5 {
        if i + 4 <= end {
            Some(i + 4)
        } else {
            None
        }
    } else {
        None
    }
}

/// A skipped field ends past where it began and inside the window.
pub proof fn lemma_skip_field_bounds(s: Seq<u8>, i: int, end: int, wire: u64)
    requires
        0 <= i,
    ensures
        spec_skip_field(s, i, end, wire) matches Some(j) ==> i < j <= end,
{
    lemma_decode_varint_bounds(s, i, end);
}

/// The fields of an echo message body in `[i, end)`, folded over the content
/// seen so far: the last content field wins, unknown fields are skipped.
pub open spec fn spec_echo_fields(s: Seq<u8>, i: int, end: int, cur: Seq<u8>) -> Option<Seq<u8>>
    decreases end - i,
    when 0 <= i
    via spec_echo_fields_dec
{
    if i >= end {
        Some(cur)
    } else {
        match spec_decode_varint(s, i, end) {
            None => None,
            Some((tag, j)) => {
                let field = tag / 8;
                let wire = tag % 8;
                if field == 0 {
                    None
                } else if field == 1 {
                    if wire != 2 {
                        None
                    } else {
                        match spec_decode_varint(s, j, end) {
                            None => None,
                            Some((l, j2)) => if l <= end - j2 {
                                spec_echo_fields(s, j2 + l, end, s.subrange(j2, j2 + l))
                            } else {
                                None
                            },
                        }
                    }
                } else {
                    match spec_skip_field(s, j, end, wire) {
                        None => None,
                        Some(k) => spec_echo_fields(s, k, end, cur),
                    }
                }
            },
        }
    }
}

#[via_fn]
proof fn spec_echo_fields_dec(s: Seq<u8>, i: int, end: int, cur: Seq<u8>) {
    lemma_decode_varint_bounds(s, i, end);
    match spec_decode_varint(s, i, end) {
        None => {},
        Some((tag, j)) => {
            lemma_decode_varint_bounds(s, j, end);
            lemma_skip_field_bounds(s, j, end, tag % 8);
        },
    }
}

/// The fields of an add request body, folded over the operands seen so far.
pub open spec fn spec_add_request_fields(s: Seq<u8>, i: int, end: int, a: i32, b: i32) -> Option<
    (i32, i32),
>
    decreases end - i,
    when 0 <= i
    via spec_add_request_fields_dec
{
    if i >= end {
        Some((a, b))
    } else {
        match spec_decode_varint(s, i, end) {
            None => None,
            Some((tag, j)) => {
                let field = tag / 8;
                let wire = tag % 8;
                if field == 0 {
                    None
                } else if field == 1 || field == 2 {
                    if wire != 0 {
                        None
                    } else {
                        match spec_decode_varint(s, j, end) {
                            None => None,
                            Some((v, j2)) => if field == 1 {
                                spec_add_request_fields(s, j2, end, i32_of_u64(v), b)
                            } else {
                                spec_add_request_fields(s, j2, end, a, i32_of_u64(v))
                            },
                        }
                    }
                } else {
                    match spec_skip_field(s, j, end, wire) {
                        None => None,
                        Some(k) => spec_add_request_fields(s, k, end, a, b),
                    }
                }
            },
        }
    }
}

#[via_fn]
proof fn spec_add_request_fields_dec(s: Seq<u8>, i: int, end: int, a: i32, b: i32) {
    lemma_decode_varint_bounds(s, i, end);
    match spec_decode_varint(s, i, end) {
        None => {},
        Some((tag, j)) => {
            lemma_decode_varint_bounds(s, j, end);
            lemma_skip_field_bounds(s, j, end, tag % 8);
        },
    }
}

/// The fields of an add result body, folded over the result seen so far.
pub open spec fn spec_add_response_fields(s: Seq<u8>, i: int, end: int, result: i32) -> Option<
    i32,
>
    decreases end - i,
    when 0 <= i
    via spec_add_response_fields_dec
{
    if i >= end {
        Some(result)
    } else {
        match spec_decode_varint(s, i, end) {
            None => None,
            Some((tag, j)) => {
                let field = tag / 8;
                let wire = tag % 8;
                if field == 0 {
                    None
                } else if field == 1 {
                    if wire != 0 {
                        None
                    } else {
                        match spec_decode_varint(s, j, end) {
                            None => None,
                            Some((v, j2)) => spec_add_response_fields(s, j2, end, i32_of_u64(v)),
                        }
                    }
                } else {
                    match spec_skip_field(s, j, end, wire) {
                        None => None,
                        Some(k) => spec_add_response_fields(s, k, end, result),
                    }
                }
            },
        }
    }
}

#[via_fn]
proof fn spec_add_response_fields_dec(s: Seq<u8>, i: int, end: int, result: i32) {
    lemma_decode_varint_bounds(s, i, end);
    match spec_decode_varint(s, i, end) {
        None => {},
        Some((tag, j)) => {
            lemma_decode_varint_bounds(s, j, end);
            lemma_skip_field_bounds(s, j, end, tag % 8);
        },
    }
}

/// The fields of a client message in `[i, end)`, folded over the payload seen
/// so far: the last recognized payload field wins.
pub open spec fn spec_client_fields(
    s: Seq<u8>,
    i: int,
    end: int,
    cur: Option<ClientPayloadV>,
) -> Option<Option<ClientPayloadV>>
    decreases end - i,
    when 0 <= i
    via spec_client_fields_dec
{
    if i >= end {
        Some(cur)
    } else {
        match spec_decode_varint(s, i, end) {
            None => None,
            Some((tag, j)) => {
                let field = tag / 8;
                let wire = tag % 8;
                if field == 0 {
                    None
                } else if field == 1 || field == 2 {
                    if wire != 2 {
                        None
                    } else {
                        match spec_decode_varint(s, j, end) {
                            None => None,
                            Some((l, j2)) => if l <= end - j2 {
                                if field == 1 {
                                    match spec_echo_fields(s, j2, j2 + l, Seq::<u8>::empty()) {
                                        None => None,
                                        Some(content) => spec_client_fields(
                                            s,
                                            j2 + l,
                                            end,
                                            Some(ClientPayloadV::Echo { content }),
                                        ),
                                    }
                                } else {
                                    match spec_add_request_fields(s, j2, j2 + l, 0, 0) {
                                        None => None,
                                        Some((a, b)) => spec_client_fields(
                                            s,
                                            j2 + l,
                                            end,
                                            Some(ClientPayloadV::Add { a, b }),
                                        ),
                                    }
                                }
                            } else {
                                None
                            },
                        }
                    }
                } else {
                    match spec_skip_field(s, j, end, wire) {
                        None => None,
                        Some(k) => spec_client_fields(s, k, end, cur),
                    }
                }
            },
        }
    }
}

#[via_fn]
proof fn spec_client_fields_dec(s: Seq<u8>, i: int, end: int, cur: Option<ClientPayloadV>) {
    lemma_decode_varint_bounds(s, i, end);
    match spec_decode_varint(s, i, end) {
        None => {},
        Some((tag, j)) => {
            lemma_decode_varint_bounds(s, j, end);
            lemma_skip_field_bounds(s, j, end, tag % 8);
        },
    }
}

/// The fields of a server message in `[i, end)`.
pub open spec fn spec_server_fields(
    s: Seq<u8>,
    i: int,
    end: int,
    cur: Option<ServerPayloadV>,
) -> Option<Option<ServerPayloadV>>
    decreases end - i,
    when 0 <= i
    via spec_server_fields_dec
{
    if i >= end {
        Some(cur)
    } else {
        match spec_decode_varint(s, i, end) {
            None => None,
            Some((tag, j)) => {
                let field = tag / 8;
                let wire = tag % 8;
                if field == 0 {
                    None
                } else if field == 1 || field == 2 {
                    if wire != 2 {
                        None
                    } else {
                        match spec_decode_varint(s, j, end) {
                            None => None,
                            Some((l, j2)) => if l <= end - j2 {
                                if field == 1 {
                                    match spec_echo_fields(s, j2, j2 + l, Seq::<u8>::empty()) {
                                        None => None,
                                        Some(content) => spec_server_fields(
                                            s,
                                            j2 + l,
                                            end,
                                            Some(ServerPayloadV::Echo { content }),
                                        ),
                                    }
                                } else {
                                    match spec_add_response_fields(s, j2, j2 + l, 0) {
                                        None => None,
                                        Some(result) => spec_server_fields(
                                            s,
                                            j2 + l,
                                            end,
                                            Some(ServerPayloadV::AddResult { result }),
                                        ),
                                    }
                                }
                            } else {
                                None
                            },
                        }
                    }
                } else {
                    match spec_skip_field(s, j, end, wire) {
                        None => None,
                        Some(k) => spec_server_fields(s, k, end, cur),
                    }
                }
            },
        }
    }
}

#[via_fn]
proof fn spec_server_fields_dec(s: Seq<u8>, i: int, end: int, cur: Option<ServerPayloadV>) {
    lemma_decode_varint_bounds(s, i, end);
    match spec_decode_varint(s, i, end) {
        None => {},
        Some((tag, j)) => {
            lemma_decode_varint_bounds(s, j, end);
            lemma_skip_field_bounds(s, j, end, tag % 8);
        },
    }
}

/// The client message that `s` decodes to, or `None` when `s` is malformed.
pub open spec fn spec_decode_client(s: Seq<u8>) -> Option<ClientMessageV> {
    match spec_client_fields(s, 0, s.len() as int, None) {
        None => None,
        Some(p) => Some(ClientMessageV { message: p }),
    }
}

/// The server message that `s` decodes to, or `None` when `s` is malformed.
pub open spec fn spec_decode_server(s: Seq<u8>) -> Option<ServerMessageV> {
    match spec_server_fields(s, 0, s.len() as int, None) {
        None => None,
        Some(p) => Some(ServerMessageV { message: p }),
    }
}

} // verus!
