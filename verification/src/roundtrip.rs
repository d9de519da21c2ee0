//! Decoding inverts encoding: every message whose encoding the schema can
//! frame comes back unchanged from its own bytes.

use crate::codec::{
    lemma_i32_wire_round_trip, spec_add_request_body, spec_add_request_fields,
    spec_add_response_body, spec_add_response_fields, spec_client_fields, spec_decode_client,
    spec_decode_server, spec_echo_body, spec_echo_fields, spec_encode_client, spec_encode_server,
    spec_i32_field, spec_server_fields, spec_submessage_field, u64_of_i32, TAG_ADD_A, TAG_ADD_B,
    TAG_ADD_RESULT, TAG_ECHO_CONTENT, TAG_MSG_ADD, TAG_MSG_ECHO,
};
use crate::messages::{ClientMessageV, ClientPayloadV, ServerMessageV, ServerPayloadV};
use crate::varint::{lemma_varint_round_trip, spec_decode_varint, varint_bytes};
use vstd::prelude::*;

verus! {

/// A value below two to the sixty-fourth never takes more than ten varint
/// bytes.
pub proof fn lemma_varint_bytes_len10(v: nat)
    requires
        v < 0x1_0000_0000_0000_0000,
    ensures
        varint_bytes(v).len() <= 10,
{
    let v1 = v / 128;
    let v2 = v1 / 128;
    let v3 = v2 / 128;
    let v4 = v3 / 128;
    let v5 = v4 / 128;
    let v6 = v5 / 128;
    let v7 = v6 / 128;
    let v8 = v7 / 128;
    let v9 = v8 / 128;
    assert(v1 < 0x0200_0000_0000_0000);
    assert(v2 < 0x0004_0000_0000_0000);
    assert(v3 < 0x0000_0800_0000_0000);
    assert(v4 < 0x0000_0010_0000_0000);
    assert(v5 < 0x0000_0000_2000_0000);
    assert(v6 < 0x0000_0000_0040_0000);
    assert(v7 < 0x0000_0000_0000_8000);
    assert(v8 < 0x0000_0000_0000_0100);
    assert(v9 < 0x0000_0000_0000_0002);
    assert(varint_bytes(v9).len() <= 1);
    assert(varint_bytes(v8).len() <= 2);
    assert(varint_bytes(v7).len() <= 3);
    assert(varint_bytes(v6).len() <= 4);
    assert(varint_bytes(v5).len() <= 5);
    assert(varint_bytes(v4).len() <= 6);
    assert(varint_bytes(v3).len() <= 7);
    assert(varint_bytes(v2).len() <= 8);
    assert(varint_bytes(v1).len() <= 9);
    assert(varint_bytes(v).len() <= 10);
}

/// An echo message body placed at `[i, end)` of `s` decodes back to its
/// content.
proof fn lemma_echo_body_round_trip(s: Seq<u8>, i: int, end: int, content: Seq<u8>)
    requires
        0 <= i <= end <= s.len(),
        end - i == spec_echo_body(content).len(),
        forall|k: int|
            0 <= k < spec_echo_body(content).len() ==> s[i + k] == spec_echo_body(content)[k],
        content.len() < 0x1_0000_0000_0000_0000,
    ensures
        spec_echo_fields(s, i, end, Seq::<u8>::empty()) == Some(content),
{
    let body = spec_echo_body(content);
    if content.len() == 0 {
        assert(content =~= Seq::<u8>::empty());
    } else {
        let lv = content.len() as u64;
        let vb = varint_bytes(lv as nat);
        assert(body == seq![TAG_ECHO_CONTENT] + varint_bytes(content.len()) + content);
        assert(s[i] == body[0]);
        assert(body[0] == TAG_ECHO_CONTENT) by {
            assert((seq![TAG_ECHO_CONTENT] + varint_bytes(content.len()))[0]
                == TAG_ECHO_CONTENT);
        }
        assert(spec_decode_varint(s, i, end) == Some((TAG_ECHO_CONTENT as u64, i + 1)));
        assert forall|k: int| 0 <= k < vb.len() implies s[i + 1 + k] == vb[k] by {
            assert((seq![TAG_ECHO_CONTENT] + varint_bytes(content.len()))[1 + k] == vb[k]);
            assert(body[1 + k] == vb[k]);
        }
        lemma_varint_round_trip(s, i + 1, end, lv);
        let p = i + 1 + vb.len() as int;
        assert(spec_decode_varint(s, i + 1, end) == Some((lv, p)));
        assert(end - p == content.len());
        assert forall|k: int| 0 <= k < content.len() implies s[p + k] == content[k] by {
            assert(body[1 + vb.len() + k] == content[k]);
        }
        assert(s.subrange(p, p + lv as int) =~= content);
        assert(spec_echo_fields(s, p + lv as int, end, s.subrange(p, p + lv as int))
            == Some(s.subrange(p, p + lv as int)));
    }
}

/// The second-operand field placed at `[i, end)` finishes an add request
/// decode whose first operand is already `a`.
proof fn lemma_add_b_field_round_trip(s: Seq<u8>, i: int, end: int, a: i32, b: i32)
    requires
        0 <= i <= end <= s.len(),
        end - i == spec_i32_field(TAG_ADD_B, b).len(),
        forall|k: int|
            0 <= k < spec_i32_field(TAG_ADD_B, b).len() ==> s[i + k] == spec_i32_field(
                TAG_ADD_B,
                b,
            )[k],
    ensures
        spec_add_request_fields(s, i, end, a, 0) == Some((a, b)),
{
    let fb = spec_i32_field(TAG_ADD_B, b);
    if b == 0 {
        assert(i == end);
    } else {
        let vb = varint_bytes(u64_of_i32(b) as nat);
        assert(fb == seq![TAG_ADD_B] + vb);
        assert(s[i] == fb[0]);
        assert(fb[0] == TAG_ADD_B);
        assert(spec_decode_varint(s, i, end) == Some((TAG_ADD_B as u64, i + 1)));
        assert forall|k: int| 0 <= k < vb.len() implies s[i + 1 + k] == vb[k] by {
            assert(fb[1 + k] == vb[k]);
        }
        lemma_varint_round_trip(s, i + 1, end, u64_of_i32(b));
        lemma_i32_wire_round_trip(b);
        let p = i + 1 + vb.len() as int;
        assert(p == end);
        assert(spec_add_request_fields(s, p, end, a, b) == Some((a, b)));
    }
}

/// An add request body placed at `[i, end)` of `s` decodes back to its two
/// operands.
proof fn lemma_add_request_body_round_trip(s: Seq<u8>, i: int, end: int, a: i32, b: i32)
    requires
        0 <= i <= end <= s.len(),
        end - i == spec_add_request_body(a, b).len(),
        forall|k: int|
            0 <= k < spec_add_request_body(a, b).len() ==> s[i + k] == spec_add_request_body(
                a,
                b,
            )[k],
    ensures
        spec_add_request_fields(s, i, end, 0, 0) == Some((a, b)),
{
    let fa = spec_i32_field(TAG_ADD_A, a);
    let fb = spec_i32_field(TAG_ADD_B, b);
    let body = spec_add_request_body(a, b);
    assert(body == fa + fb);
    if a == 0 {
        assert(fa.len() == 0);
        assert forall|k: int| 0 <= k < fb.len() implies s[i + k] == fb[k] by {
            assert(body[k] == fb[k]);
        }
        lemma_add_b_field_round_trip(s, i, end, 0, b);
    } else {
        let va = varint_bytes(u64_of_i32(a) as nat);
        assert(fa == seq![TAG_ADD_A] + va);
        assert(s[i] == body[0]);
        assert(body[0] == fa[0]);
        assert(fa[0] == TAG_ADD_A);
        assert(spec_decode_varint(s, i, end) == Some((TAG_ADD_A as u64, i + 1)));
        assert forall|k: int| 0 <= k < va.len() implies s[i + 1 + k] == va[k] by {
            assert(fa[1 + k] == va[k]);
            assert(body[1 + k] == fa[1 + k]);
        }
        lemma_varint_round_trip(s, i + 1, end, u64_of_i32(a));
        lemma_i32_wire_round_trip(a);
        let p = i + 1 + va.len() as int;
        assert forall|k: int| 0 <= k < fb.len() implies s[p + k] == fb[k] by {
            assert(body[fa.len() + k] == fb[k]);
            assert(fa.len() + k == (p - i) + k);
        }
        lemma_add_b_field_round_trip(s, p, end, a, b);
    }
}

/// An add result body placed at `[i, end)` of `s` decodes back to its result.
proof fn lemma_add_response_body_round_trip(s: Seq<u8>, i: int, end: int, result: i32)
    requires
        0 <= i <= end <= s.len(),
        end - i == spec_add_response_body(result).len(),
        forall|k: int|
            0 <= k < spec_add_response_body(result).len() ==> s[i + k] == spec_add_response_body(
                result,
            )[k],
    ensures
        spec_add_response_fields(s, i, end, 0) == Some(result),
{
    let fr = spec_i32_field(TAG_ADD_RESULT, result);
    if result == 0 {
        assert(i == end);
    } else {
        let vr = varint_bytes(u64_of_i32(result) as nat);
        assert(fr == seq![TAG_ADD_RESULT] + vr);
        assert(s[i] == fr[0]);
        assert(fr[0] == TAG_ADD_RESULT);
        assert(spec_decode_varint(s, i, end) == Some((TAG_ADD_RESULT as u64, i + 1)));
        assert forall|k: int| 0 <= k < vr.len() implies s[i + 1 + k] == vr[k] by {
            assert(fr[1 + k] == vr[k]);
        }
        lemma_varint_round_trip(s, i + 1, end, u64_of_i32(result));
        lemma_i32_wire_round_trip(result);
        let p = i + 1 + vr.len() as int;
        assert(p == end);
        assert(spec_add_response_fields(s, p, end, result) == Some(result));
    }
}

/// Facts about the frame around a message body: the whole encoding is the
/// payload tag, the body length as a varint, then the body itself.
proof fn lemma_submessage_frame(s: Seq<u8>, tag: u8, body: Seq<u8>)
    requires
        s == spec_submessage_field(tag, body),
        body.len() < 0x1_0000_0000_0000_0000,
        tag < 128,
    ensures
        s.len() == 1 + varint_bytes(body.len()).len() + body.len(),
        spec_decode_varint(s, 0, s.len() as int) == Some((tag as u64, 1int)),
        spec_decode_varint(s, 1, s.len() as int) == Some(
            (body.len() as u64, 1 + varint_bytes(body.len()).len() as int),
        ),
        forall|k: int|
            0 <= k < body.len() ==> s[1 + varint_bytes(body.len()).len() + k] == body[k],
{
    let vb = varint_bytes(body.len());
    assert(s == seq![tag] + vb + body);
    assert(s[0] == tag) by {
        assert((seq![tag] + vb)[0] == tag);
    }
    assert(spec_decode_varint(s, 0, s.len() as int) == Some((tag as u64, 1int)));
    assert forall|k: int| 0 <= k < vb.len() implies s[1 + k] == vb[k] by {
        assert((seq![tag] + vb)[1 + k] == vb[k]);
    }
    lemma_varint_round_trip(s, 1, s.len() as int, body.len() as u64);
    assert forall|k: int| 0 <= k < body.len() implies s[1 + vb.len() + k] == body[k] by {
        assert(s[(seq![tag] + vb).len() + k] == body[k]);
    }
}

/// A client message round-trips when its echo content, if any, leaves room
/// for the length prefix of the frame.
pub open spec fn client_encodable(m: ClientMessageV) -> bool {
    match m.message {
        Some(ClientPayloadV::Echo { content }) => content.len()
            < 0xffff_ffff_ffff_ffe0,
        _ => true,
    }
}

/// A server message round-trips under the same room for its echo content.
pub open spec fn server_encodable(m: ServerMessageV) -> bool {
    match m.message {
        Some(ServerPayloadV::Echo { content }) => content.len()
            < 0xffff_ffff_ffff_ffe0,
        _ => true,
    }
}

/// Decoding inverts encoding for client messages: the wire carries every
/// encodable request faithfully.
pub proof fn lemma_client_round_trip(m: ClientMessageV)
    requires
        client_encodable(m),
    ensures
        spec_decode_client(spec_encode_client(m)) == Some(m),
{
    let s = spec_encode_client(m);
    match m.message {
        None => {
            assert(s.len() == 0);
            assert(ClientMessageV { message: None } =~= m);
        },
        Some(ClientPayloadV::Echo { content }) => {
            let body = spec_echo_body(content);
            assert(body.len() < 0x1_0000_0000_0000_0000) by {
                if content.len() > 0 {
                    lemma_varint_bytes_len10(content.len());
                }
            }
            lemma_submessage_frame(s, TAG_MSG_ECHO, body);
            let end = s.len() as int;
            let p = 1 + varint_bytes(body.len()).len() as int;
            lemma_echo_body_round_trip(s, p, end, content);
            assert(spec_client_fields(s, end, end, Some(ClientPayloadV::Echo { content }))
                == Some(Some(ClientPayloadV::Echo { content })));
            assert(spec_client_fields(s, 0, end, None)
                == Some(Some(ClientPayloadV::Echo { content })));
            assert(ClientMessageV { message: Some(ClientPayloadV::Echo { content }) } =~= m);
        },
        Some(ClientPayloadV::Add { a, b }) => {
            let body = spec_add_request_body(a, b);
            assert(body.len() < 0x1_0000_0000_0000_0000) by {
                if a != 0 {
                    lemma_varint_bytes_len10(u64_of_i32(a) as nat);
                }
                if b != 0 {
                    lemma_varint_bytes_len10(u64_of_i32(b) as nat);
                }
            }
            lemma_submessage_frame(s, TAG_MSG_ADD, body);
            let end = s.len() as int;
            let p = 1 + varint_bytes(body.len()).len() as int;
            lemma_add_request_body_round_trip(s, p, end, a, b);
            assert(spec_client_fields(s, end, end, Some(ClientPayloadV::Add { a, b }))
                == Some(Some(ClientPayloadV::Add { a, b })));
            assert(spec_client_fields(s, 0, end, None)
                == Some(Some(ClientPayloadV::Add { a, b })));
            assert(ClientMessageV { message: Some(ClientPayloadV::Add { a, b }) } =~= m);
        },
    }
}

/// Decoding inverts encoding for server messages: the wire carries every
/// encodable response faithfully.
pub proof fn lemma_server_round_trip(m: ServerMessageV)
    requires
        server_encodable(m),
    ensures
        spec_decode_server(spec_encode_server(m)) == Some(m),
{
    let s = spec_encode_server(m);
    match m.message {
        None => {
            assert(s.len() == 0);
            assert(ServerMessageV { message: None } =~= m);
        },
        Some(ServerPayloadV::Echo { content }) => {
            let body = spec_echo_body(content);
            assert(body.len() < 0x1_0000_0000_0000_0000) by {
                if content.len() > 0 {
                    lemma_varint_bytes_len10(content.len());
                }
            }
            lemma_submessage_frame(s, TAG_MSG_ECHO, body);
            let end = s.len() as int;
            let p = 1 + varint_bytes(body.len()).len() as int;
            lemma_echo_body_round_trip(s, p, end, content);
            assert(spec_server_fields(s, end, end, Some(ServerPayloadV::Echo { content }))
                == Some(Some(ServerPayloadV::Echo { content })));
            assert(spec_server_fields(s, 0, end, None)
                == Some(Some(ServerPayloadV::Echo { content })));
            assert(ServerMessageV { message: Some(ServerPayloadV::Echo { content }) } =~= m);
        },
        Some(ServerPayloadV::AddResult { result }) => {
            let body = spec_add_response_body(result);
            assert(body.len() < 0x1_0000_0000_0000_0000) by {
                if result != 0 {
                    lemma_varint_bytes_len10(u64_of_i32(result) as nat);
                }
            }
            lemma_submessage_frame(s, TAG_MSG_ADD, body);
            let end = s.len() as int;
            let p = 1 + varint_bytes(body.len()).len() as int;
            lemma_add_response_body_round_trip(s, p, end, result);
            assert(spec_server_fields(s, end, end, Some(ServerPayloadV::AddResult { result }))
                == Some(Some(ServerPayloadV::AddResult { result })));
            assert(spec_server_fields(s, 0, end, None)
                == Some(Some(ServerPayloadV::AddResult { result })));
            assert(ServerMessageV { message: Some(ServerPayloadV::AddResult { result }) } =~= m);
        },
    }
}

} // verus!
