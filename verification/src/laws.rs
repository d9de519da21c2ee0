//! The protocol's laws, proved once and for all inputs: what a whole cycle
//! owes for each kind of request, and what stopping the server forbids.

use crate::codec::{spec_decode_client, spec_decode_server, spec_encode_client, spec_encode_server, wrap_add_i32};
use crate::control::{spec_listen_step, AcceptEvent, ListenAction};
use crate::handler::{
    spec_cycle, spec_handler_continues, spec_outcome_continues, CycleOutcomeV, ReadEventV,
};
use crate::messages::{ClientMessageV, ClientPayloadV, ServerMessageV, ServerPayloadV};
use crate::roundtrip::{lemma_client_round_trip, lemma_server_round_trip};
use vstd::prelude::*;

verus! {

/// Sending an add request over any two operands yields exactly one reply:
/// the encoded add result of their sum under two's-complement wraparound,
/// and that reply decodes back to exactly that result.
pub proof fn lemma_add_request_cycle(a: i32, b: i32)
    ensures
        ({
            let req = ClientMessageV { message: Some(ClientPayloadV::Add { a, b }) };
            let resp = ServerMessageV {
                message: Some(ServerPayloadV::AddResult { result: wrap_add_i32(a, b) }),
            };
            &&& spec_cycle(ReadEventV::Data(spec_encode_client(req))) == CycleOutcomeV::Reply(
                spec_encode_server(resp),
            )
            &&& spec_decode_server(spec_encode_server(resp)) == Some(resp)
        }),
{
    let req = ClientMessageV { message: Some(ClientPayloadV::Add { a, b }) };
    let resp = ServerMessageV {
        message: Some(ServerPayloadV::AddResult { result: wrap_add_i32(a, b) }),
    };
    lemma_client_round_trip(req);
    lemma_server_round_trip(resp);
}

/// Sending an echo request over any content that the frame can carry yields
/// exactly one reply: the encoded echo of byte-for-byte the same content,
/// and that reply decodes back to the same content.
pub proof fn lemma_echo_request_cycle(content: Seq<u8>)
    requires
        content.len() < 0xffff_ffff_ffff_ffe0,
    ensures
        ({
            let req = ClientMessageV { message: Some(ClientPayloadV::Echo { content }) };
            let resp = ServerMessageV { message: Some(ServerPayloadV::Echo { content }) };
            &&& spec_cycle(ReadEventV::Data(spec_encode_client(req))) == CycleOutcomeV::Reply(
                spec_encode_server(resp),
            )
            &&& spec_decode_server(spec_encode_server(resp)) == Some(resp)
        }),
{
    let req = ClientMessageV { message: Some(ClientPayloadV::Echo { content }) };
    let resp = ServerMessageV { message: Some(ServerPayloadV::Echo { content }) };
    lemma_client_round_trip(req);
    lemma_server_round_trip(resp);
}

/// A well-formed body with no recognized payload yields no response and
/// leaves the connection open.
pub proof fn lemma_unrecognized_yields_no_response(bytes: Seq<u8>)
    requires
        spec_decode_client(bytes) matches Some(m) && m.message is None,
    ensures
        spec_cycle(ReadEventV::Data(bytes)) == CycleOutcomeV::Ignored,
        spec_outcome_continues(spec_cycle(ReadEventV::Data(bytes))),
{
}

/// The empty body is such a message: it decodes, asks for nothing, and
/// leaves the connection open.
pub proof fn lemma_empty_body_yields_no_response()
    ensures
        spec_cycle(ReadEventV::Data(Seq::<u8>::empty())) == CycleOutcomeV::Ignored,
        spec_outcome_continues(spec_cycle(ReadEventV::Data(Seq::<u8>::empty()))),
{
    assert(spec_decode_client(Seq::<u8>::empty())
        == Some(ClientMessageV { message: None }));
}

/// Malformed bytes end the connection and emit no response.
pub proof fn lemma_malformed_closes(bytes: Seq<u8>)
    requires
        spec_decode_client(bytes) is None,
    ensures
        spec_cycle(ReadEventV::Data(bytes)) == CycleOutcomeV::FatalDecode,
        !(spec_cycle(ReadEventV::Data(bytes)) matches CycleOutcomeV::Reply(_)),
        !spec_outcome_continues(spec_cycle(ReadEventV::Data(bytes))),
{
}

/// A peer's close ends this connection's work without error and without a
/// response; the cycle of any other connection is a function of its own
/// event alone, so no other connection is affected.
pub proof fn lemma_peer_close_disconnects()
    ensures
        spec_cycle(ReadEventV::PeerClosed) == CycleOutcomeV::Disconnect,
        !spec_outcome_continues(CycleOutcomeV::Disconnect),
{
}

/// Once the running flag is down, no accept attempt spawns a handler — the
/// listener exits whatever the socket produced — and no handler begins
/// another cycle; the cycle under way is untouched, since its outcome never
/// reads the flag.
pub proof fn lemma_stop_halts(ev: AcceptEvent, o: CycleOutcomeV)
    ensures
        spec_listen_step(false, ev) == ListenAction::ExitLoop,
        !spec_handler_continues(false, o),
{
}

} // verus!
