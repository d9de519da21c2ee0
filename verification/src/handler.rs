//! The per-connection handle cycle: classify what one read produced, decode
//! one request, and produce the one response the protocol owes, if any.
//!
//! One cycle is read, decode, respond. The read itself and the write of the
//! reply are the caller's transport work; everything the cycle decides is
//! here, as a function from the read's outcome to the action owed. The
//! encoder of this library is total, so the case of a response that fails to
//! serialize — swallowed silently by the protocol — cannot arise: a
//! recognized request always gets its reply.

use crate::codec::{
    add_wrapping, spec_decode_client, spec_encode_server, wrap_add_i32,
};
use crate::decode::decode_client_message;
use crate::encode::encode_server_message;
use crate::messages::{
    AddResponse, ClientMessage, ClientMessageV, ClientPayload, ClientPayloadV, EchoMessage,
    ServerMessage, ServerMessageV, ServerPayload, ServerPayloadV,
};
use vstd::prelude::*;

verus! {

/// How many bytes one read may hand to a cycle.
pub const READ_BUFFER_LEN: usize = 512;

/// What one read of the connection produced.
#[derive(Clone, Debug, PartialEq, Eq)]
pub enum ReadEvent {
    /// The peer closed its side: zero bytes were read.
    PeerClosed,
    /// No data was available yet; not an error.
    WouldBlock,
    /// The bytes actually read.
    Data(Vec<u8>),
    /// The transport failed in some other way.
    Failed,
}

/// Mathematical view of a read event.
pub enum ReadEventV {
    PeerClosed,
    WouldBlock,
    Data(Seq<u8>),
    Failed,
}

impl View for ReadEvent {
    type V = ReadEventV;

    open spec fn view(&self) -> ReadEventV {
        match self {
            ReadEvent::PeerClosed => ReadEventV::PeerClosed,
            ReadEvent::WouldBlock => ReadEventV::WouldBlock,
            ReadEvent::Data(bytes) => ReadEventV::Data(bytes@),
            ReadEvent::Failed => ReadEventV::Failed,
        }
    }
}

/// What the connection's owner must do after one cycle.
#[derive(Clone, Debug, PartialEq, Eq)]
pub enum CycleOutcome {
    /// The peer disconnected: shut the connection down in both directions and
    /// end this connection's work; not an error.
    Disconnect,
    /// A completed no-op cycle: poll again.
    Idle,
    /// Write these bytes back, flush, and poll again.
    Reply(Vec<u8>),
    /// A well-formed message with no recognized payload: no response, poll
    /// again.
    Ignored,
    /// The transport failed on read: report, and end this connection's work.
    FatalRead,
    /// The bytes were malformed: report invalid data, and end this
    /// connection's work.
    FatalDecode,
}

/// Mathematical view of a cycle outcome.
pub enum CycleOutcomeV {
    Disconnect,
    Idle,
    Reply(Seq<u8>),
    Ignored,
    FatalRead,
    FatalDecode,
}

impl View for CycleOutcome {
    type V = CycleOutcomeV;

    open spec fn view(&self) -> CycleOutcomeV {
        match self {
            CycleOutcome::Disconnect => CycleOutcomeV::Disconnect,
            CycleOutcome::Idle => CycleOutcomeV::Idle,
            CycleOutcome::Reply(bytes) => CycleOutcomeV::Reply(bytes@),
            CycleOutcome::Ignored => CycleOutcomeV::Ignored,
            CycleOutcome::FatalRead => CycleOutcomeV::FatalRead,
            CycleOutcome::FatalDecode => CycleOutcomeV::FatalDecode,
        }
    }
}

/// The response owed to one decoded client message: an add request yields an
/// add result under two's-complement wraparound, an echo request yields an
/// identical echo, an absent payload yields nothing.
pub open spec fn spec_response(m: ClientMessageV) -> Option<ServerMessageV> {
    match m.message {
        None => None,
        Some(ClientPayloadV::Echo { content }) => Some(
            ServerMessageV { message: Some(ServerPayloadV::Echo { content }) },
        ),
        Some(ClientPayloadV::Add { a, b }) => Some(
            ServerMessageV {
                message: Some(ServerPayloadV::AddResult { result: wrap_add_i32(a, b) }),
            },
        ),
    }
}

/// What one cycle owes for each read event: the decode error for malformed
/// bytes, the encoded response for a recognized request, silence otherwise.
pub open spec fn spec_cycle(ev: ReadEventV) -> CycleOutcomeV {
    match ev {
        ReadEventV::PeerClosed => CycleOutcomeV::Disconnect,
        ReadEventV::WouldBlock => CycleOutcomeV::Idle,
        ReadEventV::Failed => CycleOutcomeV::FatalRead,
        ReadEventV::Data(bytes) => match spec_decode_client(bytes) {
            None => CycleOutcomeV::FatalDecode,
            Some(m) => match spec_response(m) {
                None => CycleOutcomeV::Ignored,
                Some(resp) => CycleOutcomeV::Reply(spec_encode_server(resp)),
            },
        },
    }
}

/// Computes the response owed to one decoded message, exactly as
/// `spec_response` describes.
pub fn respond_to(m: &ClientMessage) -> (r: Option<ServerMessage>)
    ensures
        match r {
            None => spec_response(m@) is None,
            Some(resp) => spec_response(m@) == Some(resp@),
        },
{
    match &m.message {
        None => None,
        Some(ClientPayload::Echo(e)) => Some(
            ServerMessage {
                message: Some(ServerPayload::Echo(EchoMessage { content: e.content.clone() })),
            },
        ),
        Some(ClientPayload::Add(q)) => Some(
            ServerMessage {
                message: Some(
                    ServerPayload::AddResult(AddResponse { result: add_wrapping(q.a, q.b) }),
                ),
            },
        ),
    }
}

/// Runs the decide-and-respond part of one handle cycle, exactly as
/// `spec_cycle` describes.
pub fn handle_cycle(ev: ReadEvent) -> (r: CycleOutcome)
    ensures
        r@ == spec_cycle(ev@),
{
    match ev {
        ReadEvent::PeerClosed => CycleOutcome::Disconnect,
        ReadEvent::WouldBlock => CycleOutcome::Idle,
        ReadEvent::Failed => CycleOutcome::FatalRead,
        ReadEvent::Data(bytes) => match decode_client_message(&bytes) {
            Err(_) => CycleOutcome::FatalDecode,
            Ok(m) => match respond_to(&m) {
                None => CycleOutcome::Ignored,
                Some(resp) => CycleOutcome::Reply(encode_server_message(&resp)),
            },
        },
    }
}

/// Whether the connection's loop goes on after an outcome: it ends on
/// disconnect and on either fatal error, and only then.
pub open spec fn spec_outcome_continues(o: CycleOutcomeV) -> bool {
    match o {
        CycleOutcomeV::Disconnect => false,
        CycleOutcomeV::Idle => true,
        CycleOutcomeV::Reply(_) => true,
        CycleOutcomeV::Ignored => true,
        CycleOutcomeV::FatalRead => false,
        CycleOutcomeV::FatalDecode => false,
    }
}

/// The connection's loop runs another cycle only while the shared running
/// flag still holds and the last outcome did not end this connection.
pub open spec fn spec_handler_continues(running: bool, o: CycleOutcomeV) -> bool {
    running && spec_outcome_continues(o)
}

/// Computes `spec_handler_continues`; the flag is read between cycles, so a
/// cycle already under way always finishes.
pub fn handler_continues(running: bool, o: &CycleOutcome) -> (r: bool)
    ensures
        r == spec_handler_continues(running, o@),
{
    if !running {
        return false;
    }
    match o {
        CycleOutcome::Disconnect => false,
        CycleOutcome::Idle => true,
        CycleOutcome::Reply(_) => true,
        CycleOutcome::Ignored => true,
        CycleOutcome::FatalRead => false,
        CycleOutcome::FatalDecode => false,
    }
}

} // verus!
