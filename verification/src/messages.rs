//! The tagged request and response unions that travel over the wire, together
//! with their mathematical views.
//!
//! A client message carries at most one payload: an addition request over two
//! 32-bit signed integers, or an echo request over a byte string. A server
//! message mirrors it: an addition result, or the echoed byte string. A
//! message whose payload is absent is valid but asks for nothing.

use vstd::prelude::*;

verus! {

/// Request to add two 32-bit signed integers.
#[derive(Clone, Debug, PartialEq, Eq)]
pub struct AddRequest {
    pub a: i32,
    pub b: i32,
}

/// Request (or response) carrying a byte string to be sent back unchanged.
#[derive(Clone, Debug, PartialEq, Eq)]
pub struct EchoMessage {
    pub content: Vec<u8>,
}

/// Response carrying the 32-bit result of an addition.
#[derive(Clone, Debug, PartialEq, Eq)]
pub struct AddResponse {
    pub result: i32,
}

/// The payload of a client message.
#[derive(Clone, Debug, PartialEq, Eq)]
pub enum ClientPayload {
    Echo(EchoMessage),
    Add(AddRequest),
}

/// One decoded client message: at most one payload.
#[derive(Clone, Debug, PartialEq, Eq)]
pub struct ClientMessage {
    pub message: Option<ClientPayload>,
}

/// The payload of a server message.
#[derive(Clone, Debug, PartialEq, Eq)]
pub enum ServerPayload {
    Echo(EchoMessage),
    AddResult(AddResponse),
}

/// One server message: at most one payload.
#[derive(Clone, Debug, PartialEq, Eq)]
pub struct ServerMessage {
    pub message: Option<ServerPayload>,
}

/// Mathematical view of a client payload.
#[verifier::ext_equal]
pub enum ClientPayloadV {
    Echo { content: Seq<u8> },
    Add { a: i32, b: i32 },
}

/// Mathematical view of a client message.
#[verifier::ext_equal]
pub struct ClientMessageV {
    pub message: Option<ClientPayloadV>,
}

/// Mathematical view of a server payload.
#[verifier::ext_equal]
pub enum ServerPayloadV {
    Echo { content: Seq<u8> },
    AddResult { result: i32 },
}

/// Mathematical view of a server message.
#[verifier::ext_equal]
pub struct ServerMessageV {
    pub message: Option<ServerPayloadV>,
}

/// View of an optional client payload.
pub open spec fn client_payload_opt_view(p: Option<ClientPayload>) -> Option<ClientPayloadV> {
    match p {
        None => None,
        Some(q) => Some(q@),
    }
}

/// View of an optional server payload.
pub open spec fn server_payload_opt_view(p: Option<ServerPayload>) -> Option<ServerPayloadV> {
    match p {
        None => None,
        Some(q) => Some(q@),
    }
}

impl View for ClientPayload {
    type V = ClientPayloadV;

    open spec fn view(&self) -> ClientPayloadV {
        match self {
            ClientPayload::Echo(e) => ClientPayloadV::Echo { content: e.content@ },
            ClientPayload::Add(r) => ClientPayloadV::Add { a: r.a, b: r.b },
        }
    }
}

impl View for ClientMessage {
    type V = ClientMessageV;

    open spec fn view(&self) -> ClientMessageV {
        ClientMessageV { message: client_payload_opt_view(self.message) }
    }
}

impl View for ServerPayload {
    type V = ServerPayloadV;

    open spec fn view(&self) -> ServerPayloadV {
        match self {
            ServerPayload::Echo(e) => ServerPayloadV::Echo { content: e.content@ },
            ServerPayload::AddResult(r) => ServerPayloadV::AddResult { result: r.result },
        }
    }
}

impl View for ServerMessage {
    type V = ServerMessageV;

    open spec fn view(&self) -> ServerMessageV {
        ServerMessageV { message: server_payload_opt_view(self.message) }
    }
}

} // verus!
