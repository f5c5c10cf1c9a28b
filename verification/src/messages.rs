//! The two message envelopes of the protocol and their mathematical models.
//!
//! A client sends a `ClientMessage` holding at most one payload: an echo
//! request or an addition request.  The server answers with a
//! `ServerMessage` holding an echo reply or an addition result.  Echo
//! content is carried as the raw bytes of the string, so any byte
//! sequence, ASCII or not, round-trips unchanged.

use vstd::prelude::*;

verus! {

/// An echo payload: the bytes of the string to send back unchanged.
pub struct EchoMessage {
    pub content: Vec<u8>,
}

/// A request to add two signed 32-bit integers.
pub struct AddRequest {
    pub a: i32,
    pub b: i32,
}

/// The sum sent back for an `AddRequest`.
pub struct AddResponse {
    pub result: i32,
}

/// The payload variants a client may send.
pub enum ClientPayload {
    EchoMessage(EchoMessage),
    AddRequest(AddRequest),
}

/// A client envelope: at most one payload.  `None` models an envelope in
/// which no variant was set.
pub struct ClientMessage {
    pub message: Option<ClientPayload>,
}

/// The payload variants the server may answer with.
pub enum ServerPayload {
    EchoMessage(EchoMessage),
    AddResponse(AddResponse),
}

/// A server envelope: at most one payload.
pub struct ServerMessage {
    pub message: Option<ServerPayload>,
}

/// The mathematical value of a client envelope.
pub enum ClientMsg {
    Empty,
    Echo(Seq<u8>),
    Add(int, int),
}

/// The mathematical value of a server envelope.
pub enum ServerMsg {
    Empty,
    Echo(Seq<u8>),
    AddResult(int),
}

impl View for ClientMessage {
    type V = ClientMsg;

    open spec fn view(&self) -> ClientMsg {
        match self.message {
            None => ClientMsg::Empty,
            Some(ClientPayload::EchoMessage(e)) => ClientMsg::Echo(e.content@),
            Some(ClientPayload::AddRequest(r)) => ClientMsg::Add(r.a as int, r.b as int),
        }
    }
}

impl View for ServerMessage {
    type V = ServerMsg;

    open spec fn view(&self) -> ServerMsg {
        match self.message {
            None => ServerMsg::Empty,
            Some(ServerPayload::EchoMessage(e)) => ServerMsg::Echo(e.content@),
            Some(ServerPayload::AddResponse(r)) => ServerMsg::AddResult(r.result as int),
        }
    }
}

/// Whether the integer fields of a client model value fit their wire width.
/// The view of every executable envelope satisfies it.
pub open spec fn client_msg_wf(m: ClientMsg) -> bool {
    match m {
        ClientMsg::Add(a, b) => i32::MIN <= a <= i32::MAX && i32::MIN <= b <= i32::MAX,
        _ => true,
    }
}

/// Whether the integer field of a server model value fits its wire width.
pub open spec fn server_msg_wf(m: ServerMsg) -> bool {
    match m {
        ServerMsg::AddResult(r) => i32::MIN <= r <= i32::MAX,
        _ => true,
    }
}

} // verus!
