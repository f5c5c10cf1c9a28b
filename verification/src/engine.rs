//! The server's decisions, separated from its sockets.
//!
//! Everything the server decides — what to answer to a request, what one
//! read of a connection leads to, when a connection task or the accept
//! loop keeps going, how the shared connection counter moves — is a pure
//! function here, with a contract.  The application performs the reads,
//! writes, sleeps and spawns these decisions call for.

use vstd::prelude::*;

use crate::codec::client_msg_dec;
use crate::codec::decode_client_message;
use crate::codec::encode_server_message;
use crate::codec::server_msg_enc;
use crate::messages::AddResponse;
use crate::messages::ClientMessage;
use crate::messages::ClientMsg;
use crate::messages::ClientPayload;
use crate::messages::EchoMessage;
use crate::messages::ServerMessage;
use crate::messages::ServerMsg;
use crate::messages::ServerPayload;

verus! {

// ---------------------------------------------------------------------
// Request dispatch
// ---------------------------------------------------------------------

/// Addition with the wrap-around semantics of the 32-bit wire field.
pub open spec fn wrap_add32(a: int, b: int) -> int {
    if a + b > i32::MAX {
        a + b - 0x1_0000_0000
    } else if a + b < i32::MIN {
        a + b + 0x1_0000_0000
    } else {
        a + b
    }
}

/// The answer owed to a decoded request: the same content for an echo,
/// the wrapped sum for an addition, nothing for an empty envelope.
pub open spec fn response_msg(m: ClientMsg) -> Option<ServerMsg> {
    match m {
        ClientMsg::Empty => None,
        ClientMsg::Echo(c) => Some(ServerMsg::Echo(c)),
        ClientMsg::Add(a, b) => Some(ServerMsg::AddResult(wrap_add32(a, b))),
    }
}

/// The response bytes owed to one read's bytes: decode, dispatch, encode.
/// `None` where the bytes are malformed or the envelope is empty — the
/// deliberate leniency of the protocol.
pub open spec fn wire_response(data: Seq<u8>) -> Option<Seq<u8>> {
    match client_msg_dec(data) {
        Some(m) => match response_msg(m) {
            Some(resp) => Some(server_msg_enc(resp)),
            None => None,
        },
        None => None,
    }
}

/// Builds the response envelope for a decoded request.
pub fn respond_to_message(m: ClientMessage) -> (r: Option<ServerMessage>)
    ensures
        match response_msg(m@) {
            Some(resp) => r matches Some(x) && x@ == resp,
            None => r is None,
        },
{
    match m.message {
        None => None,
        Some(ClientPayload::EchoMessage(e)) => Some(
            ServerMessage { message: Some(ServerPayload::EchoMessage(e)) },
        ),
        Some(ClientPayload::AddRequest(q)) => {
            let result = q.a.wrapping_add(q.b);
            Some(
                ServerMessage {
                    message: Some(ServerPayload::AddResponse(AddResponse { result })),
                },
            )
        },
    }
}

/// What one read's bytes came to, with the response where one is owed.
/// The two silent outcomes are kept apart so the operator can be told
/// which non-happy path was taken.
pub enum DataOutcome {
    /// The bytes decoded to a request; these are the response bytes.
    Responded(Vec<u8>),
    /// The bytes decoded to an envelope with no payload: no response.
    EmptyEnvelope,
    /// The bytes decoded to no envelope at all: no response, and the
    /// connection stays open all the same.
    Malformed,
}

/// One decode/dispatch/encode cycle on the bytes of one read, with the
/// outcome classified: exactly one of the three cases holds, and it is
/// the one the bytes call for.
pub fn process_data(data: &Vec<u8>) -> (r: DataOutcome)
    ensures
        r is Malformed <==> client_msg_dec(data@) is None,
        r is EmptyEnvelope <==> client_msg_dec(data@) == Some(ClientMsg::Empty),
        match wire_response(data@) {
            Some(bytes) => r matches DataOutcome::Responded(v) && v@ == bytes,
            None => !(r is Responded),
        },
{
    match decode_client_message(data) {
        None => DataOutcome::Malformed,
        Some(m) => match respond_to_message(m) {
            None => DataOutcome::EmptyEnvelope,
            Some(resp) => DataOutcome::Responded(encode_server_message(&resp)),
        },
    }
}

/// The bytes to write back for one read's bytes, or `None` where no
/// response is owed.
pub fn handle_data(data: &Vec<u8>) -> (r: Option<Vec<u8>>)
    ensures
        match wire_response(data@) {
            Some(bytes) => r matches Some(v) && v@ == bytes,
            None => r is None,
        },
{
    match process_data(data) {
        DataOutcome::Responded(v) => Some(v),
        DataOutcome::EmptyEnvelope => None,
        DataOutcome::Malformed => None,
    }
}

// ---------------------------------------------------------------------
// One read of a connection
// ---------------------------------------------------------------------

/// What one read of the client socket gave the handler.
pub enum ReadEvent {
    /// The read returned zero bytes: the peer closed the connection.
    Closed,
    /// The read returned these bytes.
    Data(Vec<u8>),
    /// No data is available on the non-blocking socket.
    WouldBlock,
    /// The read failed with an error other than would-block.
    Failed,
}

/// How one handle cycle left the connection.
#[derive(Clone, Copy, Debug, PartialEq, Eq, Structural)]
pub enum HandleStatus {
    /// The connection stays open.
    KeepOpen,
    /// The peer disconnected cleanly.
    Closed,
    /// An I/O error ends this connection.
    IoError,
}

/// How one handle cycle leaves the connection: only a zero-byte read or
/// an I/O error ends it.  Bytes that arrive — well-formed or not — keep
/// it open.
pub open spec fn status_of_read(ev: ReadEvent) -> HandleStatus {
    match ev {
        ReadEvent::Closed => HandleStatus::Closed,
        ReadEvent::Data(_) => HandleStatus::KeepOpen,
        ReadEvent::WouldBlock => HandleStatus::KeepOpen,
        ReadEvent::Failed => HandleStatus::IoError,
    }
}

/// The bytes one handle cycle writes back: a response only where the
/// read gave bytes that decode to a non-empty envelope.
pub open spec fn response_of_read(ev: ReadEvent) -> Option<Seq<u8>> {
    match ev {
        ReadEvent::Data(d) => wire_response(d@),
        _ => None,
    }
}

/// One full handle cycle of the connection's life: what the read event
/// leads to, and the bytes to write back, if any.  A malformed or empty
/// envelope never closes the connection.
pub fn handle_event(ev: &ReadEvent) -> (r: (HandleStatus, Option<Vec<u8>>))
    ensures
        r.0 == status_of_read(*ev),
        match response_of_read(*ev) {
            Some(bytes) => r.1 matches Some(v) && v@ == bytes,
            None => r.1 is None,
        },
{
    match ev {
        ReadEvent::Closed => (HandleStatus::Closed, None),
        ReadEvent::WouldBlock => (HandleStatus::KeepOpen, None),
        ReadEvent::Failed => (HandleStatus::IoError, None),
        ReadEvent::Data(d) => (HandleStatus::KeepOpen, handle_data(d)),
    }
}

// ---------------------------------------------------------------------
// Loop decisions
// ---------------------------------------------------------------------

/// What a connection task does after checking the running flag and, if it
/// was set, running one handle cycle.
#[derive(Clone, Copy, Debug, PartialEq, Eq, Structural)]
pub enum TaskStep {
    /// Sleep briefly, then poll the socket again.
    SleepAndPoll,
    /// The peer disconnected: leave the loop cleanly.
    Disconnect,
    /// An I/O error: leave the loop.
    Abort,
    /// The server is stopping: leave the loop.
    Stopped,
}

/// The decision at the top of one connection-task iteration: a cleared
/// running flag always ends the task; otherwise the handle status rules.
/// The only step that keeps the loop alive is `SleepAndPoll`.
pub open spec fn connection_decision(running: bool, status: HandleStatus) -> TaskStep {
    if !running {
        TaskStep::Stopped
    } else {
        match status {
            HandleStatus::KeepOpen => TaskStep::SleepAndPoll,
            HandleStatus::Closed => TaskStep::Disconnect,
            HandleStatus::IoError => TaskStep::Abort,
        }
    }
}

/// The executable form of `connection_decision`.
pub fn connection_step(running: bool, status: &HandleStatus) -> (r: TaskStep)
    ensures
        r == connection_decision(running, *status),
{
    if !running {
        TaskStep::Stopped
    } else {
        match status {
            HandleStatus::KeepOpen => TaskStep::SleepAndPoll,
            HandleStatus::Closed => TaskStep::Disconnect,
            HandleStatus::IoError => TaskStep::Abort,
        }
    }
}

/// What the accept loop saw on one `accept` attempt.
#[derive(Clone, Copy, Debug, PartialEq, Eq, Structural)]
pub enum AcceptEvent {
    /// A new connection was accepted.
    Accepted,
    /// No connection is pending on the non-blocking listener.
    WouldBlock,
    /// The accept failed with some other error.
    Failed,
}

/// What the accept loop does next.
#[derive(Clone, Copy, Debug, PartialEq, Eq, Structural)]
pub enum AcceptStep {
    /// Count the connection and spawn its handler task.
    SpawnHandler,
    /// Sleep the idle interval, then try again.
    SleepIdle,
    /// Log the accept error and keep the loop running.
    LogAndContinue,
    /// The running flag is cleared: leave the loop and return.
    Stopped,
}

/// The decision at the top of one accept-loop iteration: a cleared
/// running flag ends the loop; an accept error never does.
pub open spec fn accept_decision(running: bool, ev: AcceptEvent) -> AcceptStep {
    if !running {
        AcceptStep::Stopped
    } else {
        match ev {
            AcceptEvent::Accepted => AcceptStep::SpawnHandler,
            AcceptEvent::WouldBlock => AcceptStep::SleepIdle,
            AcceptEvent::Failed => AcceptStep::LogAndContinue,
        }
    }
}

/// The executable form of `accept_decision`.
pub fn accept_step(running: bool, ev: &AcceptEvent) -> (r: AcceptStep)
    ensures
        r == accept_decision(running, *ev),
{
    if !running {
        AcceptStep::Stopped
    } else {
        match ev {
            AcceptEvent::Accepted => AcceptStep::SpawnHandler,
            AcceptEvent::WouldBlock => AcceptStep::SleepIdle,
            AcceptEvent::Failed => AcceptStep::LogAndContinue,
        }
    }
}

/// What `stop` observed: whether a shutdown signal was really sent, or
/// the server was already stopped and the call was a no-op.
#[derive(Clone, Copy, Debug, PartialEq, Eq, Structural)]
pub enum StopEffect {
    /// The flag was set; the signal is now sent.
    SignalSent,
    /// The flag was already cleared; only a warning is owed.
    AlreadyStopped,
}

/// The `stop` transition on the running flag: the flag is false
/// afterwards whatever it was, so the call is idempotent.
pub fn stop_transition(running: bool) -> (r: (bool, StopEffect))
    ensures
        r.0 == false,
        running <==> r.1 is SignalSent,
{
    if running {
        (false, StopEffect::SignalSent)
    } else {
        (false, StopEffect::AlreadyStopped)
    }
}

// ---------------------------------------------------------------------
// Shared state
// ---------------------------------------------------------------------

/// The server's shared mutable state: the count of currently
/// unterminated connection tasks.  The application keeps one instance
/// behind an exclusive lock and mutates it only through the two methods,
/// so the count moves by exactly one per accepted connection and one per
/// terminated task, and never drops below zero.
pub struct ServerState {
    pub connection_count: i32,
}

impl ServerState {
    /// A fresh server has no connections.
    pub fn new() -> (s: Self)
        ensures
            s.connection_count == 0,
    {
        ServerState { connection_count: 0 }
    }

    /// The accept loop counts a newly accepted connection.
    pub fn client_connected(&mut self)
        requires
            old(self).connection_count < i32::MAX,
        ensures
            final(self).connection_count == old(self).connection_count + 1,
    {
        self.connection_count = self.connection_count + 1;
    }

    /// A terminating connection task uncounts itself, exactly once,
    /// whatever ended its loop.  The count stays non-negative because
    /// only tasks the accept loop counted ever call this.
    pub fn client_disconnected(&mut self)
        requires
            old(self).connection_count >= 1,
        ensures
            final(self).connection_count == old(self).connection_count - 1,
    {
        self.connection_count = self.connection_count - 1;
    }
}

} // verus!
