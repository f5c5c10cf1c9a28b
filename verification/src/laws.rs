//! The guarantees of the server, stated across its functions and proved.
//!
//! Each proof function here ties together contracts from the codec and
//! the engine into one end-to-end statement: what a client that sends
//! given bytes gets back, and how the loops and the shared counter move.

use vstd::prelude::*;

use crate::codec::client_msg_dec;
use crate::codec::client_msg_enc;
use crate::codec::lemma_client_msg_round_trip;
use crate::codec::lemma_server_msg_round_trip;
use crate::codec::server_msg_dec;
use crate::codec::server_msg_enc;
use crate::engine::AcceptEvent;
use crate::engine::AcceptStep;
use crate::engine::HandleStatus;
use crate::engine::ReadEvent;
use crate::engine::TaskStep;
use crate::engine::accept_decision;
use crate::engine::connection_decision;
use crate::engine::response_msg;
use crate::engine::response_of_read;
use crate::engine::status_of_read;
use crate::engine::wire_response;
use crate::engine::wrap_add32;
use crate::messages::ClientMsg;
use crate::messages::ServerMsg;
use crate::messages::client_msg_wf;
use crate::messages::server_msg_wf;

verus! {

/// Every answer to a well-formed request fits the wire: its integer
/// field is in 32-bit range, so the response can always be encoded and
/// sent.
pub proof fn lemma_response_wf(m: ClientMsg)
    requires
        client_msg_wf(m),
    ensures
        match response_msg(m) {
            Some(resp) => server_msg_wf(resp),
            None => true,
        },
{
}

/// Echo idempotence: whatever the content bytes — empty, non-ASCII, any
/// byte sequence — a client that sends an echo envelope with content `s`
/// is answered with an echo envelope whose bytes decode back to the very
/// same `s`.
pub proof fn lemma_echo_idempotence(s: Seq<u8>)
    ensures
        wire_response(client_msg_enc(ClientMsg::Echo(s))) == Some(
            server_msg_enc(ServerMsg::Echo(s)),
        ),
        server_msg_dec(server_msg_enc(ServerMsg::Echo(s))) == Some(ServerMsg::Echo(s)),
{
    lemma_client_msg_round_trip(ClientMsg::Echo(s));
    lemma_server_msg_round_trip(ServerMsg::Echo(s));
}

/// Addition correctness: for every pair whose exact sum fits a 32-bit
/// integer, an addition request for `a` and `b` is answered with an
/// addition response whose bytes decode to exactly `a + b`.
pub proof fn lemma_addition_correctness(a: int, b: int)
    requires
        i32::MIN <= a <= i32::MAX,
        i32::MIN <= b <= i32::MAX,
        i32::MIN <= a + b <= i32::MAX,
    ensures
        wire_response(client_msg_enc(ClientMsg::Add(a, b))) == Some(
            server_msg_enc(ServerMsg::AddResult(a + b)),
        ),
        server_msg_dec(server_msg_enc(ServerMsg::AddResult(a + b))) == Some(
            ServerMsg::AddResult(a + b),
        ),
{
    lemma_client_msg_round_trip(ClientMsg::Add(a, b));
    assert(wrap_add32(a, b) == a + b);
    lemma_server_msg_round_trip(ServerMsg::AddResult(a + b));
}

/// The response sequence for many concurrent clients: one response per
/// client, each computed from that client's bytes alone.
pub open spec fn connection_responses(traffic: Seq<Seq<u8>>) -> Seq<Option<Seq<u8>>> {
    traffic.map_values(|d: Seq<u8>| wire_response(d))
}

/// Connection isolation: with any number of concurrently connected
/// clients, each client's response is a function of its own request
/// bytes only — the other clients' traffic does not appear in it — and
/// every client that sends the addition request for 10 and 20 receives
/// its own response of 30.
pub proof fn lemma_connection_isolation(traffic: Seq<Seq<u8>>)
    ensures
        connection_responses(traffic).len() == traffic.len(),
        forall|i: int|
            0 <= i < traffic.len() ==> connection_responses(traffic)[i] == wire_response(
                traffic[i],
            ),
        forall|i: int|
            0 <= i < traffic.len() && traffic[i] == client_msg_enc(ClientMsg::Add(10, 20))
                ==> connection_responses(traffic)[i] == Some(
                server_msg_enc(ServerMsg::AddResult(30)),
            ),
{
    lemma_addition_correctness(10, 20);
}

/// Graceful disconnect: a read that found the peer gone never lets the
/// task poll again — it leaves its loop whether the server is still
/// running or already stopping.  The task's terminal cleanup then moves
/// the shared counter down by exactly one (the contract of
/// `ServerState::client_disconnected`), and no other task's decision
/// mentions this connection, so the others run on unaffected.
pub proof fn lemma_graceful_disconnect(running: bool, ev: ReadEvent)
    requires
        ev is Closed,
    ensures
        status_of_read(ev) == HandleStatus::Closed,
        response_of_read(ev) is None,
        connection_decision(running, HandleStatus::Closed) != TaskStep::SleepAndPoll,
        running ==> connection_decision(running, HandleStatus::Closed) == TaskStep::Disconnect,
{
}

/// Malformed-input resilience: bytes that decode to no envelope draw no
/// response and leave the connection open — the running task sleeps and
/// polls again — and a well-formed request sent afterwards on the same
/// connection is answered exactly as it would have been first.
pub proof fn lemma_malformed_resilience(bad: ReadEvent, next: ClientMsg)
    requires
        bad matches ReadEvent::Data(d) && client_msg_dec(d@) is None,
        client_msg_wf(next),
    ensures
        status_of_read(bad) == HandleStatus::KeepOpen,
        response_of_read(bad) is None,
        connection_decision(true, status_of_read(bad)) == TaskStep::SleepAndPoll,
        wire_response(client_msg_enc(next)) == (match response_msg(next) {
            Some(resp) => Some(server_msg_enc(resp)),
            None => None,
        }),
{
    lemma_client_msg_round_trip(next);
}

/// Shutdown: `stop` leaves the running flag false (the contract of
/// `stop_transition`, for either prior state), and with the flag false
/// the accept loop's very next decision is to leave the loop and return,
/// whatever its `accept` attempt saw — no client needs to disconnect.
pub proof fn lemma_shutdown(ev: AcceptEvent, status: HandleStatus)
    ensures
        accept_decision(false, ev) == AcceptStep::Stopped,
        connection_decision(false, status) == TaskStep::Stopped,
{
}

} // verus!
