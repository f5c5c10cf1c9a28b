use message_server::codec::decode_server_message;
use message_server::codec::encode_client_message;
use message_server::engine::accept_step;
use message_server::engine::connection_step;
use message_server::engine::handle_data;
use message_server::engine::handle_event;
use message_server::engine::stop_transition;
use message_server::engine::AcceptEvent;
use message_server::engine::AcceptStep;
use message_server::engine::HandleStatus;
use message_server::engine::ReadEvent;
use message_server::engine::ServerState;
use message_server::engine::StopEffect;
use message_server::engine::TaskStep;
use message_server::messages::AddRequest;
use message_server::messages::ClientMessage;
use message_server::messages::ClientPayload;
use message_server::messages::EchoMessage;
use message_server::messages::ServerPayload;

fn add_request_bytes(a: i32, b: i32) -> Vec<u8> {
    encode_client_message(&ClientMessage {
        message: Some(ClientPayload::AddRequest(AddRequest { a, b })),
    })
}

#[test]
fn test_concurrent_add_request() {
    // Five clients, each with its own connection, all sending the same
    // addition request, interleaved in any order: each gets its own 30.
    let requests: Vec<Vec<u8>> = (0..5).map(|_| add_request_bytes(10, 20)).collect();
    let responses: Vec<Option<Vec<u8>>> = requests.iter().map(handle_data).collect();
    for resp in responses {
        let bytes = resp.expect("Failed to receive reponse");
        match decode_server_message(&bytes).expect("must decode").message {
            Some(ServerPayload::AddResponse(r)) => {
                assert_eq!(r.result, 30, "Wrong calculation result");
            },
            _ => panic!("Expected AddResponse"),
        }
    }
}

#[test]
fn clients_do_not_interfere() {
    // One client sends garbage and one disconnects; a third still gets
    // its correct answer from its own bytes alone.
    let (status_a, resp_a) = handle_event(&ReadEvent::Data(vec![0xff, 0xff]));
    assert_eq!(status_a, HandleStatus::KeepOpen);
    assert!(resp_a.is_none());
    let (status_b, resp_b) = handle_event(&ReadEvent::Closed);
    assert_eq!(status_b, HandleStatus::Closed);
    assert!(resp_b.is_none());
    let (status_c, resp_c) = handle_event(&ReadEvent::Data(add_request_bytes(10, 20)));
    assert_eq!(status_c, HandleStatus::KeepOpen);
    let bytes = resp_c.expect("the third client is owed a response");
    match decode_server_message(&bytes).expect("must decode").message {
        Some(ServerPayload::AddResponse(r)) => assert_eq!(r.result, 30),
        _ => panic!("Expected AddResponse"),
    }
}

#[test]
fn closed_peer_ends_task_and_uncounts_it() {
    let mut state = ServerState::new();
    assert_eq!(state.connection_count, 0);
    state.client_connected();
    state.client_connected();
    assert_eq!(state.connection_count, 2);

    // One peer closes its socket: that task's next decision ends it.
    let (status, resp) = handle_event(&ReadEvent::Closed);
    assert_eq!(status, HandleStatus::Closed);
    assert!(resp.is_none());
    assert_eq!(connection_step(true, &status), TaskStep::Disconnect);

    // Its terminal cleanup uncounts exactly that one connection.
    state.client_disconnected();
    assert_eq!(state.connection_count, 1);
}

#[test]
fn would_block_keeps_polling() {
    let (status, resp) = handle_event(&ReadEvent::WouldBlock);
    assert_eq!(status, HandleStatus::KeepOpen);
    assert!(resp.is_none());
    assert_eq!(connection_step(true, &status), TaskStep::SleepAndPoll);
}

#[test]
fn io_error_aborts_connection() {
    let (status, resp) = handle_event(&ReadEvent::Failed);
    assert_eq!(status, HandleStatus::IoError);
    assert!(resp.is_none());
    assert_eq!(connection_step(true, &status), TaskStep::Abort);
}

#[test]
fn stop_clears_flag_and_is_idempotent() {
    let (flag, effect) = stop_transition(true);
    assert!(!flag);
    assert_eq!(effect, StopEffect::SignalSent);
    let (flag, effect) = stop_transition(flag);
    assert!(!flag);
    assert_eq!(effect, StopEffect::AlreadyStopped);
}

#[test]
fn cleared_flag_halts_accept_loop_without_clients() {
    // Whatever the accept attempt saw, a cleared flag returns control.
    assert_eq!(accept_step(false, &AcceptEvent::Accepted), AcceptStep::Stopped);
    assert_eq!(accept_step(false, &AcceptEvent::WouldBlock), AcceptStep::Stopped);
    assert_eq!(accept_step(false, &AcceptEvent::Failed), AcceptStep::Stopped);
    // Every running task also observes the cleared flag at its next turn.
    assert_eq!(connection_step(false, &HandleStatus::KeepOpen), TaskStep::Stopped);
}

#[test]
fn accept_errors_are_not_fatal() {
    assert_eq!(accept_step(true, &AcceptEvent::Failed), AcceptStep::LogAndContinue);
    assert_eq!(accept_step(true, &AcceptEvent::WouldBlock), AcceptStep::SleepIdle);
    assert_eq!(accept_step(true, &AcceptEvent::Accepted), AcceptStep::SpawnHandler);
}

#[test]
fn echo_payload_is_reused_in_response() {
    // The handler builds its echo reply from the request payload it
    // decoded, not from any shared buffer.
    let req = ClientMessage {
        message: Some(ClientPayload::EchoMessage(EchoMessage { content: b"mine".to_vec() })),
    };
    let resp = handle_data(&encode_client_message(&req)).expect("echo draws a response");
    match decode_server_message(&resp).expect("must decode").message {
        Some(ServerPayload::EchoMessage(e)) => assert_eq!(e.content, b"mine".to_vec()),
        _ => panic!("expected an echo response"),
    }
}
