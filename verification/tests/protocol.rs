use message_server::codec::decode_client_message;
use message_server::codec::decode_server_message;
use message_server::codec::encode_client_message;
use message_server::codec::encode_server_message;
use message_server::engine::handle_data;
use message_server::engine::handle_event;
use message_server::engine::process_data;
use message_server::engine::DataOutcome;
use message_server::engine::HandleStatus;
use message_server::engine::ReadEvent;
use message_server::messages::AddRequest;
use message_server::messages::AddResponse;
use message_server::messages::ClientMessage;
use message_server::messages::ClientPayload;
use message_server::messages::EchoMessage;
use message_server::messages::ServerMessage;
use message_server::messages::ServerPayload;
use message_server::varint::decode_varint;
use message_server::varint::encode_varint;
use message_server::varint::i32_to_wire;
use message_server::varint::wire_to_i32;

fn echo_request(content: &[u8]) -> ClientMessage {
    ClientMessage {
        message: Some(ClientPayload::EchoMessage(EchoMessage { content: content.to_vec() })),
    }
}

fn add_request(a: i32, b: i32) -> ClientMessage {
    ClientMessage { message: Some(ClientPayload::AddRequest(AddRequest { a, b })) }
}

/// Runs one full server cycle on the encoded request: encode, handle,
/// decode the response envelope.
fn response_of(req: &ClientMessage) -> Option<ServerMessage> {
    let bytes = encode_client_message(req);
    handle_data(&bytes).map(|r| decode_server_message(&r).expect("response bytes must decode"))
}

fn expect_echo(resp: Option<ServerMessage>) -> Vec<u8> {
    match resp.expect("an echo request draws a response").message {
        Some(ServerPayload::EchoMessage(e)) => e.content,
        _ => panic!("expected an echo response"),
    }
}

fn expect_add_result(resp: Option<ServerMessage>) -> i32 {
    match resp.expect("an add request draws a response").message {
        Some(ServerPayload::AddResponse(r)) => r.result,
        _ => panic!("expected an add response"),
    }
}

#[test]
fn echo_hello_world() {
    let content = expect_echo(response_of(&echo_request(b"Hello, World!")));
    assert_eq!(content, b"Hello, World!".to_vec());
}

#[test]
fn echo_empty_string() {
    let content = expect_echo(response_of(&echo_request(b"")));
    assert_eq!(content, Vec::<u8>::new());
}

#[test]
fn echo_non_ascii_bytes() {
    let payload: Vec<u8> = vec![0xc3, 0xa9, 0x00, 0xff, 0x80, 0x0a];
    let content = expect_echo(response_of(&echo_request(&payload)));
    assert_eq!(content, payload);
}

#[test]
fn echo_three_in_sequence() {
    let payloads: [&[u8]; 3] = [b"Hello, World!", b"How are you?", b"Goodbye!"];
    for p in payloads {
        let content = expect_echo(response_of(&echo_request(p)));
        assert_eq!(content, p.to_vec(), "Echoed message content does not match");
    }
}

#[test]
fn add_10_20_gives_30() {
    assert_eq!(expect_add_result(response_of(&add_request(10, 20))), 30);
}

#[test]
fn add_negative_operands() {
    assert_eq!(expect_add_result(response_of(&add_request(-5, -7))), -12);
}

#[test]
fn add_zero_zero() {
    assert_eq!(expect_add_result(response_of(&add_request(0, 0))), 0);
}

#[test]
fn add_wraps_on_overflow() {
    assert_eq!(expect_add_result(response_of(&add_request(i32::MAX, 1))), i32::MIN);
    assert_eq!(expect_add_result(response_of(&add_request(i32::MIN, -1))), i32::MAX);
}

#[test]
fn empty_envelope_draws_no_response() {
    let bytes = encode_client_message(&ClientMessage { message: None });
    assert_eq!(bytes, Vec::<u8>::new());
    assert!(handle_data(&bytes).is_none());
}

#[test]
fn malformed_bytes_keep_connection_open() {
    let garbage: Vec<u8> = vec![0xff, 0x01, 0x02];
    assert!(decode_client_message(&garbage).is_none());
    let (status, resp) = handle_event(&ReadEvent::Data(garbage));
    assert_eq!(status, HandleStatus::KeepOpen);
    assert!(resp.is_none());
    // The same connection still answers a valid message afterwards.
    let content = expect_echo(response_of(&echo_request(b"still here")));
    assert_eq!(content, b"still here".to_vec());
}

#[test]
fn wire_bytes_of_echo() {
    let bytes = encode_client_message(&echo_request(b"hi"));
    assert_eq!(bytes, vec![0x0a, 4, 0x0a, 2, b'h', b'i']);
}

#[test]
fn wire_bytes_of_add() {
    let bytes = encode_client_message(&add_request(10, 20));
    assert_eq!(bytes, vec![0x12, 4, 0x08, 10, 0x10, 20]);
}

#[test]
fn wire_bytes_of_add_response() {
    let resp = ServerMessage {
        message: Some(ServerPayload::AddResponse(AddResponse { result: 30 })),
    };
    let bytes = encode_server_message(&resp);
    assert_eq!(bytes, vec![0x12, 2, 0x08, 30]);
    match decode_server_message(&bytes).expect("must decode").message {
        Some(ServerPayload::AddResponse(r)) => assert_eq!(r.result, 30),
        _ => panic!("expected an add response"),
    }
}

#[test]
fn varint_small_values() {
    let cases: [(u64, &[u8]); 4] =
        [(0, &[0]), (127, &[127]), (128, &[0x80, 1]), (300, &[0xac, 2])];
    for (value, expected) in cases {
        let mut out: Vec<u8> = Vec::new();
        encode_varint(value, &mut out);
        assert_eq!(out, expected.to_vec());
        let (decoded, end) = decode_varint(&out, 0).expect("must decode");
        assert_eq!(decoded, value);
        assert_eq!(end, out.len());
    }
}

#[test]
fn varint_negative_int32_takes_ten_bytes() {
    assert_eq!(i32_to_wire(-1), u64::MAX);
    let mut out: Vec<u8> = Vec::new();
    encode_varint(u64::MAX, &mut out);
    let mut expected = vec![0xffu8; 9];
    expected.push(0x01);
    assert_eq!(out, expected);
    assert_eq!(wire_to_i32(u64::MAX), -1);
}

#[test]
fn signed_fields_round_trip() {
    let req = add_request(-2_000_000_000, 1_999_999_999);
    match decode_client_message(&encode_client_message(&req)).expect("must decode").message {
        Some(ClientPayload::AddRequest(r)) => {
            assert_eq!(r.a, -2_000_000_000);
            assert_eq!(r.b, 1_999_999_999);
        },
        _ => panic!("expected an add request"),
    }
}

#[test]
fn outcomes_tell_empty_from_malformed() {
    // An envelope with no payload is not the same non-happy path as
    // bytes that decode to nothing; neither draws a response.
    let empty = encode_client_message(&ClientMessage { message: None });
    assert!(matches!(process_data(&empty), DataOutcome::EmptyEnvelope));
    assert!(matches!(process_data(&vec![0xff, 0x01]), DataOutcome::Malformed));
    let answered = encode_client_message(&add_request(1, 2));
    assert!(matches!(process_data(&answered), DataOutcome::Responded(_)));
}

#[test]
fn decode_rejects_malformed_envelopes() {
    // A tag with no length varint.
    assert!(decode_client_message(&vec![0x0a]).is_none());
    // A length that overruns the buffer.
    assert!(decode_client_message(&vec![0x0a, 5, 0]).is_none());
    // Trailing bytes after the envelope.
    assert!(decode_client_message(&vec![0x0a, 0, 0xff]).is_none());
    // An unknown envelope tag.
    assert!(decode_client_message(&vec![0x01, 0x02]).is_none());
    // A truncated varint inside the payload.
    assert!(decode_client_message(&vec![0x12, 1, 0x08]).is_none());
}
