//! The handle cycle end to end on concrete wire bytes, and the control
//! decisions around it.

use echo_add_server::control::{
    listen_step, AcceptEvent, ListenAction, ServerState, StopNotice, ACCEPT_RETRY_MILLIS,
};
use echo_add_server::decode::decode_server_message;
use echo_add_server::encode::encode_client_message;
use echo_add_server::handler::{
    handle_cycle, handler_continues, respond_to, CycleOutcome, ReadEvent, READ_BUFFER_LEN,
};
use echo_add_server::messages::{
    AddRequest, ClientMessage, ClientPayload, EchoMessage, ServerPayload,
};

fn reply_bytes(outcome: CycleOutcome) -> Vec<u8> {
    match outcome {
        CycleOutcome::Reply(bytes) => bytes,
        other => panic!("expected a reply, got {:?}", other),
    }
}

#[test]
fn session_scenario_add_echo_disconnect() {
    // The client sends an encoded add request over 2 and 3.
    let add = ClientMessage {
        message: Some(ClientPayload::Add(AddRequest { a: 2, b: 3 })),
    };
    let outcome = handle_cycle(ReadEvent::Data(encode_client_message(&add)));
    let bytes = reply_bytes(outcome);
    let response = decode_server_message(&bytes).expect("server reply decodes");
    match response.message {
        Some(ServerPayload::AddResult(r)) => assert_eq!(r.result, 5),
        other => panic!("expected an add result, got {:?}", other),
    }

    // The client then sends an encoded echo request over "hi".
    let echo = ClientMessage {
        message: Some(ClientPayload::Echo(EchoMessage { content: b"hi".to_vec() })),
    };
    let outcome = handle_cycle(ReadEvent::Data(encode_client_message(&echo)));
    let bytes = reply_bytes(outcome);
    let response = decode_server_message(&bytes).expect("server reply decodes");
    match response.message {
        Some(ServerPayload::Echo(e)) => assert_eq!(e.content, b"hi".to_vec()),
        other => panic!("expected an echo, got {:?}", other),
    }

    // The client disconnects: the handler's work ends, with no response and
    // no error.
    let outcome = handle_cycle(ReadEvent::PeerClosed);
    assert_eq!(outcome, CycleOutcome::Disconnect);
    assert!(!handler_continues(true, &outcome));
}

#[test]
fn add_result_wraps_at_the_boundary() {
    let add = ClientMessage {
        message: Some(ClientPayload::Add(AddRequest { a: i32::MAX, b: 1 })),
    };
    let bytes = reply_bytes(handle_cycle(ReadEvent::Data(encode_client_message(&add))));
    let response = decode_server_message(&bytes).expect("server reply decodes");
    match response.message {
        Some(ServerPayload::AddResult(r)) => assert_eq!(r.result, i32::MIN),
        other => panic!("expected an add result, got {:?}", other),
    }
}

#[test]
fn echo_of_empty_content() {
    let echo = ClientMessage {
        message: Some(ClientPayload::Echo(EchoMessage { content: Vec::new() })),
    };
    let bytes = reply_bytes(handle_cycle(ReadEvent::Data(encode_client_message(&echo))));
    let response = decode_server_message(&bytes).expect("server reply decodes");
    match response.message {
        Some(ServerPayload::Echo(e)) => assert!(e.content.is_empty()),
        other => panic!("expected an echo, got {:?}", other),
    }
}

#[test]
fn empty_body_is_ignored_and_keeps_the_connection() {
    let outcome = handle_cycle(ReadEvent::Data(Vec::new()));
    assert_eq!(outcome, CycleOutcome::Ignored);
    assert!(handler_continues(true, &outcome));
}

#[test]
fn unrecognized_body_is_ignored_and_keeps_the_connection() {
    // One unknown varint field; well-formed, but no payload.
    let outcome = handle_cycle(ReadEvent::Data(vec![0x18, 0x2a]));
    assert_eq!(outcome, CycleOutcome::Ignored);
    assert!(handler_continues(true, &outcome));
}

#[test]
fn malformed_bytes_close_the_connection_without_response() {
    let outcome = handle_cycle(ReadEvent::Data(vec![0x12]));
    assert_eq!(outcome, CycleOutcome::FatalDecode);
    assert!(!handler_continues(true, &outcome));
}

#[test]
fn would_block_is_a_no_op_cycle() {
    let outcome = handle_cycle(ReadEvent::WouldBlock);
    assert_eq!(outcome, CycleOutcome::Idle);
    assert!(handler_continues(true, &outcome));
}

#[test]
fn read_failure_is_fatal_for_the_connection() {
    let outcome = handle_cycle(ReadEvent::Failed);
    assert_eq!(outcome, CycleOutcome::FatalRead);
    assert!(!handler_continues(true, &outcome));
}

#[test]
fn no_payload_asks_for_no_response() {
    assert_eq!(respond_to(&ClientMessage { message: None }), None);
}

#[test]
fn stop_is_idempotent() {
    let mut state = ServerState::new();
    assert!(!state.running);
    state.start();
    assert!(state.running);
    assert_eq!(state.stop(), StopNotice::SignalSent);
    assert!(!state.running);
    assert_eq!(state.stop(), StopNotice::AlreadyStopped);
    assert!(!state.running);
}

#[test]
fn listener_decisions_while_running() {
    assert_eq!(listen_step(true, AcceptEvent::Accepted), ListenAction::SpawnHandler);
    assert_eq!(listen_step(true, AcceptEvent::NoPending), ListenAction::SleepRetry);
    assert_eq!(listen_step(true, AcceptEvent::Failed), ListenAction::ReportAndContinue);
}

#[test]
fn stopped_listener_accepts_nothing() {
    assert_eq!(listen_step(false, AcceptEvent::Accepted), ListenAction::ExitLoop);
    assert_eq!(listen_step(false, AcceptEvent::NoPending), ListenAction::ExitLoop);
    assert_eq!(listen_step(false, AcceptEvent::Failed), ListenAction::ExitLoop);
}

#[test]
fn stopped_handler_runs_no_further_cycle() {
    assert!(!handler_continues(false, &CycleOutcome::Idle));
    assert!(!handler_continues(false, &CycleOutcome::Reply(vec![1])));
    assert!(!handler_continues(false, &CycleOutcome::Ignored));
}

#[test]
fn timing_constants() {
    assert_eq!(ACCEPT_RETRY_MILLIS, 100);
    assert_eq!(READ_BUFFER_LEN, 512);
}
