use tau_radio::sender::{
    build_handshake_request, Credentials, EncodedChunk, NetworkSender, SenderStep, SessionState,
    BACKOFF_MS,
};
use tau_radio::shutdown::ShutdownSignal;

fn creds() -> Credentials {
    Credentials {
        username: String::from("dj"),
        password: String::from("opensesame"),
        broadcast_port: 7777,
    }
}

#[test]
fn handshake_request_carries_the_three_fields() {
    let r = build_handshake_request(&String::from("10.0.0.5"), 9000, &creds());
    assert_eq!(r.host, "10.0.0.5");
    assert_eq!(r.port, 9000);
    assert_eq!(r.authority, "10.0.0.5:9000");
    assert_eq!(r.username, "dj");
    assert_eq!(r.password, "opensesame");
    assert_eq!(r.port_field, "7777");
}

#[test]
fn three_refusals_then_success_means_four_attempts() {
    // The transport refuses three times, then accepts: exactly four
    // connection attempts, each refusal answered with the fixed backoff,
    // and Authenticated is reached only on attempt four.
    let mut snd = NetworkSender::new();
    assert!(BACKOFF_MS > 0);
    for expected_failures in 1..=3u64 {
        let step = snd.connect_cycle(false);
        assert_eq!(step, SenderStep::Backoff);
        assert_eq!(snd.state(), SessionState::Disconnected);
        assert_eq!(snd.failures(), expected_failures);
    }
    assert_eq!(snd.attempts(), 3);
    snd.begin_attempt();
    assert_eq!(snd.state(), SessionState::Connecting);
    snd.handshake_accepted();
    assert_eq!(snd.state(), SessionState::Authenticated);
    snd.start_streaming();
    assert_eq!(snd.state(), SessionState::Streaming);
    assert_eq!(snd.attempts(), 4);
    assert_eq!(snd.failures(), 3);
}

#[test]
fn streaming_transmits_every_chunk_in_turn() {
    let mut snd = NetworkSender::new();
    let step = snd.connect_cycle(true);
    assert_eq!(step, SenderStep::AwaitChunk);
    assert_eq!(snd.attempts(), 1);
    for n in 1..=3u64 {
        snd.accept_chunk(EncodedChunk { data: vec![n as u8; 4] });
        snd.send_succeeded();
        assert_eq!(snd.sent_count(), n);
    }
    assert_eq!(snd.state(), SessionState::Streaming);
}

#[test]
fn send_failure_destroys_the_session_and_the_sender_reconnects() {
    let mut snd = NetworkSender::new();
    snd.connect_cycle(true);
    snd.accept_chunk(EncodedChunk { data: vec![1, 2, 3] });
    snd.send_succeeded();
    snd.accept_chunk(EncodedChunk { data: vec![4, 5, 6] });
    snd.send_failed();
    // The failed chunk is dropped — best effort, no replay — and the next
    // poll asks for a reconnect.
    assert_eq!(snd.state(), SessionState::Disconnected);
    assert_eq!(snd.sent_count(), 1);
    let sig = ShutdownSignal::new();
    assert_eq!(snd.poll(&sig), SenderStep::Connect);
    let step = snd.connect_cycle(true);
    assert_eq!(step, SenderStep::AwaitChunk);
    assert_eq!(snd.attempts(), 2);
}

#[test]
fn peer_close_destroys_the_session() {
    let mut snd = NetworkSender::new();
    snd.connect_cycle(true);
    snd.peer_closed();
    assert_eq!(snd.state(), SessionState::Disconnected);
}

#[test]
fn sender_polls_stop_once_shutdown_is_requested() {
    let mut snd = NetworkSender::new();
    let mut sig = ShutdownSignal::new();
    assert_eq!(snd.poll(&sig), SenderStep::Connect);
    snd.connect_cycle(true);
    assert_eq!(snd.poll(&sig), SenderStep::AwaitChunk);
    sig.request();
    assert_eq!(snd.poll(&sig), SenderStep::Stop);
    snd.close();
    assert_eq!(snd.state(), SessionState::Closed);
    let fresh = ShutdownSignal::new();
    assert_eq!(snd.poll(&fresh), SenderStep::Stop);
}
