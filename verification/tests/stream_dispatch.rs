use quic_hyper_stunt::error::NetworkError;
use quic_hyper_stunt::quic::error::{
    classify_stream_accept_error, classify_stream_accept_failure, ConnectionErrorKind,
};
use quic_hyper_stunt::quic::handlers::{ConnEvent, ConnPhase, Dispatcher, wait_idle_bounded};
use quic_hyper_stunt::quic::stream::{echo_exchange, read_recv_stream, transmit, RecvHalf, SendHalf};

#[test]
fn test_echo_exchange_hello_world() {
    let (server_read, client_read) = echo_exchange(b"hello", b"world");
    assert_eq!(server_read, b"hello".to_vec());
    assert_eq!(client_read, b"world".to_vec());
}

#[test]
fn test_round_trip_is_byte_exact() {
    let payload: Vec<u8> = (0u8..=255).collect();
    let reply = vec![0u8, 159, 146, 150];
    let (server_read, client_read) = echo_exchange(&payload, &reply);
    assert_eq!(server_read, payload);
    assert_eq!(client_read, reply);
}

#[test]
fn test_writes_arrive_in_issuance_order() {
    let mut send = SendHalf::new();
    send.write_all(b"hel");
    send.write_all(b"lo");
    send.finish();
    let recv = transmit(send);
    assert_eq!(read_recv_stream(recv, None), b"hello".to_vec());
}

#[test]
fn test_read_recv_stream_byte_cap() {
    let recv = RecvHalf { data: b"hello".to_vec() };
    assert_eq!(read_recv_stream(recv, Some(3)), b"hel".to_vec());
    let recv = RecvHalf { data: b"hello".to_vec() };
    assert_eq!(read_recv_stream(recv, Some(99)), b"hello".to_vec());
    let recv = RecvHalf { data: b"hello".to_vec() };
    assert_eq!(read_recv_stream(recv, None), b"hello".to_vec());
}

#[test]
fn test_close_wait_times_out_within_bound_without_error() {
    let never_idle = vec![false; 60];
    let (elapsed, became_idle) = wait_idle_bounded(&never_idle, 60);
    assert_eq!(elapsed, 60);
    assert!(!became_idle);
}

#[test]
fn test_close_wait_stops_at_first_idle() {
    let mut observations = vec![false; 60];
    observations[4] = true;
    let (elapsed, became_idle) = wait_idle_bounded(&observations, 60);
    assert_eq!(elapsed, 5);
    assert!(became_idle);
}

#[test]
fn test_peer_close_classified_as_connection_closed() {
    let err = classify_stream_accept_error(
        ConnectionErrorKind::ApplicationClosed,
        "127.0.0.1:4444",
        "closed by peer".to_string(),
    );
    match &err {
        NetworkError::ConnectionClosedError(peer) => assert_eq!(peer, "127.0.0.1:4444"),
        other => panic!("peer close misclassified as {:?}", other),
    }
    assert!(err.is_connection_closed());
}

#[test]
fn test_other_accept_failures_keep_connection_kind() {
    let err = classify_stream_accept_error(
        ConnectionErrorKind::TimedOut,
        "127.0.0.1:4444",
        "timed out".to_string(),
    );
    match &err {
        NetworkError::ConnectionError(detail) => assert_eq!(detail, "timed out"),
        other => panic!("timeout misclassified as {:?}", other),
    }
    assert!(!err.is_connection_closed());
}

#[test]
fn test_classification_from_engine_error() {
    let engine_err = quinn::ConnectionError::TimedOut;
    let err = classify_stream_accept_failure(&engine_err, "127.0.0.1:4444");
    assert!(matches!(err, NetworkError::ConnectionError(_)));

    let engine_err = quinn::ConnectionError::LocallyClosed;
    let err = NetworkError::from_connection_error(&engine_err);
    assert!(matches!(err, NetworkError::ConnectionError(_)));
}

#[test]
fn test_stream_and_connect_error_conversions() {
    let err = NetworkError::from_read_to_end_error(&quinn::ReadToEndError::TooLong);
    assert!(matches!(err, NetworkError::RecvError(_)));

    let err = NetworkError::from_write_error(&quinn::WriteError::UnknownStream);
    assert!(matches!(err, NetworkError::WriteError(_)));

    let err = NetworkError::from_connect_error(&quinn::ConnectError::EndpointStopping);
    assert!(matches!(err, NetworkError::ConnectError(_)));
}

#[test]
fn test_failed_connection_leaves_siblings_and_loop_untouched() {
    let mut dispatcher = Dispatcher::new();
    let a = dispatcher.connection_arrived();
    let b = dispatcher.connection_arrived();
    dispatcher.conn_event(a, ConnEvent::HandshakeOk);
    dispatcher.conn_event(b, ConnEvent::HandshakeOk);
    dispatcher.conn_event(a, ConnEvent::StreamPeerClosed);
    assert_eq!(dispatcher.conns[a], ConnPhase::Completed);
    assert_eq!(dispatcher.conns[b], ConnPhase::Established);
    assert!(dispatcher.accepting);

    let c = dispatcher.connection_arrived();
    dispatcher.conn_event(c, ConnEvent::HandshakeFailed);
    assert_eq!(dispatcher.conns[c], ConnPhase::Failed);
    assert_eq!(dispatcher.conns[b], ConnPhase::Established);
    assert!(dispatcher.accepting);

    dispatcher.conn_event(b, ConnEvent::StreamAccepted);
    dispatcher.conn_event(b, ConnEvent::HandlerStarted);
    dispatcher.conn_event(b, ConnEvent::HandlerFailed);
    assert_eq!(dispatcher.conns[b], ConnPhase::Failed);
    assert!(dispatcher.accepting, "a handler failure must not stop the accept loop");

    dispatcher.endpoint_drained();
    assert!(!dispatcher.accepting);
    assert_eq!(dispatcher.conns.len(), 3);
}

#[test]
fn test_handler_success_completes_connection() {
    let mut dispatcher = Dispatcher::new();
    let a = dispatcher.connection_arrived();
    dispatcher.conn_event(a, ConnEvent::HandshakeOk);
    dispatcher.conn_event(a, ConnEvent::StreamAccepted);
    dispatcher.conn_event(a, ConnEvent::HandlerStarted);
    dispatcher.conn_event(a, ConnEvent::HandlerOk);
    assert_eq!(dispatcher.conns[a], ConnPhase::Completed);
}

#[test]
fn test_error_detail_and_kinds() {
    let err = NetworkError::RecvError("stream reset".to_string());
    assert_eq!(err.detail(), "stream reset");
    assert!(!err.is_connection_closed());
    let err = NetworkError::FatalError("budget exhausted".to_string());
    assert_eq!(err.detail(), "budget exhausted");
}
