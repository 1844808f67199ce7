use haveno_basic_bootstrap::builders::add_data::verify_entry;
use haveno_basic_bootstrap::builders::filter::build_signed_filter_at;
use haveno_basic_bootstrap::crypto::ecdsa::SigningKey;
use haveno_basic_bootstrap::error::{
    CryptoError, Error, FramingError, ProtocolError, TransportError,
};
use haveno_basic_bootstrap::events::bootstrap::{
    delay_before_retry, run_seed_bootstrap, BootstrapPlan, BootstrapSession, SessionAction,
    SessionEvent, SessionState,
};
use haveno_basic_bootstrap::messages::ack::AckMessage;
use haveno_basic_bootstrap::messages::address::NodeAddress;
use haveno_basic_bootstrap::messages::envelope::{Envelope, Payload};
use haveno_basic_bootstrap::messages::requests::{GetUpdatedDataRequest, PreliminaryGetDataRequest};
use haveno_basic_bootstrap::messages::response::GetDataResponse;
use haveno_basic_bootstrap::messages::storage::{StorageEntryWrapper, StoragePayload};
use haveno_basic_bootstrap::utils::config::Config;
use haveno_basic_bootstrap::utils::network::envelope::{build_envelope, encode, recv_envelope};
use haveno_basic_bootstrap::utils::network::stream::ByteStream;

const CEILING: usize = 1 << 20;

fn key() -> SigningKey {
    SigningKey::from_bytes(&[0x55u8; 32]).unwrap()
}

fn config() -> Config {
    Config {
        secret: String::new(),
        node_host: "node.onion".to_string(),
        node_port: -2001,
        version: "1.1.2".to_string(),
        p2p_version: "0X".to_string(),
    }
}

fn plan(request_update: bool) -> BootstrapPlan {
    BootstrapPlan {
        config: config(),
        request_nonce: 4232,
        capabilities: vec![11, 14, 16],
        excluded_keys: vec![],
        request_update,
        update_nonce: 3424,
        ack_uid: "ack-1".to_string(),
        payload: StoragePayload::Filter(build_signed_filter_at(&key(), 1_700_000_000).unwrap()),
        sequence_number: 1,
        max_connect_attempts: 3,
        retry_delay_ms: 250,
    }
}

fn response(nonce: i32) -> Envelope {
    build_envelope(Payload::GetDataResponse(GetDataResponse {
        request_nonce: nonce,
        supported_capabilities: vec![11, 14, 16],
        items: vec![],
    }))
}

fn expected_request() -> Envelope {
    Envelope {
        protocol_version: "0X".to_string(),
        payload: Payload::PreliminaryGetDataRequest(PreliminaryGetDataRequest {
            nonce: 4232,
            excluded_keys: vec![],
            version: "1.1.2".to_string(),
            supported_capabilities: vec![11, 14, 16],
        }),
    }
}

fn sent(action: SessionAction) -> Envelope {
    match action {
        SessionAction::Send(envelope) => envelope,
        other => panic!("expected an envelope to send, got {:?}", other),
    }
}

fn aborted(action: SessionAction) -> Error {
    match action {
        SessionAction::Abort(reason) => reason,
        other => panic!("expected an abort, got {:?}", other),
    }
}

fn awaiting(request_update: bool) -> BootstrapSession {
    let mut session = BootstrapSession::new(plan(request_update), key());
    assert!(matches!(session.first_action(), SessionAction::Connect { delay_ms: 0 }));
    assert_eq!(session.state, SessionState::Disconnected);
    let request = sent(session.step(&SessionEvent::ConnectSucceeded));
    assert_eq!(request, expected_request());
    assert_eq!(session.state, SessionState::Connected);
    assert!(matches!(session.step(&SessionEvent::Sent), SessionAction::Receive));
    assert_eq!(session.state, SessionState::AwaitingDataResponse);
    session
}

#[test]
fn short_handshake_publishes_an_entry_that_verifies() {
    let mut session = awaiting(false);
    let action = session.step(&SessionEvent::Received(response(4232)));
    assert!(matches!(action, SessionAction::Seal));
    assert_eq!(session.state, SessionState::DataReceived);

    let published = sent(session.seal(1_700_000_000_123));
    assert_eq!(session.state, SessionState::Publishing);
    assert_eq!(published.protocol_version, "0X");
    let message = match &published.payload {
        Payload::AddDataMessage(message) => message,
        other => panic!("expected an AddDataMessage, got {:?}", other),
    };
    let StorageEntryWrapper::ProtectedStorageEntry(entry) = &message.entry;
    assert!(verify_entry(entry));
    assert_eq!(entry.owner_pub_key_bytes, key().verifying_key_bytes());
    assert_eq!(entry.sequence_number, 1);
    assert_eq!(entry.creation_time_stamp, 1_700_000_000_123);
    assert_eq!(entry.storage_payload, plan(false).payload);

    assert!(matches!(session.step(&SessionEvent::Sent), SessionAction::Finish));
    assert_eq!(session.state, SessionState::Done);
    assert!(matches!(session.step(&SessionEvent::Sent), SessionAction::Finish));
    assert!(matches!(session.seal(5), SessionAction::Finish));
    assert_eq!(session.state, SessionState::Done);
    assert_eq!(session.failure, None);
}

#[test]
fn long_handshake_asks_for_an_update_and_acknowledges() {
    let mut session = awaiting(true);
    let update = sent(session.step(&SessionEvent::Received(response(4232))));
    assert_eq!(session.state, SessionState::DataReceived);
    assert_eq!(
        update.payload,
        Payload::GetUpdatedDataRequest(GetUpdatedDataRequest {
            sender_node_address: NodeAddress { host_name: "node.onion".to_string(), port: 2001 },
            nonce: 3424,
            excluded_keys: vec![],
            version: "1.1.2".to_string(),
        })
    );
    let ack = sent(session.step(&SessionEvent::Sent));
    assert_eq!(session.state, SessionState::UpdateRequested);
    assert_eq!(
        ack.payload,
        Payload::AckMessage(AckMessage {
            uid: "ack-1".to_string(),
            sender_node_address: NodeAddress { host_name: "node.onion".to_string(), port: 2001 },
            success: true,
            source_type: String::new(),
            source_msg_class_name: String::new(),
            source_uid: String::new(),
            source_id: String::new(),
            error_message: String::new(),
            updated_multisig_hex: String::new(),
        })
    );
    assert!(matches!(session.step(&SessionEvent::Sent), SessionAction::Seal));
    assert_eq!(session.state, SessionState::Acknowledged);
    let published = sent(session.seal(9));
    assert!(matches!(published.payload, Payload::AddDataMessage(_)));
    assert_eq!(session.state, SessionState::Publishing);
    assert!(matches!(session.step(&SessionEvent::Sent), SessionAction::Finish));
    assert_eq!(session.state, SessionState::Done);
}

#[test]
fn mismatched_nonce_fails_the_session() {
    for request_update in [false, true] {
        let mut session = awaiting(request_update);
        let reason = aborted(session.step(&SessionEvent::Received(response(4233))));
        assert_eq!(reason, Error::Protocol(ProtocolError::NonceMismatch));
        assert_eq!(session.state, SessionState::Failed);
        assert_eq!(session.failure, Some(reason));
        // nothing is published afterwards
        assert_eq!(aborted(session.seal(1)), reason);
        assert_eq!(aborted(session.step(&SessionEvent::Sent)), reason);
        assert_eq!(aborted(session.step(&SessionEvent::Received(response(4232)))), reason);
        assert_eq!(session.state, SessionState::Failed);
    }
}

#[test]
fn unexpected_payload_fails_the_session() {
    let mut session = awaiting(false);
    let reason = aborted(session.step(&SessionEvent::Received(expected_request())));
    assert_eq!(reason, Error::Protocol(ProtocolError::UnexpectedPayloadKind));
    assert_eq!(session.state, SessionState::Failed);
}

#[test]
fn events_out_of_order_fail_the_session() {
    let out_of_order = Error::Protocol(ProtocolError::HandshakeOutOfOrder);

    let mut session = BootstrapSession::new(plan(false), key());
    assert_eq!(aborted(session.step(&SessionEvent::Sent)), out_of_order);
    assert_eq!(session.state, SessionState::Failed);

    let mut session = BootstrapSession::new(plan(false), key());
    assert_eq!(aborted(session.step(&SessionEvent::Received(response(4232)))), out_of_order);

    let mut session = BootstrapSession::new(plan(false), key());
    assert_eq!(aborted(session.seal(1)), out_of_order);

    let mut session = awaiting(false);
    assert_eq!(aborted(session.step(&SessionEvent::ConnectSucceeded)), out_of_order);

    let mut session = awaiting(false);
    assert_eq!(aborted(session.step(&SessionEvent::Sent)), out_of_order);

    // in the short handshake nothing is sent between the answer and the entry
    let mut session = awaiting(false);
    let _ = session.step(&SessionEvent::Received(response(4232)));
    assert_eq!(aborted(session.step(&SessionEvent::Sent)), out_of_order);

    // in the long handshake the entry is not sealed before the acknowledgement
    let mut session = awaiting(true);
    let _ = session.step(&SessionEvent::Received(response(4232)));
    assert_eq!(aborted(session.seal(1)), out_of_order);
}

#[test]
fn transport_failure_and_deadline_end_the_session() {
    let closed = Error::Transport(TransportError::ConnectionClosed);
    let mut session = awaiting(false);
    assert_eq!(aborted(session.step(&SessionEvent::Failed(closed))), closed);
    assert_eq!(session.state, SessionState::Failed);
    assert_eq!(session.failure, Some(closed));

    let malformed = Error::Framing(FramingError::Malformed);
    let mut session = BootstrapSession::new(plan(false), key());
    let _ = session.step(&SessionEvent::ConnectSucceeded);
    assert_eq!(aborted(session.step(&SessionEvent::Failed(malformed))), malformed);

    let mut session = awaiting(true);
    assert_eq!(
        aborted(session.step(&SessionEvent::DeadlineExpired)),
        Error::Transport(TransportError::Timeout)
    );
    assert_eq!(session.state, SessionState::Failed);
}

#[test]
fn connection_is_retried_with_growing_pauses_until_attempts_run_out() {
    let mut session = BootstrapSession::new(plan(false), key());
    assert_eq!(session.attempts, 1);
    assert!(matches!(
        session.step(&SessionEvent::ConnectFailed),
        SessionAction::Connect { delay_ms: 250 }
    ));
    assert_eq!(session.attempts, 2);
    assert_eq!(session.state, SessionState::Disconnected);
    assert!(matches!(
        session.step(&SessionEvent::ConnectFailed),
        SessionAction::Connect { delay_ms: 500 }
    ));
    assert_eq!(session.attempts, 3);
    assert_eq!(
        aborted(session.step(&SessionEvent::ConnectFailed)),
        Error::Transport(TransportError::ConnectionClosed)
    );
    assert_eq!(session.state, SessionState::Failed);

    // a retry that succeeds goes on as a first attempt would
    let mut session = BootstrapSession::new(plan(false), key());
    let _ = session.step(&SessionEvent::ConnectFailed);
    assert_eq!(sent(session.step(&SessionEvent::ConnectSucceeded)), expected_request());
}

#[test]
fn single_attempt_fails_at_once() {
    for attempts in [0, 1] {
        let mut only_once = plan(false);
        only_once.max_connect_attempts = attempts;
        let mut session = BootstrapSession::new(only_once, key());
        assert_eq!(
            aborted(session.step(&SessionEvent::ConnectFailed)),
            Error::Transport(TransportError::ConnectionClosed)
        );
    }
}

#[test]
fn retry_pause_doubles_and_saturates() {
    assert_eq!(delay_before_retry(250, 0), 250);
    assert_eq!(delay_before_retry(250, 1), 250);
    assert_eq!(delay_before_retry(250, 2), 500);
    assert_eq!(delay_before_retry(250, 5), 4000);
    assert_eq!(delay_before_retry(0, 40), 0);
    assert_eq!(delay_before_retry(1, 64), 1 << 63);
    assert_eq!(delay_before_retry(1, 65), u64::MAX);
    assert_eq!(delay_before_retry(u64::MAX, 2), u64::MAX);
    assert_eq!(delay_before_retry(3, 200), u64::MAX);
}

#[test]
fn end_to_end_over_a_stream() {
    let mut stream = ByteStream::new(encode(&response(4232)));
    let created = run_seed_bootstrap(plan(false), key(), &mut stream, CEILING).unwrap();

    let mut peer = ByteStream::new(stream.outgoing.clone());
    assert_eq!(recv_envelope(&mut peer, CEILING), Ok(expected_request()));
    let published = recv_envelope(&mut peer, CEILING).unwrap();
    assert_eq!(
        recv_envelope(&mut peer, CEILING),
        Err(Error::Transport(TransportError::ConnectionClosed))
    );
    let message = match published.payload {
        Payload::AddDataMessage(message) => message,
        other => panic!("expected an AddDataMessage, got {:?}", other),
    };
    let StorageEntryWrapper::ProtectedStorageEntry(entry) = message.entry;
    assert!(verify_entry(&entry));
    assert_eq!(entry.owner_pub_key_bytes, key().verifying_key_bytes());
    assert_eq!(entry.creation_time_stamp, created);
    assert!(created > 1_600_000_000_000);
    assert!(matches!(entry.storage_payload, StoragePayload::Filter(_)));
}

#[test]
fn end_to_end_long_handshake_sends_four_frames() {
    let mut stream = ByteStream::new(encode(&response(4232)));
    run_seed_bootstrap(plan(true), key(), &mut stream, CEILING).unwrap();
    let mut peer = ByteStream::new(stream.outgoing.clone());
    let kinds: Vec<String> = (0..4)
        .map(|_| recv_envelope(&mut peer, CEILING).unwrap().payload.kind().name().to_string())
        .collect();
    assert_eq!(
        kinds,
        vec!["PreliminaryGetDataRequest", "GetUpdatedDataRequest", "AckMessage", "AddDataMessage"]
    );
    assert_eq!(peer.position, peer.incoming.len());
}

#[test]
fn end_to_end_failures_send_the_request_only() {
    let request_frame = encode(&expected_request());

    let mut stream = ByteStream::new(encode(&response(1)));
    assert_eq!(
        run_seed_bootstrap(plan(true), key(), &mut stream, CEILING),
        Err(Error::Protocol(ProtocolError::NonceMismatch))
    );
    assert_eq!(stream.outgoing, request_frame);

    let mut stream = ByteStream::new(encode(&expected_request()));
    assert_eq!(
        run_seed_bootstrap(plan(false), key(), &mut stream, CEILING),
        Err(Error::Protocol(ProtocolError::UnexpectedPayloadKind))
    );
    assert_eq!(stream.outgoing, request_frame);

    let mut stream = ByteStream::new(vec![]);
    assert_eq!(
        run_seed_bootstrap(plan(false), key(), &mut stream, CEILING),
        Err(Error::Transport(TransportError::ConnectionClosed))
    );
    assert_eq!(stream.outgoing, request_frame);

    let mut stream = ByteStream::new(encode(&response(4232)));
    assert_eq!(
        run_seed_bootstrap(plan(false), key(), &mut stream, 3),
        Err(Error::Framing(FramingError::OversizedFrame))
    );
    assert_eq!(stream.outgoing, request_frame);
}

#[test]
fn session_takes_its_key_from_the_configuration() {
    let mut configured = plan(false);
    // base64 of 32 bytes 0x55, the secret of `key()`
    configured.config.secret = "VVVVVVVVVVVVVVVVVVVVVVVVVVVVVVVVVVVVVVVVVVU=".to_string();
    let mut session = match BootstrapSession::with_configured_key(configured) {
        Ok(session) => session,
        Err(reason) => panic!("no session: {:?}", reason),
    };
    assert_eq!(session.state, SessionState::Disconnected);
    assert_eq!(session.attempts, 1);
    let _ = session.step(&SessionEvent::ConnectSucceeded);
    let _ = session.step(&SessionEvent::Sent);
    let _ = session.step(&SessionEvent::Received(response(4232)));
    let published = sent(session.seal(1));
    let message = match &published.payload {
        Payload::AddDataMessage(message) => message,
        other => panic!("expected an AddDataMessage, got {:?}", other),
    };
    let StorageEntryWrapper::ProtectedStorageEntry(entry) = &message.entry;
    assert_eq!(entry.owner_pub_key_bytes, key().verifying_key_bytes());
    assert!(verify_entry(entry));

    assert_eq!(
        BootstrapSession::with_configured_key(plan(false)).err(),
        Some(Error::Crypto(CryptoError::KeyLoad))
    );
}
