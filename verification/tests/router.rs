use haveno_basic_bootstrap::builders::add_data::build_add_data_message_at;
use haveno_basic_bootstrap::builders::filter::build_filter_at;
use haveno_basic_bootstrap::crypto::ecdsa::SigningKey;
use haveno_basic_bootstrap::error::{CryptoError, Error, FramingError, ProtocolError, TransportError};
use haveno_basic_bootstrap::messages::ack::AckMessage;
use haveno_basic_bootstrap::messages::address::NodeAddress;
use haveno_basic_bootstrap::messages::envelope::{Envelope, MessageKind, Payload};
use haveno_basic_bootstrap::messages::storage::{StorageEntryWrapper, StoragePayload};
use haveno_basic_bootstrap::p2p::context::PeerContext;
use haveno_basic_bootstrap::p2p::handlers::add_data::AddDataMessageHandler;
use haveno_basic_bootstrap::p2p::listener::P2PListener;
use haveno_basic_bootstrap::p2p::router::{
    dispatch_result, Dispatch, P2PMessageHandler, P2PMessageRouter,
};
use haveno_basic_bootstrap::utils::network::envelope::{build_envelope, encode};
use haveno_basic_bootstrap::utils::network::stream::ByteStream;
use std::cell::RefCell;
use std::rc::Rc;

struct Recorder {
    name: &'static str,
    calls: Rc<RefCell<Vec<&'static str>>>,
    outcome: Result<(), Error>,
}

impl<S> P2PMessageHandler<S> for Recorder {
    fn handle(&self, _ctx: PeerContext<S>) -> Result<(), Error> {
        self.calls.borrow_mut().push(self.name);
        self.outcome
    }
}

fn recorder(name: &'static str, calls: &Rc<RefCell<Vec<&'static str>>>) -> Recorder {
    Recorder { name, calls: calls.clone(), outcome: Ok(()) }
}

fn ack_envelope() -> Envelope {
    build_envelope(Payload::AckMessage(AckMessage {
        uid: "u".to_string(),
        sender_node_address: NodeAddress { host_name: "h".to_string(), port: 1 },
        success: true,
        source_type: String::new(),
        source_msg_class_name: String::new(),
        source_uid: String::new(),
        source_id: String::new(),
        error_message: String::new(),
        updated_multisig_hex: String::new(),
    }))
}

fn add_data_envelope() -> Envelope {
    let key = SigningKey::from_bytes(&[0x44u8; 32]).unwrap();
    let payload = StoragePayload::Filter(build_filter_at(1));
    build_envelope(Payload::AddDataMessage(
        build_add_data_message_at(payload, &key, 1, 1_700_000_000_000).unwrap(),
    ))
}

#[test]
fn dispatch_goes_to_the_exact_name_only() {
    let calls = Rc::new(RefCell::new(Vec::new()));
    let mut router = P2PMessageRouter::new();
    router.register("Ack", recorder("Ack", &calls));
    router.register("AckMessage", recorder("AckMessage", &calls));
    let ctx = PeerContext { stream: (), envelope: ack_envelope() };
    assert_eq!(router.dispatch(ctx), Ok(Dispatch::Handled));
    assert_eq!(*calls.borrow(), vec!["AckMessage"]);
}

#[test]
fn a_name_that_is_only_contained_does_not_match() {
    let calls = Rc::new(RefCell::new(Vec::new()));
    let mut router = P2PMessageRouter::new();
    router.register("Ack", recorder("Ack", &calls));
    router.register("Message", recorder("Message", &calls));
    router.register("AckMessageHandler", recorder("AckMessageHandler", &calls));
    router.register("ackmessage", recorder("ackmessage", &calls));
    router.register("", recorder("", &calls));
    let ctx = PeerContext { stream: (), envelope: ack_envelope() };
    assert_eq!(router.dispatch(ctx), Ok(Dispatch::Unhandled(MessageKind::AckMessage)));
    assert!(calls.borrow().is_empty());
    assert!(router.route(&ack_envelope()).is_none());
}

#[test]
fn registering_again_replaces_the_handler() {
    let calls = Rc::new(RefCell::new(Vec::new()));
    let mut router = P2PMessageRouter::new();
    router.register("AckMessage", recorder("first", &calls));
    router.register("AddDataMessage", recorder("add", &calls));
    router.register("AckMessage", recorder("second", &calls));
    assert_eq!(
        router.dispatch(PeerContext { stream: (), envelope: ack_envelope() }),
        Ok(Dispatch::Handled)
    );
    assert_eq!(
        router.dispatch(PeerContext { stream: (), envelope: add_data_envelope() }),
        Ok(Dispatch::Handled)
    );
    assert_eq!(*calls.borrow(), vec!["second", "add"]);
    assert_eq!(router.route(&ack_envelope()).unwrap().name, "second");
}

#[test]
fn empty_router_handles_nothing() {
    let router: P2PMessageRouter<Recorder> = P2PMessageRouter::new();
    assert_eq!(
        router.dispatch(PeerContext { stream: (), envelope: add_data_envelope() }),
        Ok(Dispatch::Unhandled(MessageKind::AddDataMessage))
    );
}

#[test]
fn handler_failure_is_reported() {
    let calls = Rc::new(RefCell::new(Vec::new()));
    let failure = Error::Transport(TransportError::Timeout);
    let mut router = P2PMessageRouter::new();
    router.register(
        "AckMessage",
        Recorder { name: "failing", calls: calls.clone(), outcome: Err(failure) },
    );
    assert_eq!(
        router.dispatch(PeerContext { stream: (), envelope: ack_envelope() }),
        Err(failure)
    );
    assert_eq!(*calls.borrow(), vec!["failing"]);
    assert_eq!(dispatch_result(Ok(())), Ok(Dispatch::Handled));
    assert_eq!(dispatch_result(Err(failure)), Err(failure));
}

#[test]
fn add_data_handler_accepts_only_entries_that_verify() {
    let handler = AddDataMessageHandler;
    let good = add_data_envelope();
    assert_eq!(handler.accept(&good), Ok(()));

    let mut forged = good.clone();
    if let Payload::AddDataMessage(message) = &mut forged.payload {
        let StorageEntryWrapper::ProtectedStorageEntry(entry) = &mut message.entry;
        entry.storage_payload = StoragePayload::Filter(build_filter_at(2));
    }
    assert_eq!(handler.accept(&forged), Err(Error::Crypto(CryptoError::VerifyFailure)));

    let mut unsigned = good.clone();
    if let Payload::AddDataMessage(message) = &mut unsigned.payload {
        let StorageEntryWrapper::ProtectedStorageEntry(entry) = &mut message.entry;
        entry.signature = vec![];
    }
    assert_eq!(handler.accept(&unsigned), Err(Error::Crypto(CryptoError::VerifyFailure)));

    assert_eq!(
        handler.accept(&ack_envelope()),
        Err(Error::Protocol(ProtocolError::UnexpectedPayloadKind))
    );
    let ctx = PeerContext { stream: (), envelope: good };
    assert_eq!(handler.handle(ctx), Ok(()));
}

#[test]
fn listener_reads_one_frame_and_dispatches() {
    let listener = P2PListener::new(3333);
    assert_eq!(listener.port, 3333);
    let mut router = P2PMessageRouter::new();
    router.register("AddDataMessage", AddDataMessageHandler);

    let mut bytes = encode(&add_data_envelope());
    bytes.extend(encode(&ack_envelope()));
    assert_eq!(listener.serve(&router, ByteStream::new(bytes)), Ok(Dispatch::Handled));

    let unhandled = ByteStream::new(encode(&ack_envelope()));
    assert_eq!(
        listener.serve(&router, unhandled),
        Ok(Dispatch::Unhandled(MessageKind::AckMessage))
    );
    assert_eq!(
        listener.serve(&router, ByteStream::new(vec![])),
        Err(Error::Transport(TransportError::ConnectionClosed))
    );
    assert_eq!(
        listener.serve(&router, ByteStream::new(vec![0x02, 0xff, 0xff])),
        Err(Error::Framing(FramingError::Malformed))
    );
    let small = P2PListener { port: 1, max_body_len: 4 };
    assert_eq!(
        small.serve(&router, ByteStream::new(encode(&ack_envelope()))),
        Err(Error::Framing(FramingError::OversizedFrame))
    );
}
