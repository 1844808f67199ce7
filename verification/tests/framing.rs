use haveno_basic_bootstrap::error::{Error, FramingError, ProtocolError, TransportError};
use haveno_basic_bootstrap::messages::envelope::{Envelope, Payload};
use haveno_basic_bootstrap::messages::requests::PreliminaryGetDataRequest;
use haveno_basic_bootstrap::messages::response::GetDataResponse;
use haveno_basic_bootstrap::utils::network::envelope::{
    build_envelope, build_envelope_with_version, decode, encode, recv_envelope, send_envelope,
};
use haveno_basic_bootstrap::utils::network::framing::{DecodeStep, FrameDecoder};
use haveno_basic_bootstrap::utils::network::stream::{ByteStream, ReadEvent};

const CEILING: usize = 1 << 20;

fn request() -> Envelope {
    build_envelope(Payload::PreliminaryGetDataRequest(PreliminaryGetDataRequest {
        nonce: 4232,
        excluded_keys: vec![],
        version: "1.1.2".to_string(),
        supported_capabilities: vec![11, 14, 16],
    }))
}

fn response(items: usize) -> Envelope {
    build_envelope(Payload::GetDataResponse(GetDataResponse {
        request_nonce: 4232,
        supported_capabilities: vec![11, 14, 16],
        items: (0..items)
            .map(|i| {
                haveno_basic_bootstrap::messages::storage::StoragePayload::SignedWitness(vec![
                    i as u8;
                    40
                ])
            })
            .collect(),
    }))
}

#[test]
fn build_envelope_uses_the_default_version() {
    let envelope = request();
    assert_eq!(envelope.protocol_version, "0X");
    let other = build_envelope_with_version("1", envelope.payload.clone());
    assert_eq!(other.protocol_version, "1");
    assert_eq!(other.payload, envelope.payload);
}

#[test]
fn frame_is_length_then_body() {
    let envelope = request();
    let body = envelope.to_bytes();
    assert_eq!(body.len(), 26);
    let frame = encode(&envelope);
    assert_eq!(frame[0], 26);
    assert_eq!(&frame[1..], &body[..]);
}

#[test]
fn long_frame_has_a_two_byte_prefix() {
    let envelope = response(10);
    let body = envelope.to_bytes();
    assert!(body.len() >= 128 && body.len() < 16384);
    let frame = encode(&envelope);
    assert_eq!(frame[0], (body.len() % 128) as u8 | 0x80);
    assert_eq!(frame[1], (body.len() / 128) as u8);
    assert_eq!(&frame[2..], &body[..]);
}

#[test]
fn decode_inverts_encode() {
    for envelope in [request(), response(0), response(3), response(10)] {
        let frame = encode(&envelope);
        assert_eq!(decode(&frame, CEILING), Ok((envelope, frame.len())));
    }
}

#[test]
fn decode_leaves_what_follows_the_frame() {
    let envelope = request();
    let mut bytes = encode(&envelope);
    let len = bytes.len();
    bytes.extend_from_slice(&[1, 2, 3]);
    assert_eq!(decode(&bytes, CEILING), Ok((envelope, len)));
}

#[test]
fn one_frame_then_the_connection_is_closed() {
    let envelope = request();
    let mut stream = ByteStream::new(encode(&envelope));
    assert_eq!(recv_envelope(&mut stream, CEILING), Ok(envelope));
    assert_eq!(stream.position, stream.incoming.len());
    assert_eq!(
        recv_envelope(&mut stream, CEILING),
        Err(Error::Transport(TransportError::ConnectionClosed))
    );
}

#[test]
fn two_frames_are_read_in_turn() {
    let first = request();
    let second = response(2);
    let mut bytes = encode(&first);
    bytes.extend(encode(&second));
    let mut stream = ByteStream::new(bytes);
    assert_eq!(recv_envelope(&mut stream, CEILING), Ok(first));
    assert_eq!(recv_envelope(&mut stream, CEILING), Ok(second));
    assert_eq!(
        recv_envelope(&mut stream, CEILING),
        Err(Error::Transport(TransportError::ConnectionClosed))
    );
}

#[test]
fn truncated_frames_read_as_closed() {
    let frame = encode(&response(10));
    for cut in [0, 1, 2, 3, frame.len() - 1] {
        assert_eq!(
            decode(&frame[..cut], CEILING),
            Err(Error::Transport(TransportError::ConnectionClosed)),
            "cut at {}",
            cut
        );
    }
}

#[test]
fn oversized_frame_is_refused_whatever_follows() {
    let envelope = request();
    let frame = encode(&envelope);
    let body_len = frame.len() - 1;
    assert_eq!(decode(&frame, body_len), Ok((envelope, frame.len())));
    assert_eq!(
        decode(&frame, body_len - 1),
        Err(Error::Framing(FramingError::OversizedFrame))
    );
    // a prefix that declares four gigabytes, with nothing after it
    let huge = [0x80u8, 0x80, 0x80, 0x80, 0x10];
    assert_eq!(decode(&huge, CEILING), Err(Error::Framing(FramingError::OversizedFrame)));
    // the largest length there is
    let max = [0xffu8, 0xff, 0xff, 0xff, 0xff, 0xff, 0xff, 0xff, 0xff, 0x01];
    assert_eq!(decode(&max, usize::MAX - 1), Err(Error::Framing(FramingError::OversizedFrame)));
}

#[test]
fn oversized_frame_costs_its_prefix_and_no_more() {
    // 200 (0xc8 0x01) above a ceiling of 100, with a body after it
    let mut bytes = vec![0xc8u8, 0x01];
    bytes.extend_from_slice(&[7u8; 200]);
    let mut stream = ByteStream::new(bytes);
    assert_eq!(
        recv_envelope(&mut stream, 100),
        Err(Error::Framing(FramingError::OversizedFrame))
    );
    assert_eq!(stream.position, 2);
}

#[test]
fn failures_move_the_stream_as_far_as_was_read() {
    // the stream ends inside the prefix
    let mut stream = ByteStream::new(vec![0x80, 0x80]);
    assert!(recv_envelope(&mut stream, CEILING).is_err());
    assert_eq!(stream.position, 2);
    // ten continuation bytes, then more
    let mut stream = ByteStream::new(vec![0x80; 14]);
    assert_eq!(recv_envelope(&mut stream, CEILING), Err(Error::Framing(FramingError::Malformed)));
    assert_eq!(stream.position, 10);
    // the stream ends inside the body
    let mut stream = ByteStream::new(vec![0x05, 1, 2]);
    assert_eq!(
        recv_envelope(&mut stream, CEILING),
        Err(Error::Transport(TransportError::ConnectionClosed))
    );
    assert_eq!(stream.position, 3);
    // a whole body that is no envelope, then more
    let mut stream = ByteStream::new(vec![0x02, 0xff, 0xff, 9, 9]);
    assert_eq!(recv_envelope(&mut stream, CEILING), Err(Error::Framing(FramingError::Malformed)));
    assert_eq!(stream.position, 3);
}

#[test]
fn bad_prefix_and_bad_body_are_malformed() {
    let malformed = Err(Error::Framing(FramingError::Malformed));
    // ten continuation bytes
    assert_eq!(decode(&[0x80u8; 10], CEILING), malformed);
    assert_eq!(decode(&[0x80u8; 12], CEILING), malformed);
    // a tenth byte that overflows 64 bits
    let overflow = [0xffu8, 0xff, 0xff, 0xff, 0xff, 0xff, 0xff, 0xff, 0xff, 0x02];
    assert_eq!(decode(&overflow, CEILING), malformed);
    // an empty body is no envelope
    assert_eq!(decode(&[0x00], CEILING), malformed);
    // a body that is no envelope
    assert_eq!(decode(&[0x03, 1, 2, 3], CEILING), malformed);
    // nine continuation bytes and nothing more: the stream ended
    assert_eq!(
        decode(&[0x80u8; 9], CEILING),
        Err(Error::Transport(TransportError::ConnectionClosed))
    );
}

#[test]
fn flipped_body_byte_never_gives_the_envelope_back() {
    let envelope = request();
    let frame = encode(&envelope);
    for at in 1..frame.len() {
        let mut bad = frame.clone();
        bad[at] ^= 0x01;
        match decode(&bad, CEILING) {
            Ok((other, _)) => assert_ne!(other, envelope),
            Err(_) => {}
        }
    }
}

#[test]
fn send_envelope_appends_the_frame() {
    let mut stream = ByteStream::new(vec![]);
    stream.write_all(&[7]);
    let envelope = request();
    assert_eq!(send_envelope(&mut stream, &envelope), Ok(()));
    let mut expected = vec![7];
    expected.extend(encode(&envelope));
    assert_eq!(stream.outgoing, expected);
    assert_eq!(stream.position, 0);
}

#[test]
fn stream_reads_exactly_or_closes() {
    let mut stream = ByteStream::new(vec![1, 2, 3]);
    assert_eq!(stream.read_exact(2), ReadEvent::Data(vec![1, 2]));
    assert_eq!(stream.read_exact(0), ReadEvent::Data(vec![]));
    assert_eq!(stream.read_exact(2), ReadEvent::Closed);
    assert_eq!(stream.position, 3);
    assert_eq!(stream.read_exact(1), ReadEvent::Closed);
}

#[test]
fn decoder_asks_for_one_byte_then_the_body() {
    let envelope = response(10);
    let frame = encode(&envelope);
    let mut decoder = FrameDecoder::new(CEILING);
    assert_eq!(decoder.wanted(), 1);
    assert_eq!(decoder.advance(ReadEvent::Data(vec![frame[0]])), DecodeStep::Continue);
    assert_eq!(decoder.wanted(), 1);
    assert_eq!(decoder.advance(ReadEvent::Data(vec![frame[1]])), DecodeStep::Continue);
    assert_eq!(decoder.wanted(), frame.len() - 2);
    assert_eq!(
        decoder.advance(ReadEvent::Data(frame[2..].to_vec())),
        DecodeStep::Ready(envelope)
    );
    assert_eq!(decoder.wanted(), 0);
    assert_eq!(
        decoder.advance(ReadEvent::Data(vec![])),
        DecodeStep::Failed(Error::Protocol(ProtocolError::HandshakeOutOfOrder))
    );
}

#[test]
fn decoder_never_asks_for_more_than_the_ceiling() {
    let mut decoder = FrameDecoder::new(100);
    // 200 = 0xc8 0x01
    assert_eq!(decoder.advance(ReadEvent::Data(vec![0xc8])), DecodeStep::Continue);
    assert_eq!(
        decoder.advance(ReadEvent::Data(vec![0x01])),
        DecodeStep::Failed(Error::Framing(FramingError::OversizedFrame))
    );
    assert_eq!(decoder.wanted(), 0);
    assert_eq!(decoder.body_len, None);
}

#[test]
fn decoder_reports_timeouts_and_closed_streams() {
    let mut decoder = FrameDecoder::new(CEILING);
    assert_eq!(
        decoder.advance(ReadEvent::TimedOut),
        DecodeStep::Failed(Error::Transport(TransportError::Timeout))
    );
    let mut decoder = FrameDecoder::new(CEILING);
    assert_eq!(decoder.advance(ReadEvent::Data(vec![0x05])), DecodeStep::Continue);
    assert_eq!(decoder.wanted(), 5);
    assert_eq!(
        decoder.advance(ReadEvent::TimedOut),
        DecodeStep::Failed(Error::Transport(TransportError::Timeout))
    );
    let mut decoder = FrameDecoder::new(CEILING);
    assert_eq!(
        decoder.advance(ReadEvent::Closed),
        DecodeStep::Failed(Error::Transport(TransportError::ConnectionClosed))
    );
    // a delivery of the wrong length counts as a broken stream
    let mut decoder = FrameDecoder::new(CEILING);
    assert_eq!(
        decoder.advance(ReadEvent::Data(vec![1, 2])),
        DecodeStep::Failed(Error::Transport(TransportError::ConnectionClosed))
    );
}

#[test]
fn errors_that_end_a_connection() {
    assert!(Error::Transport(TransportError::Timeout).is_connection_fatal());
    assert!(Error::Framing(FramingError::Malformed).is_connection_fatal());
    assert!(!Error::Protocol(ProtocolError::NonceMismatch).is_connection_fatal());
}
