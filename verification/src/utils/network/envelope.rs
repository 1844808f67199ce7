//! Sending and receiving envelopes as frames.

use crate::error::{Error, FramingError, TransportError};
use crate::messages::envelope::{EnvMsg, Envelope, EnvelopeView};
use crate::utils::network::framing::{
    all_continue, spec_decode, spec_frame, spec_taken, DecodeStep, FrameDecoder, MAX_PREFIX_LEN,
};
use crate::utils::network::stream::ByteStream;
use crate::varint::{
    encode_varint, lemma_decode_bounds, lemma_decode_encoded, lemma_decode_ends_at_first_low_byte,
    lemma_decode_ignores_rest, lemma_room_at_start, lemma_short_prefix_has_value,
    spec_decode_varint, spec_encode_varint,
};
use crate::wire::append_bytes;
use vstd::prelude::*;

verus! {

/// The protocol version that envelopes carry unless the caller states one.
pub open spec fn default_version() -> Seq<char> {
    "0X"@
}

/// Wraps a payload into an envelope of the default protocol version.
pub fn build_envelope(message: EnvMsg) -> (envelope: Envelope)
    ensures
        envelope@ == (EnvelopeView { protocol_version: default_version(), payload: message@ }),
{
    Envelope { protocol_version: "0X".to_owned(), payload: message }
}

/// Wraps a payload into an envelope of the given protocol version.
pub fn build_envelope_with_version(version: &str, message: EnvMsg) -> (envelope: Envelope)
    ensures
        envelope@ == (EnvelopeView { protocol_version: version@, payload: message@ }),
{
    Envelope { protocol_version: version.to_owned(), payload: message }
}

/// The frame of an envelope: the varint of the body's length, then the
/// body. Reading the frame back gives the envelope, whatever the ceiling,
/// as long as the body does not exceed it.
pub fn encode(envelope: &Envelope) -> (frame: Vec<u8>)
    ensures
        frame@ == spec_frame(envelope@),
        envelope@.encodable(),
        forall|ceiling: nat|
            envelope@.encode().len() <= ceiling ==> #[trigger] spec_decode(frame@, ceiling) == Ok::<
                (EnvelopeView, nat),
                Error,
            >((envelope@, frame@.len())),
{
    let body = envelope.to_bytes();
    let mut frame: Vec<u8> = Vec::new();
    encode_varint(body.len() as u64, &mut frame);
    append_bytes(&mut frame, body.as_slice());
    proof {
        assert(frame@ =~= spec_frame(envelope@));
        assert forall|ceiling: nat| envelope@.encode().len() <= ceiling implies #[trigger] spec_decode(
            frame@,
            ceiling,
        ) == Ok::<(EnvelopeView, nat), Error>((envelope@, frame@.len())) by {
            lemma_frame_decodes(envelope@, Seq::empty(), ceiling);
            assert(spec_frame(envelope@) + Seq::<u8>::empty() =~= frame@);
        }
    }
    frame
}

/// Writes the frame of `env` to the stream.
pub fn send_envelope(stream: &mut ByteStream, env: &Envelope) -> (sent: Result<(), Error>)
    ensures
        sent is Ok,
        final(stream).outgoing@ == old(stream).outgoing@ + spec_frame(env@),
        final(stream).incoming@ == old(stream).incoming@,
        final(stream).position == old(stream).position,
{
    let frame = encode(env);
    stream.write_all(frame.as_slice());
    Ok(())
}

/// Reads one frame from the stream and gives the envelope in it.
///
/// The result is what `spec_decode` says of the bytes that were left to
/// read, and the stream has moved on by what `spec_taken` says of them:
/// behind the frame after an envelope, behind the prefix and no further
/// after an oversized frame.
pub fn recv_envelope(stream: &mut ByteStream, ceiling: usize) -> (received: Result<Envelope, Error>)
    requires
        old(stream).wf(),
    ensures
        final(stream).wf(),
        final(stream).incoming@ == old(stream).incoming@,
        final(stream).outgoing@ == old(stream).outgoing@,
        final(stream).position == old(stream).position + spec_taken(
            old(stream).remaining(),
            ceiling as nat,
        ),
        match spec_decode(old(stream).remaining(), ceiling as nat) {
            Ok((e, taken)) => received is Ok && received->Ok_0@ == e && final(stream).position
                == old(stream).position + taken,
            Err(err) => received == Err::<Envelope, Error>(err),
        },
{
    let ghost start = stream.remaining();
    let ghost origin = stream.position as int;
    let mut decoder = FrameDecoder::new(ceiling);
    assert(start.take(0) =~= decoder.prefix@);
    loop
        invariant
            stream.wf(),
            stream.incoming@ == old(stream).incoming@,
            stream.outgoing@ == old(stream).outgoing@,
            origin == old(stream).position,
            start == old(stream).remaining(),
            origin <= stream.position,
            decoder@.wf(),
            !decoder.done,
            decoder.ceiling == ceiling,
            decoder.prefix@ == start.take(stream.position - origin),
        decreases
            (if decoder.body_len is None {
                1int
            } else {
                0int
            }),
            MAX_PREFIX_LEN - decoder.prefix@.len(),
    {
        let ghost before = decoder@;
        let ghost read = stream.position - origin;
        let ghost left = stream.remaining();
        assert(left =~= start.skip(read));
        let count = decoder.wanted();
        let event = stream.read_exact(count);
        let step = decoder.advance(event);
        proof {
            lemma_room_at_start();
            if before.body_len is None {
                if left.len() < 1 {
                    assert(start =~= before.prefix);
                    lemma_open_prefix_has_no_value(start);
                } else {
                    let byte = left[0];
                    let prefix = before.prefix.push(byte);
                    assert(prefix =~= start.take(read + 1));
                    if byte >= 128 {
                        if prefix.len() >= MAX_PREFIX_LEN {
                            lemma_ten_open_bytes_have_no_value(start);
                        }
                    } else {
                        assert forall|i: int| 0 <= i < read implies start[i] >= 128 by {
                            assert(before.prefix[i] == start[i]);
                        }
                        lemma_prefix_decides(start, read + 1);
                        if read + 1 < MAX_PREFIX_LEN {
                            lemma_short_prefix_has_value(start, read + 1, 0);
                        }
                    }
                }
            } else {
                let len = before.body_len->Some_0;
                lemma_decode_ignores_rest(before.prefix, left, 0);
                assert(before.prefix.take(read) + left =~= start);
                if left.len() >= len {
                    assert(left.take(len as int) =~= start.subrange(read, read + len));
                }
            }
        }
        match step {
            DecodeStep::Continue => {},
            DecodeStep::Ready(envelope) => {
                return Ok(envelope);
            },
            DecodeStep::Failed(err) => {
                return Err(err);
            },
        }
    }
}

/// Reads the frame at the front of `bytes`: the envelope and the number
/// of bytes its frame takes.
pub fn decode(bytes: &[u8], ceiling: usize) -> (decoded: Result<(Envelope, usize), Error>)
    ensures
        match spec_decode(bytes@, ceiling as nat) {
            Ok((e, taken)) => decoded is Ok && decoded->Ok_0.0@ == e && decoded->Ok_0.1 == taken,
            Err(err) => decoded == Err::<(Envelope, usize), Error>(err),
        },
{
    let mut stream = ByteStream::new(vstd::slice::slice_to_vec(bytes));
    match recv_envelope(&mut stream, ceiling) {
        Ok(envelope) => Ok((envelope, stream.position)),
        Err(err) => Err(err),
    }
}

/// A prefix that has not ended within fewer than ten bytes has no value.
proof fn lemma_open_prefix_has_no_value(bytes: Seq<u8>)
    requires
        all_continue(bytes),
    ensures
        spec_decode_varint(bytes) is None,
{
    if spec_decode_varint(bytes) is Some {
        lemma_decode_ends_at_first_low_byte(bytes, 0);
    }
}

/// Ten bytes that all have their top bit set begin no varint.
proof fn lemma_ten_open_bytes_have_no_value(bytes: Seq<u8>)
    requires
        bytes.len() >= MAX_PREFIX_LEN,
        all_continue(bytes.take(MAX_PREFIX_LEN as int)),
    ensures
        spec_decode_varint(bytes) is None,
{
    if spec_decode_varint(bytes) is Some {
        lemma_decode_ends_at_first_low_byte(bytes, 0);
        lemma_decode_bounds(bytes, 0);
        let count = spec_decode_varint(bytes)->Some_0.1 as int;
        assert(bytes.take(MAX_PREFIX_LEN as int)[count - 1] == bytes[count - 1]);
    }
}

/// Where the first byte below 128 is byte number `end` of a stream, the
/// first `end` bytes decide the prefix: the stream begins with a varint
/// exactly if they are one, and it is the same.
proof fn lemma_prefix_decides(bytes: Seq<u8>, end: int)
    requires
        1 <= end <= bytes.len(),
        bytes[end - 1] < 128,
        forall|i: int| 0 <= i < end - 1 ==> bytes[i] >= 128,
    ensures
        spec_decode_varint(bytes.take(end)) is Some ==> spec_decode_varint(bytes) == Some(
            (spec_decode_varint(bytes.take(end))->Some_0.0, end as nat),
        ),
        spec_decode_varint(bytes.take(end)) is None ==> spec_decode_varint(bytes) is None,
        spec_decode_varint(bytes.take(end)) is Some ==> spec_decode_varint(bytes.take(end))->Some_0.1
            == end,
{
    let head = bytes.take(end);
    if spec_decode_varint(head) is Some {
        lemma_decode_ends_at_first_low_byte(head, 0);
        let count = spec_decode_varint(head)->Some_0.1 as int;
        if count < end {
            assert(head[count - 1] == bytes[count - 1]);
        }
        lemma_decode_ignores_rest(head, bytes.skip(end), 0);
        assert(head.take(end) + bytes.skip(end) =~= bytes);
    } else if spec_decode_varint(bytes) is Some {
        lemma_decode_ends_at_first_low_byte(bytes, 0);
        let count = spec_decode_varint(bytes)->Some_0.1 as int;
        if count < end {
        } else if count > end {
        } else {
            lemma_decode_ignores_rest(bytes, Seq::empty(), 0);
            assert(bytes.take(end) + Seq::<u8>::empty() =~= head);
        }
    }
}

/// A frame reads back as its envelope, whatever follows it on the stream.
pub proof fn lemma_frame_decodes(e: EnvelopeView, rest: Seq<u8>, ceiling: nat)
    requires
        e.encodable(),
        e.encode().len() <= ceiling,
        e.encode().len() <= u64::MAX,
    ensures
        spec_decode(spec_frame(e) + rest, ceiling) == Ok::<(EnvelopeView, nat), Error>(
            (e, spec_frame(e).len()),
        ),
{
    let body = e.encode();
    let head = spec_encode_varint(body.len());
    let bytes = spec_frame(e) + rest;
    lemma_room_at_start();
    assert(bytes =~= head + (body + rest));
    lemma_decode_encoded(body.len(), body + rest, 0);
    assert(bytes.subrange(head.len() as int, (head.len() + body.len()) as int) =~= body);
    e.lemma_roundtrip();
}

/// Round trip: decoding the frame of an envelope gives the envelope back
/// and takes the whole frame.
pub proof fn decode_inverts_encode(e: EnvelopeView, ceiling: nat)
    requires
        e.encodable(),
        e.encode().len() <= ceiling,
        e.encode().len() <= u64::MAX,
    ensures
        spec_decode(spec_frame(e), ceiling) == Ok::<(EnvelopeView, nat), Error>(
            (e, spec_frame(e).len()),
        ),
{
    lemma_frame_decodes(e, Seq::empty(), ceiling);
    assert(spec_frame(e) + Seq::<u8>::empty() =~= spec_frame(e));
}

/// Length-prefix integrity: a stream that holds exactly one frame yields
/// its envelope, and what is left after the frame reads as a closed
/// connection, not as a malformed frame.
pub proof fn one_frame_then_closed(e: EnvelopeView, ceiling: nat)
    requires
        e.encodable(),
        e.encode().len() <= ceiling,
        e.encode().len() <= u64::MAX,
    ensures
        spec_decode(spec_frame(e), ceiling) == Ok::<(EnvelopeView, nat), Error>(
            (e, spec_frame(e).len()),
        ),
        spec_decode(spec_frame(e).skip(spec_frame(e).len() as int), ceiling) == Err::<
            (EnvelopeView, nat),
            Error,
        >(Error::Transport(TransportError::ConnectionClosed)),
{
    decode_inverts_encode(e, ceiling);
    let left = spec_frame(e).skip(spec_frame(e).len() as int);
    assert(left =~= Seq::<u8>::empty());
}

/// Oversized frames: a prefix that states a length above the ceiling is
/// refused as oversized, whatever follows it and however little of the
/// body has arrived, and reading stops behind the prefix: no byte of the
/// body is read.
pub proof fn oversized_frame_is_refused(bytes: Seq<u8>, ceiling: nat)
    requires
        spec_decode_varint(bytes) is Some,
        spec_decode_varint(bytes)->Some_0.0 > ceiling,
    ensures
        spec_decode(bytes, ceiling) == Err::<(EnvelopeView, nat), Error>(
            Error::Framing(FramingError::OversizedFrame),
        ),
        spec_taken(bytes, ceiling) == spec_decode_varint(bytes)->Some_0.1,
{
}

} // verus!
