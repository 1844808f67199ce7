//! Length-delimited framing: a varint that states the length of the body,
//! then the body, which is the canonical form of one envelope.

use crate::error::{Error, FramingError, ProtocolError, TransportError};
use crate::messages::envelope::{Envelope, EnvelopeView};
use crate::utils::network::stream::{ReadEvent, ReadEventView};
use crate::varint::{
    decode_varint, lemma_decode_ends_at_first_low_byte, spec_decode_varint, spec_encode_varint,
};
use vstd::prelude::*;

verus! {

/// The most bytes a length prefix can have.
pub const MAX_PREFIX_LEN: usize = 10;

/// The frame of an envelope.
pub open spec fn spec_frame(e: EnvelopeView) -> Seq<u8> {
    spec_encode_varint(e.encode().len()) + e.encode()
}

/// Every byte has its top bit set: a length prefix that has not ended.
pub open spec fn all_continue(bytes: Seq<u8>) -> bool {
    forall|i: int| 0 <= i < bytes.len() ==> bytes[i] >= 128
}

/// What reading one frame from a stream yields when `bytes` is all the
/// stream still holds: the envelope and the number of bytes it took, or
/// the reason why there is none.
///
/// A stream that ends inside the prefix or the body is closed; a prefix
/// that ten bytes do not end or whose value exceeds 64 bits, and a body
/// that is no envelope, are malformed; a length above `ceiling` is
/// oversized, whatever follows it.
pub open spec fn spec_decode(bytes: Seq<u8>, ceiling: nat) -> Result<(EnvelopeView, nat), Error> {
    match spec_decode_varint(bytes) {
        None => if bytes.len() < MAX_PREFIX_LEN && all_continue(bytes) {
            Err(Error::Transport(TransportError::ConnectionClosed))
        } else {
            Err(Error::Framing(FramingError::Malformed))
        },
        Some((len, n)) => if len > ceiling {
            Err(Error::Framing(FramingError::OversizedFrame))
        } else if bytes.len() - n < len {
            Err(Error::Transport(TransportError::ConnectionClosed))
        } else {
            match EnvelopeView::parse(bytes.subrange(n as int, (n + len) as int)) {
                Some(e) => Ok((e, n + len)),
                None => Err(Error::Framing(FramingError::Malformed)),
            }
        },
    }
}

/// How many bytes reading one frame takes from a stream that still holds
/// `bytes`, whether it ends in an envelope or not.
///
/// A stream that ends inside the prefix or the body is read to its end. A
/// prefix that is malformed costs its ten bytes, and an oversized frame
/// its prefix and nothing of what follows. Otherwise the whole frame is
/// read, also where its body is no envelope.
pub open spec fn spec_taken(bytes: Seq<u8>, ceiling: nat) -> nat {
    match spec_decode_varint(bytes) {
        None => if bytes.len() < MAX_PREFIX_LEN && all_continue(bytes) {
            bytes.len()
        } else {
            MAX_PREFIX_LEN as nat
        },
        Some((len, n)) => if len > ceiling {
            n
        } else if bytes.len() - n < len {
            bytes.len()
        } else {
            n + len
        },
    }
}

/// What a decoder says after an event.
#[derive(Debug, PartialEq, Eq)]
pub enum DecodeStep {
    /// More bytes are needed: read as many as `wanted` says.
    Continue,
    /// The frame is complete and holds this envelope.
    Ready(Envelope),
    /// No envelope will come of this frame.
    Failed(Error),
}

/// What a [`DecodeStep`] holds.
pub ghost enum DecodeStepView {
    Continue,
    Ready(EnvelopeView),
    Failed(Error),
}

impl View for DecodeStep {
    type V = DecodeStepView;

    open spec fn view(&self) -> DecodeStepView {
        match self {
            DecodeStep::Continue => DecodeStepView::Continue,
            DecodeStep::Ready(e) => DecodeStepView::Ready(e@),
            DecodeStep::Failed(err) => DecodeStepView::Failed(*err),
        }
    }
}

/// Reads one frame from a transport that it does not own: it says how
/// many bytes to read next and takes what the read gave.
///
/// The prefix is read one byte at a time; the body is asked for in one
/// piece, and only once its length is known not to exceed `ceiling`.
#[derive(Debug)]
pub struct FrameDecoder {
    pub ceiling: usize,
    pub prefix: Vec<u8>,
    pub body_len: Option<usize>,
    pub done: bool,
}

/// What a [`FrameDecoder`] holds.
pub ghost struct FrameDecoderView {
    pub ceiling: nat,
    pub prefix: Seq<u8>,
    pub body_len: Option<nat>,
    pub done: bool,
}

impl View for FrameDecoder {
    type V = FrameDecoderView;

    open spec fn view(&self) -> FrameDecoderView {
        FrameDecoderView {
            ceiling: self.ceiling as nat,
            prefix: self.prefix@,
            body_len: match self.body_len {
                Some(len) => Some(len as nat),
                None => None,
            },
            done: self.done,
        }
    }
}

impl FrameDecoderView {
    /// Until the decoder is done, the prefix read so far has not ended, or
    /// it states the length of the body that is awaited.
    pub open spec fn wf(self) -> bool {
        self.done || match self.body_len {
            None => self.prefix.len() < MAX_PREFIX_LEN && all_continue(self.prefix),
            Some(len) => len <= self.ceiling && spec_decode_varint(self.prefix) == Some(
                (len, self.prefix.len()),
            ),
        }
    }

    /// The number of bytes the next read must deliver.
    pub open spec fn wanted(self) -> nat {
        if self.done {
            0
        } else {
            match self.body_len {
                None => 1,
                Some(len) => len,
            }
        }
    }

    /// The decoder once it is done.
    pub open spec fn finished(self) -> FrameDecoderView {
        FrameDecoderView { done: true, ..self }
    }

    /// The decoder after an event, and what it says.
    pub open spec fn advance(self, event: ReadEventView) -> (FrameDecoderView, DecodeStepView) {
        if self.done {
            (self, DecodeStepView::Failed(Error::Protocol(ProtocolError::HandshakeOutOfOrder)))
        } else {
            match event {
                ReadEventView::TimedOut => (
                    self.finished(),
                    DecodeStepView::Failed(Error::Transport(TransportError::Timeout)),
                ),
                ReadEventView::Closed => (
                    self.finished(),
                    DecodeStepView::Failed(Error::Transport(TransportError::ConnectionClosed)),
                ),
                ReadEventView::Data(data) => if data.len() != self.wanted() {
                    (
                        self.finished(),
                        DecodeStepView::Failed(Error::Transport(TransportError::ConnectionClosed)),
                    )
                } else if self.body_len is Some {
                    match EnvelopeView::parse(data) {
                        Some(e) => (self.finished(), DecodeStepView::Ready(e)),
                        None => (
                            self.finished(),
                            DecodeStepView::Failed(Error::Framing(FramingError::Malformed)),
                        ),
                    }
                } else {
                    self.prefix_byte(data[0])
                },
            }
        }
    }

    /// The decoder after one more byte of the prefix.
    pub open spec fn prefix_byte(self, byte: u8) -> (FrameDecoderView, DecodeStepView) {
        let prefix = self.prefix.push(byte);
        if byte >= 128 {
            if prefix.len() >= MAX_PREFIX_LEN {
                (
                    FrameDecoderView { prefix, done: true, ..self },
                    DecodeStepView::Failed(Error::Framing(FramingError::Malformed)),
                )
            } else {
                (FrameDecoderView { prefix, ..self }, DecodeStepView::Continue)
            }
        } else {
            match spec_decode_varint(prefix) {
                None => (
                    FrameDecoderView { prefix, done: true, ..self },
                    DecodeStepView::Failed(Error::Framing(FramingError::Malformed)),
                ),
                Some((len, _)) => if len > self.ceiling {
                    (
                        FrameDecoderView { prefix, done: true, ..self },
                        DecodeStepView::Failed(Error::Framing(FramingError::OversizedFrame)),
                    )
                } else {
                    (FrameDecoderView { prefix, body_len: Some(len), ..self }, DecodeStepView::Continue)
                },
            }
        }
    }
}

/// A decoder never asks for a read of more bytes than its ceiling, or than
/// the one byte by which it reads the prefix: the length that a peer states
/// is compared with the ceiling before any buffer is sized by it.
pub proof fn decoder_reads_within_ceiling(decoder: FrameDecoderView, event: ReadEventView)
    requires
        decoder.wf(),
    ensures
        decoder.wanted() <= decoder.ceiling || decoder.wanted() == 1,
        decoder.advance(event).0.wf(),
        decoder.advance(event).0.wanted() <= decoder.ceiling || decoder.advance(event).0.wanted()
            == 1,
{
    if !decoder.done && decoder.body_len is None {
        if let ReadEventView::Data(data) = event {
            if data.len() == 1 && data[0] < 128 {
                let prefix = decoder.prefix.push(data[0]);
                if spec_decode_varint(prefix) is Some {
                    lemma_decode_ends_at_first_low_byte(prefix, 0);
                    assert forall|i: int| 0 <= i < prefix.len() - 1 implies prefix[i] >= 128 by {
                        assert(prefix[i] == decoder.prefix[i]);
                    }
                }
            }
        }
    }
}

impl FrameDecoder {
    /// A decoder that accepts bodies of at most `ceiling` bytes.
    pub fn new(ceiling: usize) -> (decoder: FrameDecoder)
        ensures
            decoder@.wf(),
            decoder@ == (FrameDecoderView {
                ceiling: ceiling as nat,
                prefix: Seq::empty(),
                body_len: None,
                done: false,
            }),
    {
        FrameDecoder { ceiling, prefix: Vec::new(), body_len: None, done: false }
    }

    /// The number of bytes the next read must deliver.
    pub fn wanted(&self) -> (count: usize)
        ensures
            count == self@.wanted(),
    {
        if self.done {
            0
        } else {
            match self.body_len {
                None => 1,
                Some(len) => len,
            }
        }
    }

    /// Takes what the last read gave and says how to go on.
    pub fn advance(&mut self, event: ReadEvent) -> (step: DecodeStep)
        requires
            old(self)@.wf(),
        ensures
            final(self)@.wf(),
            (final(self)@, step@) == old(self)@.advance(event@),
    {
        if self.done {
            return DecodeStep::Failed(Error::Protocol(ProtocolError::HandshakeOutOfOrder));
        }
        let data = match event {
            ReadEvent::TimedOut => {
                self.done = true;
                return DecodeStep::Failed(Error::Transport(TransportError::Timeout));
            },
            ReadEvent::Closed => {
                self.done = true;
                return DecodeStep::Failed(Error::Transport(TransportError::ConnectionClosed));
            },
            ReadEvent::Data(data) => data,
        };
        if data.len() != self.wanted() {
            self.done = true;
            return DecodeStep::Failed(Error::Transport(TransportError::ConnectionClosed));
        }
        if self.body_len.is_some() {
            self.done = true;
            return match Envelope::from_bytes(data.as_slice()) {
                Some(e) => DecodeStep::Ready(e),
                None => DecodeStep::Failed(Error::Framing(FramingError::Malformed)),
            };
        }
        let byte: u8 = data[0];
        self.prefix.push(byte);
        if byte >= 128 {
            if self.prefix.len() >= MAX_PREFIX_LEN {
                self.done = true;
                return DecodeStep::Failed(Error::Framing(FramingError::Malformed));
            }
            return DecodeStep::Continue;
        }
        assert(self.prefix@.skip(0) =~= self.prefix@);
        match decode_varint(self.prefix.as_slice(), 0) {
            None => {
                self.done = true;
                DecodeStep::Failed(Error::Framing(FramingError::Malformed))
            },
            Some((len, end)) => {
                proof {
                    lemma_decode_ends_at_first_low_byte(self.prefix@, 0);
                }
                if len > self.ceiling as u64 {
                    self.done = true;
                    DecodeStep::Failed(Error::Framing(FramingError::OversizedFrame))
                } else {
                    self.body_len = Some(len as usize);
                    DecodeStep::Continue
                }
            },
        }
    }
}

} // verus!
