//! What the listener does with one accepted connection.

use crate::error::Error;
use crate::messages::envelope::EnvelopeView;
use crate::p2p::context::PeerContext;
use crate::p2p::router::{handled_by, Dispatch, P2PMessageHandler, P2PMessageRouter};
use crate::utils::network::envelope::recv_envelope;
use crate::utils::network::framing::spec_decode;
use crate::utils::network::stream::ByteStream;
use vstd::prelude::*;

verus! {

/// The port the node listens on unless it is configured otherwise.
pub const DEFAULT_PORT: u16 = 3333;

/// The largest body the node accepts unless it is configured otherwise.
pub const DEFAULT_MAX_BODY_LEN: usize = 0x100_0000;

/// Whether `ctx` is what a handler is handed for a connection on which
/// `envelope` arrived in a frame of `taken` bytes: that envelope, and the
/// connection with the same bytes, standing behind the frame.
pub open spec fn handed_over(
    stream: ByteStream,
    envelope: EnvelopeView,
    taken: nat,
    ctx: PeerContext<ByteStream>,
) -> bool {
    &&& ctx.envelope@ == envelope
    &&& ctx.stream.incoming@ == stream.incoming@
    &&& ctx.stream.outgoing@ == stream.outgoing@
    &&& ctx.stream.position == stream.position + taken
}

/// Where the node listens and how large a frame it accepts.
#[derive(Clone, Copy, Debug, PartialEq, Eq, Structural)]
pub struct P2PListener {
    pub port: u16,
    pub max_body_len: usize,
}

impl P2PListener {
    /// A listener on `port` that accepts bodies up to the default size.
    pub fn new(port: u16) -> (listener: P2PListener)
        ensures
            listener == (P2PListener { port, max_body_len: DEFAULT_MAX_BODY_LEN }),
    {
        P2PListener { port, max_body_len: DEFAULT_MAX_BODY_LEN }
    }

    /// Serves one accepted connection: reads exactly one frame and hands
    /// the connection, standing behind that frame, with the envelope to
    /// the handler registered for the envelope's kind, and reports what
    /// that handler reported. A connection whose first frame cannot be
    /// read is dropped with the reason, and no handler is called; what is
    /// read after the first frame is up to the handler.
    pub fn serve<H: P2PMessageHandler<ByteStream>>(
        &self,
        router: &P2PMessageRouter<H>,
        stream: ByteStream,
    ) -> (served: Result<Dispatch, Error>)
        requires
            router.wf(),
            stream.wf(),
        ensures
            match spec_decode(stream.remaining(), self.max_body_len as nat) {
                Err(reason) => served == Err::<Dispatch, Error>(reason),
                Ok((envelope, taken)) => if router@.contains_key(
                    envelope.payload.kind().spec_name(),
                ) {
                    exists|ctx: PeerContext<ByteStream>|
                        {
                            &&& handed_over(stream, envelope, taken, ctx)
                            &&& #[trigger] handled_by(
                                &router@[envelope.payload.kind().spec_name()],
                                ctx,
                                served,
                            )
                        }
                } else {
                    served == Ok::<Dispatch, Error>(Dispatch::Unhandled(envelope.payload.kind()))
                },
            },
    {
        let mut stream = stream;
        match recv_envelope(&mut stream, self.max_body_len) {
            Ok(envelope) => {
                let ctx = PeerContext { stream, envelope };
                router.dispatch(ctx)
            },
            Err(reason) => Err(reason),
        }
    }
}

} // verus!
