//! The error taxonomy shared by every component of the protocol engine.

use vstd::prelude::*;

verus! {

/// Failures of the underlying byte transport.
#[derive(Clone, Copy, Debug, PartialEq, Eq, Structural)]
pub enum TransportError {
    /// A single read or write stalled past its deadline.
    Timeout,
    /// The peer closed the stream before the expected bytes arrived.
    ConnectionClosed,
}

/// Failures of the length-delimited framing layer.
#[derive(Clone, Copy, Debug, PartialEq, Eq, Structural)]
pub enum FramingError {
    /// The bytes do not form a well-formed length prefix or envelope.
    Malformed,
    /// The declared body length exceeds the configured ceiling.
    OversizedFrame,
}

/// Violations of the handshake protocol by the peer or the caller.
#[derive(Clone, Copy, Debug, PartialEq, Eq, Structural)]
pub enum ProtocolError {
    /// A payload of a kind other than the expected one arrived.
    UnexpectedPayloadKind,
    /// A response does not carry the nonce of the outstanding request.
    NonceMismatch,
    /// An event arrived that the current session state does not admit.
    HandshakeOutOfOrder,
}

/// Failures of key handling, signing and signature checking.
#[derive(Clone, Copy, Debug, PartialEq, Eq, Structural)]
pub enum CryptoError {
    /// The configured secret is not a usable signing key.
    KeyLoad,
    /// The signing primitive did not produce a signature.
    SignFailure,
    /// A signature does not verify under the stated owner key.
    VerifyFailure,
}

/// Any failure the protocol core can report.
#[derive(Clone, Copy, Debug, PartialEq, Eq, Structural)]
pub enum Error {
    Transport(TransportError),
    Framing(FramingError),
    Protocol(ProtocolError),
    Crypto(CryptoError),
}

impl Error {
    /// Transport and framing failures end the connection at once; they are
    /// never retried within the same attempt.
    pub open spec fn spec_is_connection_fatal(self) -> bool {
        self is Transport || self is Framing
    }

    /// Whether the error ends the connection it occurred on.
    #[verifier::when_used_as_spec(spec_is_connection_fatal)]
    pub fn is_connection_fatal(self) -> (fatal: bool)
        ensures
            fatal == self.spec_is_connection_fatal(),
    {
        match self {
            Error::Transport(_) => true,
            Error::Framing(_) => true,
            _ => false,
        }
    }
}

} // verus!
