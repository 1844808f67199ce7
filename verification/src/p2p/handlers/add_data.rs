//! The handler of published entries: no entry is accepted unless its
//! signature verifies under the key that claims to own it.

use crate::builders::add_data::{entry_verifies, verify_entry};
use crate::error::{CryptoError, Error, ProtocolError};
use crate::messages::envelope::{Envelope, EnvelopeView, Payload, PayloadView};
use crate::messages::storage::StorageEntryWrapper;
use crate::p2p::context::PeerContext;
use crate::p2p::router::P2PMessageHandler;
use vstd::prelude::*;

verus! {

/// Takes published entries in.
#[derive(Clone, Copy, Debug, PartialEq, Eq, Structural)]
pub struct AddDataMessageHandler;

/// What the handler says of an envelope: it accepts a published entry
/// whose signature verifies, refuses one whose signature does not, and
/// refuses every other kind of payload as unexpected.
pub open spec fn spec_accept(envelope: EnvelopeView) -> Result<(), Error> {
    match envelope.payload {
        PayloadView::AddDataMessage(message) => if entry_verifies(message.entry.entry()) {
            Ok(())
        } else {
            Err(Error::Crypto(CryptoError::VerifyFailure))
        },
        _ => Err(Error::Protocol(ProtocolError::UnexpectedPayloadKind)),
    }
}

impl AddDataMessageHandler {
    /// Checks an envelope that is to be taken into the store.
    pub fn accept(&self, envelope: &Envelope) -> (accepted: Result<(), Error>)
        ensures
            accepted == spec_accept(envelope@),
    {
        match &envelope.payload {
            Payload::AddDataMessage(message) => match &message.entry {
                StorageEntryWrapper::ProtectedStorageEntry(entry) => if verify_entry(entry) {
                    Ok(())
                } else {
                    Err(Error::Crypto(CryptoError::VerifyFailure))
                },
            },
            _ => Err(Error::Protocol(ProtocolError::UnexpectedPayloadKind)),
        }
    }
}

impl<S> P2PMessageHandler<S> for AddDataMessageHandler {
    fn handle(&self, ctx: PeerContext<S>) -> (handled: Result<(), Error>)
        ensures
            handled == spec_accept(ctx.envelope@),
    {
        self.accept(&ctx.envelope)
    }
}

} // verus!
