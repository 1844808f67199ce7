//! What a handler is given: the connection and the envelope that arrived
//! on it.

use crate::messages::envelope::Envelope;
use vstd::prelude::*;

verus! {

/// A received envelope together with the connection it came on. Whoever
/// holds the context owns the connection and may answer on it.
#[derive(Debug)]
pub struct PeerContext<S> {
    pub stream: S,
    pub envelope: Envelope,
}

} // verus!
