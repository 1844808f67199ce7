//! The registry of message handlers and the dispatch of envelopes to
//! them.
//!
//! Handlers are registered under the name of a payload kind. An envelope
//! goes to the handler whose name is exactly the name of its kind, and to
//! no other.

use crate::error::Error;
use crate::messages::envelope::{Envelope, MessageKind};
use crate::p2p::context::PeerContext;
use vstd::prelude::*;

verus! {

/// What handles the envelopes of one kind. The handler takes over the
/// connection and reports its failures in the core's own terms.
pub trait P2PMessageHandler<S> {
    fn handle(&self, ctx: PeerContext<S>) -> (handled: Result<(), Error>);
}

/// What became of an envelope.
#[derive(Clone, Copy, Debug, PartialEq, Eq, Structural)]
pub enum Dispatch {
    /// A handler took the envelope and reported no failure.
    Handled,
    /// No handler is registered for envelopes of this kind; the envelope
    /// was dropped.
    Unhandled(MessageKind),
}

/// What a dispatch reports after the handler has run.
pub fn dispatch_result(handled: Result<(), Error>) -> (dispatched: Result<Dispatch, Error>)
    ensures
        dispatched == match handled {
            Ok(_) => Ok::<Dispatch, Error>(Dispatch::Handled),
            Err(reason) => Err::<Dispatch, Error>(reason),
        },
{
    match handled {
        Ok(_) => Ok(Dispatch::Handled),
        Err(reason) => Err(reason),
    }
}

/// Whether `dispatched` is what a dispatch reports after `handler` was
/// handed `ctx`: `Handled` where the handler's own contract lets it
/// succeed on this context, and the handler's failure where it lets it
/// fail with that reason.
pub open spec fn handled_by<S, H: P2PMessageHandler<S>>(
    handler: &H,
    ctx: PeerContext<S>,
    dispatched: Result<Dispatch, Error>,
) -> bool {
    match dispatched {
        Ok(Dispatch::Handled) => call_ensures(H::handle, (handler, ctx), Ok::<(), Error>(())),
        Ok(Dispatch::Unhandled(_)) => false,
        Err(reason) => call_ensures(H::handle, (handler, ctx), Err::<(), Error>(reason)),
    }
}

/// Handlers by name.
pub struct P2PMessageRouter<H> {
    names: Vec<String>,
    handlers: Vec<H>,
}

impl<H> View for P2PMessageRouter<H> {
    type V = Map<Seq<char>, H>;

    /// The handlers by the names they are registered under.
    closed spec fn view(&self) -> Map<Seq<char>, H> {
        Map::new(|name: Seq<char>| self.has(name), |name: Seq<char>| self.handler(name))
    }
}

impl<H> P2PMessageRouter<H> {
    /// Every name has its handler, and no name occurs twice.
    pub closed spec fn wf(&self) -> bool {
        &&& self.names@.len() == self.handlers@.len()
        &&& forall|i: int, j: int|
            0 <= i < j < self.names@.len() ==> self.names@[i]@ != self.names@[j]@
    }

    spec fn has(&self, name: Seq<char>) -> bool {
        exists|i: int| 0 <= i < self.names@.len() && #[trigger] self.names@[i]@ == name
    }

    spec fn handler(&self, name: Seq<char>) -> H {
        let at = choose|i: int| 0 <= i < self.names@.len() && #[trigger] self.names@[i]@ == name;
        self.handlers@[at]
    }

    /// A router without handlers.
    pub fn new() -> (router: P2PMessageRouter<H>)
        ensures
            router.wf(),
            router@ == Map::<Seq<char>, H>::empty(),
    {
        let router = P2PMessageRouter { names: Vec::new(), handlers: Vec::new() };
        assert(router@ =~= Map::<Seq<char>, H>::empty());
        router
    }

    fn position(&self, name: &str) -> (found: Option<usize>)
        requires
            self.wf(),
        ensures
            match found {
                Some(i) => i < self.names@.len() && self.names@[i as int]@ == name@
                    && self.has(name@) && self.handler(name@) == self.handlers@[i as int],
                None => !self.has(name@),
            },
    {
        let wanted = name.to_owned();
        let mut i: usize = 0;
        while i < self.names.len()
            invariant
                i <= self.names@.len(),
                self.wf(),
                wanted@ == name@,
                forall|j: int| 0 <= j < i ==> self.names@[j]@ != name@,
            decreases self.names@.len() - i,
        {
            if self.names[i] == wanted {
                return Some(i);
            }
            i += 1;
        }
        None
    }

    /// Installs `handler` under `message_type`, in place of the handler
    /// that was registered under that name, if there was one. The
    /// handlers under all other names stay.
    pub fn register(&mut self, message_type: &str, handler: H)
        requires
            old(self).wf(),
        ensures
            final(self).wf(),
            final(self)@ == old(self)@.insert(message_type@, handler),
    {
        match self.position(message_type) {
            Some(i) => {
                self.handlers[i] = handler;
                proof {
                    assert(self.names@[i as int]@ == message_type@);
                    assert(self.handler(message_type@) == handler);
                    assert forall|name: Seq<char>| name != message_type@ && old(self).has(
                        name,
                    ) implies self.handler(name) == old(self).handler(name) by {
                        let k = choose|k: int|
                            0 <= k < self.names@.len() && #[trigger] self.names@[k]@ == name;
                        assert(k != i);
                    }
                }
            },
            None => {
                self.names.push(message_type.to_owned());
                self.handlers.push(handler);
                proof {
                    let last = old(self).names@.len() as int;
                    assert(self.names@[last]@ == message_type@);
                    assert(self.handler(message_type@) == handler) by {
                        let k = choose|k: int|
                            0 <= k < self.names@.len() && #[trigger] self.names@[k]@
                                == message_type@;
                        if k != last {
                            assert(old(self).names@[k]@ == message_type@);
                        }
                    }
                    assert forall|name: Seq<char>| name != message_type@ implies self.has(name)
                        == old(self).has(name) && (old(self).has(name) ==> self.handler(name)
                        == old(self).handler(name)) by {
                        if old(self).has(name) {
                            let k = choose|k: int|
                                0 <= k < old(self).names@.len() && #[trigger] old(
                                    self,
                                ).names@[k]@ == name;
                            assert(self.names@[k]@ == name);
                            let k2 = choose|k: int|
                                0 <= k < self.names@.len() && #[trigger] self.names@[k]@ == name;
                            assert(k2 == k);
                        }
                        if self.has(name) {
                            let k = choose|k: int|
                                0 <= k < self.names@.len() && #[trigger] self.names@[k]@ == name;
                            assert(k != last);
                            assert(old(self).names@[k]@ == name);
                        }
                    }
                }
            },
        }
        assert(self@ =~= old(self)@.insert(message_type@, handler));
    }

    /// The handler that an envelope goes to: the one registered under the
    /// name of the envelope's kind, if there is one.
    pub fn route(&self, envelope: &Envelope) -> (found: Option<&H>)
        requires
            self.wf(),
        ensures
            match found {
                Some(handler) => self@.contains_key(envelope@.payload.kind().spec_name())
                    && *handler == self@[envelope@.payload.kind().spec_name()],
                None => !self@.contains_key(envelope@.payload.kind().spec_name()),
            },
    {
        match self.position(envelope.payload.kind().name()) {
            Some(i) => Some(&self.handlers[i]),
            None => None,
        }
    }

    /// Hands the context to the handler registered under the exact name
    /// of the kind of its envelope, and to no other, and reports what that
    /// handler reported. Where there is no such handler, the envelope is
    /// dropped and the dispatch says so.
    pub fn dispatch<S>(&self, ctx: PeerContext<S>) -> (dispatched: Result<Dispatch, Error>) where
        H: P2PMessageHandler<S>,

        requires
            self.wf(),
        ensures
            if self@.contains_key(ctx.envelope@.payload.kind().spec_name()) {
                handled_by(&self@[ctx.envelope@.payload.kind().spec_name()], ctx, dispatched)
            } else {
                dispatched == Ok::<Dispatch, Error>(
                    Dispatch::Unhandled(ctx.envelope@.payload.kind()),
                )
            },
    {
        let kind = ctx.envelope.payload.kind();
        match self.route(&ctx.envelope) {
            Some(handler) => {
                let handled = handler.handle(ctx);
                proof {
                    if let Ok(unit) = handled {
                        assert(unit == ());
                        assert(handled == Ok::<(), Error>(unit));
                    }
                }
                dispatch_result(handled)
            },
            None => Ok(Dispatch::Unhandled(kind)),
        }
    }
}

} // verus!
