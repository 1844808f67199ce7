//! The client side of the bootstrap handshake as a state machine.
//!
//! The session owns no transport. It says what to do next (connect, send,
//! receive, seal the entry) and takes the outcome of that action as the
//! next event; whoever drives it performs the actions on a real
//! connection.

use crate::builders::add_data::{
    build_add_data_message_at, entry_verifies, sealed_message, spec_payload_signature,
};
use crate::codec::{bytes_list_view, copy_byte_strings};
use crate::crypto::ecdsa::{spec_public_key, SigningKey};
use crate::error::{CryptoError, Error, ProtocolError, TransportError};
use crate::messages::envelope::{Envelope, EnvelopeView, Payload, PayloadView};
use crate::messages::requests::{PreliminaryGetDataRequest, PreliminaryGetDataRequestView};
use crate::messages::storage::StoragePayload;
use crate::utils::clock::now_millis;
use crate::utils::config::Config;
use crate::utils::network::ack::{ack_for, build_ack_with_uid};
use crate::utils::network::envelope::{build_envelope_with_version, recv_envelope, send_envelope};
use crate::utils::network::framing::{spec_decode, spec_frame};
use crate::utils::network::stream::ByteStream;
use crate::utils::network::updated_data::{build_get_updated_data, updated_data_request_for};
use crate::utils::signing::{configured_secret, load_signing_key};
use vstd::prelude::*;

verus! {

/// Where a session stands.
#[derive(Clone, Copy, Debug, PartialEq, Eq, Structural)]
pub enum SessionState {
    /// No connection yet; a connection attempt is under way.
    Disconnected,
    /// Connected; the first request is being sent.
    Connected,
    /// The first request is out; its answer is awaited.
    AwaitingDataResponse,
    /// The answer has arrived and carries the nonce of the request.
    DataReceived,
    /// The request for an update is out; the acknowledgement is being sent.
    UpdateRequested,
    /// The acknowledgement is out.
    Acknowledged,
    /// The signed entry is being sent.
    Publishing,
    /// The entry is out: the session has completed.
    Done,
    /// The session has failed and will do nothing more.
    Failed,
}

/// What a session is to do, fixed when it is created. A new attempt after
/// a failure is a new session with a new plan and new nonces.
#[derive(Debug)]
pub struct BootstrapPlan {
    /// The node's configuration: its address and the versions it states.
    pub config: Config,
    /// The nonce of the first request.
    pub request_nonce: i32,
    /// The capabilities this node declares.
    pub capabilities: Vec<i32>,
    /// The keys of the entries this node holds already.
    pub excluded_keys: Vec<Vec<u8>>,
    /// Whether to ask for an update and acknowledge before publishing.
    pub request_update: bool,
    /// The nonce of the request for an update.
    pub update_nonce: i32,
    /// The identifier of the acknowledgement.
    pub ack_uid: String,
    /// What to publish.
    pub payload: StoragePayload,
    /// The sequence number of the entry to publish.
    pub sequence_number: u32,
    /// How often to try to connect before giving up; at least once.
    pub max_connect_attempts: u32,
    /// The pause before the second attempt; it doubles with every further
    /// one.
    pub retry_delay_ms: u64,
}

/// The outcome of the action that the session asked for last.
#[derive(Debug)]
pub enum SessionEvent {
    ConnectSucceeded,
    ConnectFailed,
    /// The envelope handed out for sending has been written.
    Sent,
    /// A frame has arrived and holds this envelope.
    Received(Envelope),
    /// Sending or receiving failed.
    Failed(Error),
    /// The time allowed for the whole session has run out.
    DeadlineExpired,
}

/// What a [`SessionEvent`] holds.
pub ghost enum SessionEventView {
    ConnectSucceeded,
    ConnectFailed,
    Sent,
    Received(EnvelopeView),
    Failed(Error),
    DeadlineExpired,
}

impl View for SessionEvent {
    type V = SessionEventView;

    open spec fn view(&self) -> SessionEventView {
        match self {
            SessionEvent::ConnectSucceeded => SessionEventView::ConnectSucceeded,
            SessionEvent::ConnectFailed => SessionEventView::ConnectFailed,
            SessionEvent::Sent => SessionEventView::Sent,
            SessionEvent::Received(e) => SessionEventView::Received(e@),
            SessionEvent::Failed(err) => SessionEventView::Failed(*err),
            SessionEvent::DeadlineExpired => SessionEventView::DeadlineExpired,
        }
    }
}

/// What the driver of a session is to do next.
#[derive(Debug)]
pub enum SessionAction {
    /// Wait for so many milliseconds, then open the connection.
    Connect { delay_ms: u64 },
    /// Write the frame of this envelope.
    Send(Envelope),
    /// Read the next frame.
    Receive,
    /// Read the clock and call `seal`.
    Seal,
    /// Release the connection: the session has completed.
    Finish,
    /// Release the connection: the session has failed for this reason.
    Abort(Error),
}

/// What a [`SessionAction`] holds.
pub ghost enum SessionActionView {
    Connect { delay_ms: u64 },
    Send(EnvelopeView),
    Receive,
    Seal,
    Finish,
    Abort(Error),
}

impl View for SessionAction {
    type V = SessionActionView;

    open spec fn view(&self) -> SessionActionView {
        match self {
            SessionAction::Connect { delay_ms } => SessionActionView::Connect {
                delay_ms: *delay_ms,
            },
            SessionAction::Send(e) => SessionActionView::Send(e@),
            SessionAction::Receive => SessionActionView::Receive,
            SessionAction::Seal => SessionActionView::Seal,
            SessionAction::Finish => SessionActionView::Finish,
            SessionAction::Abort(err) => SessionActionView::Abort(*err),
        }
    }
}

/// The progress of a session.
pub ghost struct Progress {
    pub state: SessionState,
    /// The connection attempts made so far, the one under way included.
    pub attempts: u32,
    /// Why the session failed, once it has.
    pub failure: Option<Error>,
}

/// The pause before connection attempt number `attempt + 1`: the
/// configured delay, doubled for every attempt after the first, and no
/// more than 64 bits hold.
pub open spec fn retry_delay(base_ms: u64, attempt: u32) -> u64
    decreases attempt,
{
    if attempt <= 1 {
        base_ms
    } else {
        let before = retry_delay(base_ms, (attempt - 1) as u32);
        if before > u64::MAX / 2 {
            u64::MAX
        } else {
            (2 * before) as u64
        }
    }
}

/// The envelope of the first request.
pub open spec fn request_envelope(plan: BootstrapPlan) -> EnvelopeView {
    EnvelopeView {
        protocol_version: plan.config.p2p_version@,
        payload: PayloadView::PreliminaryGetDataRequest(
            PreliminaryGetDataRequestView {
                nonce: plan.request_nonce,
                excluded_keys: bytes_list_view(plan.excluded_keys@),
                version: plan.config.version@,
                supported_capabilities: plan.capabilities@,
            },
        ),
    }
}

/// The envelope of the request for an update.
pub open spec fn update_envelope(plan: BootstrapPlan) -> EnvelopeView {
    EnvelopeView {
        protocol_version: plan.config.p2p_version@,
        payload: PayloadView::GetUpdatedDataRequest(
            updated_data_request_for(
                plan.config,
                plan.update_nonce,
                bytes_list_view(plan.excluded_keys@),
            ),
        ),
    }
}

/// The envelope of the acknowledgement.
pub open spec fn ack_envelope(plan: BootstrapPlan) -> EnvelopeView {
    EnvelopeView {
        protocol_version: plan.config.p2p_version@,
        payload: PayloadView::AckMessage(ack_for(plan.config, plan.ack_uid@)),
    }
}

/// The envelope that publishes the plan's payload, sealed with
/// `signature` at `now_ms`.
pub open spec fn publish_envelope(
    plan: BootstrapPlan,
    public_key: Seq<u8>,
    signature: Seq<u8>,
    now_ms: i64,
) -> EnvelopeView {
    EnvelopeView {
        protocol_version: plan.config.p2p_version@,
        payload: PayloadView::AddDataMessage(
            sealed_message(plan.payload@, public_key, plan.sequence_number, signature, now_ms),
        ),
    }
}

impl Progress {
    /// The session has completed or failed.
    pub open spec fn terminal(self) -> bool {
        self.state == SessionState::Done || self.state == SessionState::Failed
    }

    /// The session failed for this reason.
    pub open spec fn fail(self, reason: Error) -> (Progress, SessionActionView) {
        (
            Progress { state: SessionState::Failed, failure: Some(reason), ..self },
            SessionActionView::Abort(reason),
        )
    }

    /// The session in another state, asking for `action`.
    pub open spec fn to(self, state: SessionState, action: SessionActionView) -> (
        Progress,
        SessionActionView,
    ) {
        (Progress { state, ..self }, action)
    }

    /// What a session that has ended says to whatever comes.
    pub open spec fn rest(self) -> (Progress, SessionActionView) {
        if self.state == SessionState::Done {
            (self, SessionActionView::Finish)
        } else {
            (
                self,
                SessionActionView::Abort(
                    match self.failure {
                        Some(reason) => reason,
                        None => Error::Protocol(ProtocolError::HandshakeOutOfOrder),
                    },
                ),
            )
        }
    }

    /// The session after an event, and what it asks for next.
    ///
    /// A failure of the transport and the end of the time allowed end the
    /// session at once, whatever its state. A connection that fails is
    /// tried again until the attempts are used up. An answer is accepted
    /// only while it is awaited, only if it is a response to a request
    /// for data, and only with the nonce of the request. Any other event
    /// that the state does not admit ends the session as out of order.
    pub open spec fn step(self, plan: BootstrapPlan, event: SessionEventView) -> (
        Progress,
        SessionActionView,
    ) {
        let out_of_order = self.fail(Error::Protocol(ProtocolError::HandshakeOutOfOrder));
        if self.terminal() {
            self.rest()
        } else {
            match event {
                SessionEventView::DeadlineExpired => self.fail(
                    Error::Transport(TransportError::Timeout),
                ),
                SessionEventView::Failed(reason) => self.fail(reason),
                SessionEventView::ConnectSucceeded => if self.state == SessionState::Disconnected {
                    self.to(SessionState::Connected, SessionActionView::Send(request_envelope(plan)))
                } else {
                    out_of_order
                },
                SessionEventView::ConnectFailed => if self.state != SessionState::Disconnected {
                    out_of_order
                } else if self.attempts < plan.max_connect_attempts {
                    (
                        Progress { attempts: (self.attempts + 1) as u32, ..self },
                        SessionActionView::Connect {
                            delay_ms: retry_delay(plan.retry_delay_ms, self.attempts),
                        },
                    )
                } else {
                    self.fail(Error::Transport(TransportError::ConnectionClosed))
                },
                SessionEventView::Sent => if self.state == SessionState::Connected {
                    self.to(SessionState::AwaitingDataResponse, SessionActionView::Receive)
                } else if self.state == SessionState::DataReceived && plan.request_update {
                    self.to(SessionState::UpdateRequested, SessionActionView::Send(ack_envelope(plan)))
                } else if self.state == SessionState::UpdateRequested {
                    self.to(SessionState::Acknowledged, SessionActionView::Seal)
                } else if self.state == SessionState::Publishing {
                    self.to(SessionState::Done, SessionActionView::Finish)
                } else {
                    out_of_order
                },
                SessionEventView::Received(envelope) => if self.state
                    != SessionState::AwaitingDataResponse {
                    out_of_order
                } else {
                    match envelope.payload {
                        PayloadView::GetDataResponse(response) => if response.request_nonce
                            != plan.request_nonce {
                            self.fail(Error::Protocol(ProtocolError::NonceMismatch))
                        } else if plan.request_update {
                            self.to(
                                SessionState::DataReceived,
                                SessionActionView::Send(update_envelope(plan)),
                            )
                        } else {
                            self.to(SessionState::DataReceived, SessionActionView::Seal)
                        },
                        _ => self.fail(Error::Protocol(ProtocolError::UnexpectedPayloadKind)),
                    }
                },
            }
        }
    }

    /// Whether the session stands where the entry is to be sealed.
    pub open spec fn ready_to_seal(self, plan: BootstrapPlan) -> bool {
        self.state == SessionState::Acknowledged || (self.state == SessionState::DataReceived
            && !plan.request_update)
    }

    /// The session after sealing the entry at `now_ms`: it publishes the
    /// one entry, signed; where signing fails it fails and sends nothing.
    pub open spec fn seal(
        self,
        plan: BootstrapPlan,
        secret: Seq<u8>,
        public_key: Seq<u8>,
        now_ms: i64,
    ) -> (Progress, SessionActionView) {
        if self.terminal() {
            self.rest()
        } else if !self.ready_to_seal(plan) {
            self.fail(Error::Protocol(ProtocolError::HandshakeOutOfOrder))
        } else {
            match spec_payload_signature(secret, plan.payload@) {
                Some(signature) => self.to(
                    SessionState::Publishing,
                    SessionActionView::Send(publish_envelope(plan, public_key, signature, now_ms)),
                ),
                None => self.fail(Error::Crypto(CryptoError::SignFailure)),
            }
        }
    }
}

/// One bootstrap attempt.
pub struct BootstrapSession {
    pub plan: BootstrapPlan,
    pub key: SigningKey,
    pub state: SessionState,
    pub attempts: u32,
    pub failure: Option<Error>,
}

impl View for BootstrapSession {
    type V = Progress;

    open spec fn view(&self) -> Progress {
        Progress { state: self.state, attempts: self.attempts, failure: self.failure }
    }
}

/// The pause before connection attempt number `attempt + 1`.
pub fn delay_before_retry(base_ms: u64, attempt: u32) -> (delay_ms: u64)
    ensures
        delay_ms == retry_delay(base_ms, attempt),
{
    let mut delay: u64 = base_ms;
    let mut done: u32 = 1;
    while done < attempt
        invariant
            1 <= done,
            attempt <= 1 ==> done == 1,
            attempt > 1 ==> done <= attempt,
            delay == retry_delay(base_ms, done),
        decreases attempt - done,
    {
        delay = if delay > u64::MAX / 2 {
            u64::MAX
        } else {
            2 * delay
        };
        done += 1;
    }
    delay
}

impl BootstrapSession {
    /// The session holds a usable key.
    pub open spec fn wf(&self) -> bool {
        self.key.wf()
    }

    /// A session that has made its first connection attempt.
    pub fn new(plan: BootstrapPlan, key: SigningKey) -> (session: BootstrapSession)
        requires
            key.wf(),
        ensures
            session.wf(),
            session.plan == plan,
            session.key == key,
            session@ == (Progress {
                state: SessionState::Disconnected,
                attempts: 1,
                failure: None,
            }),
    {
        BootstrapSession {
            plan,
            key,
            state: SessionState::Disconnected,
            attempts: 1,
            failure: None,
        }
    }

    /// A session under the signing key that the plan's configuration
    /// states; none where it states no usable key.
    pub fn with_configured_key(plan: BootstrapPlan) -> (made: Result<BootstrapSession, Error>)
        ensures
            match configured_secret(plan.config) {
                Some(secret) => made is Ok && made->Ok_0.wf() && made->Ok_0.plan == plan
                    && made->Ok_0.key.secret() == secret && made->Ok_0.key.public()
                    == spec_public_key(secret) && made->Ok_0@ == (Progress {
                    state: SessionState::Disconnected,
                    attempts: 1,
                    failure: None,
                }),
                None => made is Err && made->Err_0 == Error::Crypto(CryptoError::KeyLoad),
            },
    {
        match load_signing_key(&plan.config) {
            Ok(key) => Ok(BootstrapSession::new(plan, key)),
            Err(reason) => Err(reason),
        }
    }

    /// What a new session asks for: to connect at once.
    pub fn first_action(&self) -> (action: SessionAction)
        ensures
            action@ == (SessionActionView::Connect { delay_ms: 0 }),
    {
        SessionAction::Connect { delay_ms: 0 }
    }

    fn fail(&mut self, reason: Error) -> (action: SessionAction)
        ensures
            (final(self)@, action@) == old(self)@.fail(reason),
            final(self).plan == old(self).plan,
            final(self).key == old(self).key,
    {
        self.state = SessionState::Failed;
        self.failure = Some(reason);
        SessionAction::Abort(reason)
    }

    fn rest(&self) -> (action: SessionAction)
        ensures
            (self@, action@) == self@.rest(),
    {
        if self.state == SessionState::Done {
            SessionAction::Finish
        } else {
            SessionAction::Abort(
                match self.failure {
                    Some(reason) => reason,
                    None => Error::Protocol(ProtocolError::HandshakeOutOfOrder),
                },
            )
        }
    }

    fn envelope_of(&self, payload: Payload) -> (envelope: Envelope)
        ensures
            envelope@ == (EnvelopeView {
                protocol_version: self.plan.config.p2p_version@,
                payload: payload@,
            }),
    {
        build_envelope_with_version(self.plan.config.p2p_version.as_str(), payload)
    }

    fn request(&self) -> (envelope: Envelope)
        ensures
            envelope@ == request_envelope(self.plan),
    {
        self.envelope_of(
            Payload::PreliminaryGetDataRequest(
                PreliminaryGetDataRequest {
                    nonce: self.plan.request_nonce,
                    excluded_keys: copy_byte_strings(&self.plan.excluded_keys),
                    version: self.plan.config.version.clone(),
                    supported_capabilities: self.plan.capabilities.clone(),
                },
            ),
        )
    }

    /// Takes the outcome of the last action and says what to do next.
    pub fn step(&mut self, event: &SessionEvent) -> (action: SessionAction)
        requires
            old(self).wf(),
        ensures
            final(self).wf(),
            final(self).plan == old(self).plan,
            final(self).key == old(self).key,
            (final(self)@, action@) == old(self)@.step(old(self).plan, event@),
    {
        if self.state == SessionState::Done || self.state == SessionState::Failed {
            return self.rest();
        }
        match event {
            SessionEvent::DeadlineExpired => self.fail(Error::Transport(TransportError::Timeout)),
            SessionEvent::Failed(reason) => self.fail(*reason),
            SessionEvent::ConnectSucceeded => {
                if self.state == SessionState::Disconnected {
                    self.state = SessionState::Connected;
                    SessionAction::Send(self.request())
                } else {
                    self.fail(Error::Protocol(ProtocolError::HandshakeOutOfOrder))
                }
            },
            SessionEvent::ConnectFailed => {
                if self.state != SessionState::Disconnected {
                    self.fail(Error::Protocol(ProtocolError::HandshakeOutOfOrder))
                } else if self.attempts < self.plan.max_connect_attempts {
                    let delay_ms = delay_before_retry(self.plan.retry_delay_ms, self.attempts);
                    self.attempts = self.attempts + 1;
                    SessionAction::Connect { delay_ms }
                } else {
                    self.fail(Error::Transport(TransportError::ConnectionClosed))
                }
            },
            SessionEvent::Sent => {
                if self.state == SessionState::Connected {
                    self.state = SessionState::AwaitingDataResponse;
                    SessionAction::Receive
                } else if self.state == SessionState::DataReceived && self.plan.request_update {
                    self.state = SessionState::UpdateRequested;
                    let ack = build_ack_with_uid(&self.plan.config, self.plan.ack_uid.clone());
                    SessionAction::Send(self.envelope_of(Payload::AckMessage(ack)))
                } else if self.state == SessionState::UpdateRequested {
                    self.state = SessionState::Acknowledged;
                    SessionAction::Seal
                } else if self.state == SessionState::Publishing {
                    self.state = SessionState::Done;
                    SessionAction::Finish
                } else {
                    self.fail(Error::Protocol(ProtocolError::HandshakeOutOfOrder))
                }
            },
            SessionEvent::Received(envelope) => {
                if self.state != SessionState::AwaitingDataResponse {
                    return self.fail(Error::Protocol(ProtocolError::HandshakeOutOfOrder));
                }
                match &envelope.payload {
                    Payload::GetDataResponse(response) => {
                        if response.request_nonce != self.plan.request_nonce {
                            self.fail(Error::Protocol(ProtocolError::NonceMismatch))
                        } else if self.plan.request_update {
                            self.state = SessionState::DataReceived;
                            let request = build_get_updated_data(
                                &self.plan.config,
                                self.plan.update_nonce,
                                &self.plan.excluded_keys,
                            );
                            SessionAction::Send(
                                self.envelope_of(Payload::GetUpdatedDataRequest(request)),
                            )
                        } else {
                            self.state = SessionState::DataReceived;
                            SessionAction::Seal
                        }
                    },
                    _ => self.fail(Error::Protocol(ProtocolError::UnexpectedPayloadKind)),
                }
            },
        }
    }

    /// Builds the one signed entry, created at `now_ms`, and hands it out
    /// for sending. The entry verifies under the session's public key.
    pub fn seal(&mut self, now_ms: i64) -> (action: SessionAction)
        requires
            old(self).wf(),
        ensures
            final(self).wf(),
            final(self).plan == old(self).plan,
            final(self).key == old(self).key,
            (final(self)@, action@) == old(self)@.seal(
                old(self).plan,
                old(self).key.secret(),
                old(self).key.public(),
                now_ms,
            ),
            action@ matches SessionActionView::Send(envelope) ==> envelope.payload
                is AddDataMessage && entry_verifies(
                envelope.payload->AddDataMessage_0.entry.entry(),
            ) && envelope.payload->AddDataMessage_0.entry.entry().owner_pub_key_bytes
                == old(self).key.public(),
    {
        if self.state == SessionState::Done || self.state == SessionState::Failed {
            return self.rest();
        }
        let ready = self.state == SessionState::Acknowledged || (self.state
            == SessionState::DataReceived && !self.plan.request_update);
        if !ready {
            return self.fail(Error::Protocol(ProtocolError::HandshakeOutOfOrder));
        }
        let built = build_add_data_message_at(
            self.plan.payload.duplicate(),
            &self.key,
            self.plan.sequence_number,
            now_ms,
        );
        match built {
            Ok(message) => {
                self.state = SessionState::Publishing;
                SessionAction::Send(self.envelope_of(Payload::AddDataMessage(message)))
            },
            Err(_) => self.fail(Error::Crypto(CryptoError::SignFailure)),
        }
    }
}

/// Nonce correlation: an answer that does not carry the nonce of the
/// outstanding request fails the session with a nonce mismatch, and a
/// session that has failed sends and publishes nothing any more.
pub proof fn mismatched_nonce_fails_the_session(
    progress: Progress,
    plan: BootstrapPlan,
    envelope: EnvelopeView,
    later: SessionEventView,
    secret: Seq<u8>,
    public_key: Seq<u8>,
    now_ms: i64,
)
    requires
        progress.state == SessionState::AwaitingDataResponse,
        envelope.payload is GetDataResponse,
        envelope.payload->GetDataResponse_0.request_nonce != plan.request_nonce,
    ensures
        progress.step(plan, SessionEventView::Received(envelope)).1 == SessionActionView::Abort(
            Error::Protocol(ProtocolError::NonceMismatch),
        ),
        ({
            let failed = progress.step(plan, SessionEventView::Received(envelope)).0;
            &&& failed.state == SessionState::Failed
            &&& failed.failure == Some(Error::Protocol(ProtocolError::NonceMismatch))
            &&& failed.step(plan, later) == (
                failed,
                SessionActionView::Abort(Error::Protocol(ProtocolError::NonceMismatch)),
            )
            &&& failed.seal(plan, secret, public_key, now_ms) == (
                failed,
                SessionActionView::Abort(Error::Protocol(ProtocolError::NonceMismatch)),
            )
        }),
{
}

/// A session only publishes from where the handshake has got as far as
/// the plan asks: after the answer in the short handshake, after the
/// acknowledgement in the long one. No event leads to `Publishing`.
pub proof fn publishing_follows_the_handshake(
    progress: Progress,
    plan: BootstrapPlan,
    event: SessionEventView,
    secret: Seq<u8>,
    public_key: Seq<u8>,
    now_ms: i64,
)
    requires
        progress.state != SessionState::Publishing,
    ensures
        progress.step(plan, event).0.state != SessionState::Publishing,
        progress.seal(plan, secret, public_key, now_ms).0.state == SessionState::Publishing
            ==> progress.ready_to_seal(plan),
{
}

/// Any failure of the transport and the end of the time allowed take a
/// running session straight to `Failed`, with that reason.
pub proof fn transport_failure_is_final(progress: Progress, plan: BootstrapPlan, reason: Error)
    requires
        !progress.terminal(),
    ensures
        progress.step(plan, SessionEventView::Failed(reason)) == progress.fail(reason),
        progress.step(plan, SessionEventView::DeadlineExpired) == progress.fail(
            Error::Transport(TransportError::Timeout),
        ),
        progress.fail(reason).0.state == SessionState::Failed,
{
}

/// The frames that a session writes before it publishes: the first
/// request and, in the long handshake, the request for an update and the
/// acknowledgement.
pub open spec fn handshake_frames(plan: BootstrapPlan) -> Seq<u8> {
    if plan.request_update {
        spec_frame(request_envelope(plan)) + spec_frame(update_envelope(plan)) + spec_frame(
            ack_envelope(plan),
        )
    } else {
        spec_frame(request_envelope(plan))
    }
}

/// What a whole bootstrap over a stream comes to, given what the stream
/// still holds: `Ok` with the signature of the entry that is published,
/// or the reason for which the session fails.
pub open spec fn bootstrap_outcome(
    plan: BootstrapPlan,
    secret: Seq<u8>,
    incoming: Seq<u8>,
    ceiling: nat,
) -> Result<Seq<u8>, Error> {
    match spec_decode(incoming, ceiling) {
        Err(reason) => Err(reason),
        Ok((envelope, _)) => match envelope.payload {
            PayloadView::GetDataResponse(response) => if response.request_nonce
                != plan.request_nonce {
                Err(Error::Protocol(ProtocolError::NonceMismatch))
            } else {
                match spec_payload_signature(secret, plan.payload@) {
                    Some(signature) => Ok(signature),
                    None => Err(Error::Crypto(CryptoError::SignFailure)),
                }
            },
            _ => Err(Error::Protocol(ProtocolError::UnexpectedPayloadKind)),
        },
    }
}

fn send_of(action: SessionAction) -> (envelope: Envelope)
    requires
        action@ is Send,
    ensures
        envelope@ == action@->Send_0,
{
    match action {
        SessionAction::Send(envelope) => envelope,
        _ => vstd::pervasive::unreached(),
    }
}

/// Runs one bootstrap over a stream that is connected already: sends the
/// first request, reads one frame and requires it to answer that request,
/// goes through the rest of the handshake that the plan asks for, and
/// publishes the plan's payload as one signed entry.
///
/// The stream ends up holding, after what it held, the frames of the
/// handshake as far as it got, and after a success the frame of the
/// entry, which verifies under the public key of `key`. A success gives
/// the time, in milliseconds, at which the entry was created.
pub fn run_seed_bootstrap(
    plan: BootstrapPlan,
    key: SigningKey,
    stream: &mut ByteStream,
    ceiling: usize,
) -> (outcome: Result<i64, Error>)
    requires
        key.wf(),
        old(stream).wf(),
    ensures
        final(stream).wf(),
        final(stream).incoming@ == old(stream).incoming@,
        outcome is Ok <==> bootstrap_outcome(
            plan,
            key.secret(),
            old(stream).remaining(),
            ceiling as nat,
        ) is Ok,
        outcome is Err ==> bootstrap_outcome(
            plan,
            key.secret(),
            old(stream).remaining(),
            ceiling as nat,
        ) == Err::<Seq<u8>, Error>(outcome->Err_0),
        outcome is Err ==> final(stream).outgoing@ == old(stream).outgoing@ + if outcome->Err_0
            == Error::Crypto(CryptoError::SignFailure) {
            handshake_frames(plan)
        } else {
            spec_frame(request_envelope(plan))
        },
        outcome is Ok ==> {
            let published = publish_envelope(
                plan,
                key.public(),
                bootstrap_outcome(
                    plan,
                    key.secret(),
                    old(stream).remaining(),
                    ceiling as nat,
                )->Ok_0,
                outcome->Ok_0,
            );
            &&& final(stream).outgoing@ == old(stream).outgoing@ + handshake_frames(plan)
                + spec_frame(published)
            &&& entry_verifies(published.payload->AddDataMessage_0.entry.entry())
        },
{
    let ghost before = old(stream).outgoing@;
    let mut session = BootstrapSession::new(plan, key);
    let request = send_of(session.step(&SessionEvent::ConnectSucceeded));
    let _ = send_envelope(stream, &request);
    let _ = session.step(&SessionEvent::Sent);
    let event = match recv_envelope(stream, ceiling) {
        Ok(envelope) => SessionEvent::Received(envelope),
        Err(reason) => SessionEvent::Failed(reason),
    };
    let mut action = session.step(&event);
    if session.state == SessionState::Failed {
        return match action {
            SessionAction::Abort(reason) => Err(reason),
            _ => vstd::pervasive::unreached(),
        };
    }
    if session.plan.request_update {
        let update = send_of(action);
        let _ = send_envelope(stream, &update);
        let ack = send_of(session.step(&SessionEvent::Sent));
        let _ = send_envelope(stream, &ack);
        action = session.step(&SessionEvent::Sent);
        assert(stream.outgoing@ =~= before + handshake_frames(plan));
    }
    let now_ms = now_millis();
    let sealed = session.seal(now_ms);
    if session.state == SessionState::Failed {
        return match sealed {
            SessionAction::Abort(reason) => Err(reason),
            _ => vstd::pervasive::unreached(),
        };
    }
    let entry = send_of(sealed);
    let _ = send_envelope(stream, &entry);
    let _ = session.step(&SessionEvent::Sent);
    Ok(now_ms)
}

} // verus!
