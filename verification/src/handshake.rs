//! The handshake state machine: connect, receive the server's signed
//! challenge, prove control of the client key by signing that challenge, and
//! accept the server's signed confirmation — or fail with a reason and close
//! the transport.
//!
//! The machine is pure: every suspension point of the transport (connect,
//! send, receive with its timeout, closure) is an event handed to [`HandshakeSession::step`],
//! and each step answers with the one action the caller must perform next.
//! The caller owns the transport; the machine owns the trust decisions. There
//! is no ambient session state: everything lives in the session value.
//!
//! A pre-flight variant — fetching a one-time key over a request/response
//! call before the realtime transport opens — rests on the same proof
//! primitive: possession of a private key is shown by signing server-chosen,
//! single-use material, and [`server_accepts_proof`] is exactly the check
//! the issuing side performs.

use vstd::prelude::*;
use crate::bytesutil::bytes_eq;
use crate::crypto::os_random_bytes;
use crate::envelope::{accepted_by, spec_sign, EnvelopeModel, SignedEnvelope};
use crate::errors::HandshakeError;
use crate::hexcodec::{hex_encode, hex_of};
use crate::keys::{IdentityModel, Keypair, KeypairModel, PublicIdentity};
use crate::wire::{lemma_wire_of_injective, wire_of};

verus! {

/// The states of one handshake attempt. `Authenticated` and `Failed` are
/// terminal; `Failed` carries the reason the attempt ended.
#[derive(Clone, Copy, Debug, PartialEq, Eq, Structural)]
pub enum HandshakeState {
    Idle,
    Connecting,
    AwaitingChallenge,
    RespondingToChallenge,
    AwaitingConfirmation,
    Authenticated,
    Failed(HandshakeError),
}

/// What the transport reported since the last step.
pub enum HandshakeEvent {
    /// The connection is established.
    Connected,
    /// One whole message arrived.
    Message(Vec<u8>),
    /// The last requested send completed.
    Sent,
    /// The transport closed.
    Closed,
    /// The configured timeout elapsed while waiting.
    TimedOut,
}

/// What the caller must do next with the transport.
pub enum HandshakeAction {
    /// Open the transport, presenting this claimed-fingerprint header. The
    /// claim is advisory: the server must not trust it without the proof.
    OpenTransport(Vec<u8>),
    /// Wait for one message, no longer than the configured timeout.
    AwaitMessage,
    /// Send this wire text, then report back with `Sent`.
    SendMessage(Vec<u8>),
    /// The attempt failed: close the transport and stop.
    CloseTransport,
    /// The attempt succeeded: the session handle is ready.
    Finish,
}

/// Mathematical model of a handshake session.
#[verifier::ext_equal]
pub ghost struct SessionModel {
    pub state: HandshakeState,
    pub keypair: KeypairModel,
    pub server: IdentityModel,
    pub timeout_ms: u64,
    pub challenge: Option<Seq<u8>>,
    pub session_token: Option<Seq<u8>>,
}

impl SessionModel {
    /// The session invariant: sound key material, an outstanding challenge
    /// exactly while a response is owed, and a session handle in the
    /// authenticated state.
    pub open spec fn wf(self) -> bool {
        &&& self.keypair.wf()
        &&& self.server.wf()
        &&& self.state is RespondingToChallenge ==> self.challenge is Some
        &&& self.state is Authenticated ==> self.session_token is Some
    }
}

/// Whether a state ends the attempt.
pub open spec fn is_terminal(s: HandshakeState) -> bool {
    s is Authenticated || s is Failed
}

/// The payload by which the server refuses the client's proof in its
/// confirmation envelope; any other confirmed payload is the session handle.
pub open spec fn rejection_payload() -> Seq<u8> {
    seq![0x6eu8, 0x6fu8]
}

/// One failing transition: the attempt ends with the given reason, the
/// outstanding challenge token and any session state are discarded, and the
/// transport is closed. A failed attempt leaves no residual trusted state.
pub open spec fn failed_step(
    pre: SessionModel,
    post: SessionModel,
    action: HandshakeAction,
    reason: HandshakeError,
) -> bool {
    &&& post == (SessionModel {
        state: HandshakeState::Failed(reason),
        challenge: None::<Seq<u8>>,
        session_token: None::<Seq<u8>>,
        ..pre
    })
    &&& action is CloseTransport
}

/// The transition out of `AwaitingChallenge` on a received message: a
/// malformed text fails the attempt; an envelope not accepted by the trusted
/// server identity fails it (no further exchange is safe); a verified
/// challenge is retained and answered by the client's own signature over
/// exactly the server-chosen token.
pub open spec fn challenge_step(
    pre: SessionModel,
    m: Vec<u8>,
    post: SessionModel,
    action: HandshakeAction,
) -> bool {
    if exists|e: EnvelopeModel| e.wf() && m@ == wire_of(e) {
        let e = choose|e: EnvelopeModel| e.wf() && m@ == wire_of(e);
        if accepted_by(e, pre.server) {
            &&& post == (SessionModel {
                state: HandshakeState::RespondingToChallenge,
                challenge: Some(e.payload),
                ..pre
            })
            &&& action matches HandshakeAction::SendMessage(w) && w@ == wire_of(
                spec_sign(e.payload, pre.keypair),
            )
        } else {
            failed_step(pre, post, action, HandshakeError::ServerIdentityRejected)
        }
    } else {
        failed_step(pre, post, action, HandshakeError::Malformed)
    }
}

/// The transition out of `AwaitingConfirmation` on a received message: a
/// malformed text fails the attempt; an envelope not accepted by the trusted
/// server identity fails it; the server's rejection payload fails it with
/// `ServerRejectedClient`; any other confirmed payload is the session handle
/// and the attempt is authenticated.
pub open spec fn confirmation_step(
    pre: SessionModel,
    m: Vec<u8>,
    post: SessionModel,
    action: HandshakeAction,
) -> bool {
    if exists|e: EnvelopeModel| e.wf() && m@ == wire_of(e) {
        let e = choose|e: EnvelopeModel| e.wf() && m@ == wire_of(e);
        if accepted_by(e, pre.server) {
            if e.payload == rejection_payload() {
                failed_step(pre, post, action, HandshakeError::ServerRejectedClient)
            } else {
                &&& post == (SessionModel {
                    state: HandshakeState::Authenticated,
                    challenge: None::<Seq<u8>>,
                    session_token: Some(e.payload),
                    ..pre
                })
                &&& action is Finish
            }
        } else {
            failed_step(pre, post, action, HandshakeError::ServerIdentityRejected)
        }
    } else {
        failed_step(pre, post, action, HandshakeError::Malformed)
    }
}

/// The whole transition relation of one step: what the next session state
/// and the next transport action are, for every non-terminal state after
/// `Idle` and every event. Events a state does not expect (the transport
/// layer speaking out of order) fail the attempt as malformed.
pub open spec fn step_spec(
    pre: SessionModel,
    event: HandshakeEvent,
    post: SessionModel,
    action: HandshakeAction,
) -> bool {
    match pre.state {
        HandshakeState::Connecting => match event {
            HandshakeEvent::Connected => {
                &&& post == (SessionModel { state: HandshakeState::AwaitingChallenge, ..pre })
                &&& action is AwaitMessage
            },
            HandshakeEvent::Closed => failed_step(
                pre,
                post,
                action,
                HandshakeError::TransportClosed,
            ),
            HandshakeEvent::TimedOut => failed_step(pre, post, action, HandshakeError::Timeout),
            _ => failed_step(pre, post, action, HandshakeError::Malformed),
        },
        HandshakeState::AwaitingChallenge => match event {
            HandshakeEvent::Message(m) => challenge_step(pre, m, post, action),
            HandshakeEvent::Closed => failed_step(
                pre,
                post,
                action,
                HandshakeError::TransportClosed,
            ),
            HandshakeEvent::TimedOut => failed_step(pre, post, action, HandshakeError::Timeout),
            _ => failed_step(pre, post, action, HandshakeError::Malformed),
        },
        HandshakeState::RespondingToChallenge => match event {
            HandshakeEvent::Sent => {
                &&& post == (SessionModel {
                    state: HandshakeState::AwaitingConfirmation,
                    ..pre
                })
                &&& action is AwaitMessage
            },
            HandshakeEvent::Closed => failed_step(
                pre,
                post,
                action,
                HandshakeError::TransportClosed,
            ),
            HandshakeEvent::TimedOut => failed_step(pre, post, action, HandshakeError::Timeout),
            _ => failed_step(pre, post, action, HandshakeError::Malformed),
        },
        HandshakeState::AwaitingConfirmation => match event {
            HandshakeEvent::Message(m) => confirmation_step(pre, m, post, action),
            HandshakeEvent::Closed => failed_step(
                pre,
                post,
                action,
                HandshakeError::TransportClosed,
            ),
            HandshakeEvent::TimedOut => failed_step(pre, post, action, HandshakeError::Timeout),
            _ => failed_step(pre, post, action, HandshakeError::Malformed),
        },
        _ => false,
    }
}

/// Transient state of one connection attempt: the transport's side lives
/// with the caller, the trust decisions live here.
pub struct HandshakeSession {
    state: HandshakeState,
    keypair: Keypair,
    server: PublicIdentity,
    timeout_ms: u64,
    challenge: Option<Vec<u8>>,
    session_token: Option<Vec<u8>>,
}

impl View for HandshakeSession {
    type V = SessionModel;

    closed spec fn view(&self) -> SessionModel {
        SessionModel {
            state: self.state,
            keypair: self.keypair@,
            server: self.server@,
            timeout_ms: self.timeout_ms,
            challenge: match self.challenge {
                Some(c) => Some(c@),
                None => None,
            },
            session_token: match self.session_token {
                Some(t) => Some(t@),
                None => None,
            },
        }
    }
}

impl HandshakeSession {
    /// A new attempt in `Idle`, owning the client keypair, the server's
    /// trust anchor, and the timeout for every wait on the peer.
    pub fn new(keypair: Keypair, server: PublicIdentity, timeout_ms: u64) -> (r: HandshakeSession)
        requires
            keypair@.wf(),
            server@.wf(),
        ensures
            r@.wf(),
            r@ == (SessionModel {
                state: HandshakeState::Idle,
                keypair: keypair@,
                server: server@,
                timeout_ms: timeout_ms,
                challenge: None::<Seq<u8>>,
                session_token: None::<Seq<u8>>,
            }),
    {
        HandshakeSession {
            state: HandshakeState::Idle,
            keypair,
            server,
            timeout_ms,
            challenge: None,
            session_token: None,
        }
    }

    /// The current state.
    pub fn state(&self) -> (r: HandshakeState)
        ensures
            r == self@.state,
    {
        self.state
    }

    /// The timeout, in milliseconds, the caller must apply to every wait the
    /// machine requests.
    pub fn timeout_ms(&self) -> (r: u64)
        ensures
            r == self@.timeout_ms,
    {
        self.timeout_ms
    }

    /// Begins the attempt: the one transition out of `Idle`. The transport
    /// is opened with the client's own fingerprint, hex-encoded, as the
    /// connection-identifying header.
    pub fn start(&mut self) -> (action: HandshakeAction)
        requires
            old(self)@.wf(),
            old(self)@.state is Idle,
        ensures
            final(self)@.wf(),
            final(self)@ == (SessionModel { state: HandshakeState::Connecting, ..old(self)@ }),
            action matches HandshakeAction::OpenTransport(h) && h@ == hex_of(
                old(self)@.keypair.fingerprint,
            ),
    {
        self.state = HandshakeState::Connecting;
        let header = hex_encode(self.keypair.fingerprint().as_slice());
        HandshakeAction::OpenTransport(header)
    }

    /// Ends the attempt with the given reason and closes the transport.
    fn fail(&mut self, reason: HandshakeError) -> (action: HandshakeAction)
        requires
            old(self)@.wf(),
        ensures
            final(self)@.wf(),
            failed_step(old(self)@, final(self)@, action, reason),
    {
        self.state = HandshakeState::Failed(reason);
        self.challenge = None;
        self.session_token = None;
        proof {
            assert(self@ =~= (SessionModel {
                state: HandshakeState::Failed(reason),
                challenge: None::<Seq<u8>>,
                session_token: None::<Seq<u8>>,
                ..old(self)@
            }));
        }
        HandshakeAction::CloseTransport
    }

    /// Handles the server's signed challenge while in `AwaitingChallenge`.
    fn on_challenge_message(&mut self, m: Vec<u8>) -> (action: HandshakeAction)
        requires
            old(self)@.wf(),
            old(self)@.state is AwaitingChallenge,
        ensures
            final(self)@.wf(),
            challenge_step(old(self)@, m, final(self)@, action),
    {
        let envelope = match SignedEnvelope::from_wire_text(m.as_slice()) {
            Ok(e) => e,
            Err(_) => {
                return self.fail(HandshakeError::Malformed);
            },
        };
        proof {
            assert(envelope@.wf() && m@ == wire_of(envelope@));
            let e = choose|e: EnvelopeModel| e.wf() && m@ == wire_of(e);
            lemma_wire_of_injective(e, envelope@);
        }
        let verified = match self.server.verify(&envelope) {
            Ok(vp) => vp,
            Err(_) => {
                return self.fail(HandshakeError::ServerIdentityRejected);
            },
        };
        let token = verified.into_bytes();
        let response = SignedEnvelope::sign(
            vstd::slice::slice_to_vec(token.as_slice()),
            &self.keypair,
        );
        let wire_text = response.to_wire_text();
        self.state = HandshakeState::RespondingToChallenge;
        self.challenge = Some(token);
        proof {
            assert(self@ =~= (SessionModel {
                state: HandshakeState::RespondingToChallenge,
                challenge: Some(envelope@.payload),
                ..old(self)@
            }));
        }
        HandshakeAction::SendMessage(wire_text)
    }

    /// Handles the server's confirmation while in `AwaitingConfirmation`.
    fn on_confirmation_message(&mut self, m: Vec<u8>) -> (action: HandshakeAction)
        requires
            old(self)@.wf(),
            old(self)@.state is AwaitingConfirmation,
        ensures
            final(self)@.wf(),
            confirmation_step(old(self)@, m, final(self)@, action),
    {
        let envelope = match SignedEnvelope::from_wire_text(m.as_slice()) {
            Ok(e) => e,
            Err(_) => {
                return self.fail(HandshakeError::Malformed);
            },
        };
        proof {
            assert(envelope@.wf() && m@ == wire_of(envelope@));
            let e = choose|e: EnvelopeModel| e.wf() && m@ == wire_of(e);
            lemma_wire_of_injective(e, envelope@);
        }
        let verified = match self.server.verify(&envelope) {
            Ok(vp) => vp,
            Err(_) => {
                return self.fail(HandshakeError::ServerIdentityRejected);
            },
        };
        let payload = verified.into_bytes();
        let mut rejection: Vec<u8> = Vec::new();
        rejection.push(0x6e);
        rejection.push(0x6f);
        proof {
            assert(rejection@ =~= rejection_payload());
        }
        if bytes_eq(payload.as_slice(), rejection.as_slice()) {
            return self.fail(HandshakeError::ServerRejectedClient);
        }
        self.state = HandshakeState::Authenticated;
        self.challenge = None;
        self.session_token = Some(payload);
        proof {
            assert(self@ =~= (SessionModel {
                state: HandshakeState::Authenticated,
                challenge: None::<Seq<u8>>,
                session_token: Some(envelope@.payload),
                ..old(self)@
            }));
        }
        HandshakeAction::Finish
    }

    /// One step of the machine: consumes what the transport reported and
    /// answers with the next transport action. The whole behaviour is the
    /// transition relation [`step_spec`].
    pub fn step(&mut self, event: HandshakeEvent) -> (action: HandshakeAction)
        requires
            old(self)@.wf(),
            !(old(self)@.state is Idle),
            !is_terminal(old(self)@.state),
        ensures
            final(self)@.wf(),
            step_spec(old(self)@, event, final(self)@, action),
    {
        let st = self.state;
        match st {
            HandshakeState::Connecting => match event {
                HandshakeEvent::Connected => {
                    self.state = HandshakeState::AwaitingChallenge;
                    proof {
                        assert(self@ =~= (SessionModel {
                            state: HandshakeState::AwaitingChallenge,
                            ..old(self)@
                        }));
                    }
                    HandshakeAction::AwaitMessage
                },
                HandshakeEvent::Closed => self.fail(HandshakeError::TransportClosed),
                HandshakeEvent::TimedOut => self.fail(HandshakeError::Timeout),
                _ => self.fail(HandshakeError::Malformed),
            },
            HandshakeState::AwaitingChallenge => match event {
                HandshakeEvent::Message(m) => self.on_challenge_message(m),
                HandshakeEvent::Closed => self.fail(HandshakeError::TransportClosed),
                HandshakeEvent::TimedOut => self.fail(HandshakeError::Timeout),
                _ => self.fail(HandshakeError::Malformed),
            },
            HandshakeState::RespondingToChallenge => match event {
                HandshakeEvent::Sent => {
                    self.state = HandshakeState::AwaitingConfirmation;
                    proof {
                        assert(self@ =~= (SessionModel {
                            state: HandshakeState::AwaitingConfirmation,
                            ..old(self)@
                        }));
                    }
                    HandshakeAction::AwaitMessage
                },
                HandshakeEvent::Closed => self.fail(HandshakeError::TransportClosed),
                HandshakeEvent::TimedOut => self.fail(HandshakeError::Timeout),
                _ => self.fail(HandshakeError::Malformed),
            },
            HandshakeState::AwaitingConfirmation => match event {
                HandshakeEvent::Message(m) => self.on_confirmation_message(m),
                HandshakeEvent::Closed => self.fail(HandshakeError::TransportClosed),
                HandshakeEvent::TimedOut => self.fail(HandshakeError::Timeout),
                _ => self.fail(HandshakeError::Malformed),
            },
            _ => {
                proof {
                    assert(false);
                }
                HandshakeAction::CloseTransport
            },
        }
    }

    /// Caller-initiated abort, permitted at any non-terminal state: the
    /// transport is closed and the in-progress challenge token is discarded,
    /// so a cancelled attempt leaves no residual trusted state. The attempt
    /// is recorded as ended by transport closure.
    pub fn cancel(&mut self) -> (action: HandshakeAction)
        requires
            old(self)@.wf(),
            !is_terminal(old(self)@.state),
        ensures
            final(self)@.wf(),
            failed_step(old(self)@, final(self)@, action, HandshakeError::TransportClosed),
    {
        self.fail(HandshakeError::TransportClosed)
    }

    /// The authenticated session handle, available exactly in
    /// `Authenticated`.
    pub fn session_handle(&self) -> (r: &Vec<u8>)
        requires
            self@.wf(),
            self@.state is Authenticated,
        ensures
            self@.session_token matches Some(t) && r@ == t,
    {
        match &self.session_token {
            Some(t) => t,
            None => {
                proof {
                    assert(false);
                }
                vstd::pervasive::unreached()
            },
        }
    }
}

/// A fresh challenge token for one handshake attempt: 32 bytes from the
/// operating-system entropy source. Unpredictability and freshness rest on
/// that source; nothing relates one call's result to another's, so no caller
/// may treat two tokens as equal.
pub fn fresh_challenge_token() -> (r: Vec<u8>)
    ensures
        r@.len() == 32,
{
    os_random_bytes(32)
}

/// The server side of the proof step, for the peer checking a client: does
/// the wire text hold an envelope signed by the claimed client identity over
/// exactly the expected challenge token? A correct server accepts a proof
/// only under this test, so a replayed response over a stale token is
/// refused.
pub fn server_accepts_proof(
    expected_token: &[u8],
    wire_text: &[u8],
    client: &PublicIdentity,
) -> (r: bool)
    requires
        client@.wf(),
    ensures
        r == exists|e: EnvelopeModel|
            e.wf() && wire_text@ == wire_of(e) && accepted_by(e, client@) && e.payload
                == expected_token@,
{
    let envelope = match SignedEnvelope::from_wire_text(wire_text) {
        Ok(e) => e,
        Err(_) => {
            return false;
        },
    };
    proof {
        assert(envelope@.wf() && wire_text@ == wire_of(envelope@));
    }
    let verified = match client.verify(&envelope) {
        Ok(vp) => vp,
        Err(_) => {
            proof {
                assert forall|e: EnvelopeModel|
                    e.wf() && wire_text@ == wire_of(e) implies !(accepted_by(e, client@)
                    && e.payload == expected_token@) by {
                    lemma_wire_of_injective(e, envelope@);
                }
            }
            return false;
        },
    };
    let matches_token = bytes_eq(verified.get_payload().as_slice(), expected_token);
    proof {
        if !matches_token {
            assert forall|e: EnvelopeModel|
                e.wf() && wire_text@ == wire_of(e) implies !(accepted_by(e, client@) && e.payload
                == expected_token@) by {
                lemma_wire_of_injective(e, envelope@);
            }
        }
    }
    matches_token
}

/// A proof signed over one attempt's challenge token never completes an
/// attempt whose token differs: the accepted payload is the signed token
/// itself, so a replayed response from an earlier attempt is rejected by any
/// server holding a fresh token.
pub proof fn lemma_replayed_proof_rejected(
    token_old: Seq<u8>,
    token_new: Seq<u8>,
    kp: KeypairModel,
    id: IdentityModel,
)
    requires
        token_old != token_new,
    ensures
        !(accepted_by(spec_sign(token_old, kp), id) && spec_sign(token_old, kp).payload
            == token_new),
{
}

} // verus!
