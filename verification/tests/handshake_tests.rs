//! The state machine driven against a mock peer: the successful exchange,
//! every failure path of the error taxonomy, challenge-token freshness and
//! replay rejection.

use wicrs_handshake::envelope::SignedEnvelope;
use wicrs_handshake::errors::HandshakeError;
use wicrs_handshake::handshake::{fresh_challenge_token, server_accepts_proof, HandshakeAction,
    HandshakeEvent, HandshakeSession, HandshakeState};
use wicrs_handshake::hexcodec::hex_encode;
use wicrs_handshake::keys::Keypair;

fn new_session(client: &Keypair, server: &Keypair) -> HandshakeSession {
    HandshakeSession::new(client.duplicate(), server.public_identity(), 1000)
}

#[test]
fn successful_handshake_reaches_authenticated() {
    let client = Keypair::generate();
    let server = Keypair::generate();
    let mut session = new_session(&client, &server);
    assert_eq!(session.state(), HandshakeState::Idle);
    assert_eq!(session.timeout_ms(), 1000);

    // Connect, presenting the client's fingerprint as the header claim.
    let action = session.start();
    match action {
        HandshakeAction::OpenTransport(header) => {
            assert_eq!(header, hex_encode(client.fingerprint()));
        },
        _ => panic!("starting must open the transport"),
    }
    assert_eq!(session.state(), HandshakeState::Connecting);

    let action = session.step(HandshakeEvent::Connected);
    assert!(matches!(action, HandshakeAction::AwaitMessage));
    assert_eq!(session.state(), HandshakeState::AwaitingChallenge);

    // The mock server issues a fresh signed challenge.
    let token = fresh_challenge_token();
    let challenge = SignedEnvelope::sign(token.clone(), &server).to_wire_text();
    let action = session.step(HandshakeEvent::Message(challenge));
    let response = match action {
        HandshakeAction::SendMessage(w) => w,
        _ => panic!("a verified challenge must be answered"),
    };
    assert_eq!(session.state(), HandshakeState::RespondingToChallenge);

    // The mock server checks the proof: signed by the claimed client over
    // exactly the token it chose.
    assert!(server_accepts_proof(&token, &response, &client.public_identity()));

    let action = session.step(HandshakeEvent::Sent);
    assert!(matches!(action, HandshakeAction::AwaitMessage));
    assert_eq!(session.state(), HandshakeState::AwaitingConfirmation);

    // The mock server confirms with the session handle.
    let confirmation = SignedEnvelope::sign(b"session-handle-1".to_vec(), &server).to_wire_text();
    let action = session.step(HandshakeEvent::Message(confirmation));
    assert!(matches!(action, HandshakeAction::Finish));
    assert_eq!(session.state(), HandshakeState::Authenticated);
    assert_eq!(session.session_handle(), &b"session-handle-1".to_vec());
}

#[test]
fn untrusted_challenge_signer_rejected_and_transport_closed() {
    let client = Keypair::generate();
    let server = Keypair::generate();
    let rogue = Keypair::generate();
    let mut session = new_session(&client, &server);
    session.start();
    session.step(HandshakeEvent::Connected);

    let challenge = SignedEnvelope::sign(fresh_challenge_token(), &rogue).to_wire_text();
    let action = session.step(HandshakeEvent::Message(challenge));
    // The transport observes exactly one close and no further messages.
    assert!(matches!(action, HandshakeAction::CloseTransport));
    assert_eq!(
        session.state(),
        HandshakeState::Failed(HandshakeError::ServerIdentityRejected)
    );
}

#[test]
fn timeout_awaiting_challenge_fails_and_closes() {
    let client = Keypair::generate();
    let server = Keypair::generate();
    let mut session = new_session(&client, &server);
    session.start();
    session.step(HandshakeEvent::Connected);
    let action = session.step(HandshakeEvent::TimedOut);
    assert!(matches!(action, HandshakeAction::CloseTransport));
    assert_eq!(session.state(), HandshakeState::Failed(HandshakeError::Timeout));
}

#[test]
fn timeout_awaiting_confirmation_fails_and_closes() {
    let client = Keypair::generate();
    let server = Keypair::generate();
    let mut session = new_session(&client, &server);
    session.start();
    session.step(HandshakeEvent::Connected);
    let challenge = SignedEnvelope::sign(fresh_challenge_token(), &server).to_wire_text();
    session.step(HandshakeEvent::Message(challenge));
    session.step(HandshakeEvent::Sent);
    let action = session.step(HandshakeEvent::TimedOut);
    assert!(matches!(action, HandshakeAction::CloseTransport));
    assert_eq!(session.state(), HandshakeState::Failed(HandshakeError::Timeout));
}

#[test]
fn malformed_challenge_fails_and_closes() {
    let client = Keypair::generate();
    let server = Keypair::generate();
    let mut session = new_session(&client, &server);
    session.start();
    session.step(HandshakeEvent::Connected);
    let action = session.step(HandshakeEvent::Message(b"not an envelope".to_vec()));
    assert!(matches!(action, HandshakeAction::CloseTransport));
    assert_eq!(session.state(), HandshakeState::Failed(HandshakeError::Malformed));
}

#[test]
fn transport_closure_while_waiting_fails() {
    let client = Keypair::generate();
    let server = Keypair::generate();
    let mut session = new_session(&client, &server);
    session.start();
    let action = session.step(HandshakeEvent::Closed);
    assert!(matches!(action, HandshakeAction::CloseTransport));
    assert_eq!(
        session.state(),
        HandshakeState::Failed(HandshakeError::TransportClosed)
    );
}

#[test]
fn server_rejection_payload_fails_with_server_rejected_client() {
    let client = Keypair::generate();
    let server = Keypair::generate();
    let mut session = new_session(&client, &server);
    session.start();
    session.step(HandshakeEvent::Connected);
    let challenge = SignedEnvelope::sign(fresh_challenge_token(), &server).to_wire_text();
    session.step(HandshakeEvent::Message(challenge));
    session.step(HandshakeEvent::Sent);
    let refusal = SignedEnvelope::sign(b"no".to_vec(), &server).to_wire_text();
    let action = session.step(HandshakeEvent::Message(refusal));
    assert!(matches!(action, HandshakeAction::CloseTransport));
    assert_eq!(
        session.state(),
        HandshakeState::Failed(HandshakeError::ServerRejectedClient)
    );
}

#[test]
fn untrusted_confirmation_signer_rejected() {
    let client = Keypair::generate();
    let server = Keypair::generate();
    let rogue = Keypair::generate();
    let mut session = new_session(&client, &server);
    session.start();
    session.step(HandshakeEvent::Connected);
    let challenge = SignedEnvelope::sign(fresh_challenge_token(), &server).to_wire_text();
    session.step(HandshakeEvent::Message(challenge));
    session.step(HandshakeEvent::Sent);
    let forged = SignedEnvelope::sign(b"session".to_vec(), &rogue).to_wire_text();
    let action = session.step(HandshakeEvent::Message(forged));
    assert!(matches!(action, HandshakeAction::CloseTransport));
    assert_eq!(
        session.state(),
        HandshakeState::Failed(HandshakeError::ServerIdentityRejected)
    );
}

#[test]
fn cancel_discards_attempt_and_closes_transport() {
    let client = Keypair::generate();
    let server = Keypair::generate();
    let mut session = new_session(&client, &server);
    session.start();
    session.step(HandshakeEvent::Connected);
    let action = session.cancel();
    assert!(matches!(action, HandshakeAction::CloseTransport));
    assert_eq!(
        session.state(),
        HandshakeState::Failed(HandshakeError::TransportClosed)
    );
}

#[test]
fn two_attempts_never_reuse_a_challenge_token() {
    let token1 = fresh_challenge_token();
    let token2 = fresh_challenge_token();
    assert_eq!(token1.len(), 32);
    assert_eq!(token2.len(), 32);
    assert_ne!(token1, token2);
}

#[test]
fn replayed_response_rejected_by_mock_peer_with_fresh_token() {
    let client = Keypair::generate();
    let client_id = client.public_identity();
    // Attempt #1: the server chose token1 and the client proved it.
    let token1 = fresh_challenge_token();
    let response1 = SignedEnvelope::sign(token1.clone(), &client).to_wire_text();
    assert!(server_accepts_proof(&token1, &response1, &client_id));
    // Attempt #2: the server chose a fresh token2; the captured response
    // from attempt #1 must be rejected.
    let token2 = fresh_challenge_token();
    assert_ne!(token1, token2);
    assert!(!server_accepts_proof(&token2, &response1, &client_id));
}

#[test]
fn proof_from_wrong_client_key_rejected_by_mock_peer() {
    let client = Keypair::generate();
    let impostor = Keypair::generate();
    let token = fresh_challenge_token();
    let response = SignedEnvelope::sign(token.clone(), &impostor).to_wire_text();
    assert!(!server_accepts_proof(&token, &response, &client.public_identity()));
}

#[test]
fn out_of_order_event_fails_as_malformed() {
    let client = Keypair::generate();
    let server = Keypair::generate();
    let mut session = new_session(&client, &server);
    session.start();
    // A message before the connection is established is a protocol
    // violation by the transport layer.
    let action = session.step(HandshakeEvent::Message(b"early".to_vec()));
    assert!(matches!(action, HandshakeAction::CloseTransport));
    assert_eq!(session.state(), HandshakeState::Failed(HandshakeError::Malformed));
}
