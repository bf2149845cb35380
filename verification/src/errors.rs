//! The error taxonomy of the handshake core.
//!
//! Verification failures and malformed messages are never downgraded to a
//! retry: each terminal failure carries one of these reasons and the caller
//! decides what to do with it.

use vstd::prelude::*;

verus! {

/// Failure of the key store's load-or-create lifecycle.
#[derive(Clone, Copy, Debug, PartialEq, Eq, Structural)]
pub enum KeyStoreError {
    /// A filesystem operation failed (directory missing, permission denied).
    Io,
    /// A persisted key file exists but does not hold a valid matching keypair.
    /// Never answered by silent regeneration: that would discard the identity
    /// any server has pinned.
    Corrupt,
}

/// Failure to parse an out-of-band armored public-key text.
#[derive(Clone, Copy, Debug, PartialEq, Eq, Structural)]
pub enum TrustAnchorError {
    /// The text is not exactly one well-formed public-key block.
    Malformed,
}

/// Failure to decode an envelope from its wire text.
#[derive(Clone, Copy, Debug, PartialEq, Eq, Structural)]
pub enum ParseError {
    /// The input is not the wire encoding of any envelope.
    Malformed,
}

/// Failure to verify a signed envelope against an identity.
#[derive(Clone, Copy, Debug, PartialEq, Eq, Structural)]
pub enum VerificationError {
    /// The envelope's signature does not bind its payload to the given key,
    /// or the envelope does not claim that key's fingerprint.
    SignatureInvalid,
}

/// Reason a handshake attempt ended in its terminal failure state.
#[derive(Clone, Copy, Debug, PartialEq, Eq, Structural)]
pub enum HandshakeError {
    /// The transport closed before the exchange completed.
    TransportClosed,
    /// A mandatory wait on the peer outlasted the configured timeout.
    Timeout,
    /// A received message was not a well-formed envelope.
    Malformed,
    /// The challenge was not validly signed by the trusted server key.
    ServerIdentityRejected,
    /// The server explicitly refused the client's proof.
    ServerRejectedClient,
}

} // verus!
