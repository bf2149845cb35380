//! The wire unit of the handshake: an opaque payload bound to a signer by a
//! detached signature, together with its printable wire encoding.
//!
//! Verification never hands out a payload it did not check: the payload of a
//! decoded envelope can only be read through [`VerifiedPayload`], which only
//! a successful verification produces.

use vstd::prelude::*;
use crate::bytesutil::bytes_eq;
use crate::crypto::{sig_of, sig_ok, sign_detached, verify_detached};
use crate::errors::VerificationError;
use crate::keys::{IdentityModel, Keypair, KeypairModel, PublicIdentity};

verus! {

/// The largest payload an envelope carries. A machine limit: it keeps the
/// wire text's length within `usize` on any host.
pub const PAYLOAD_MAX: usize = 0x0100_0000;

/// Mathematical model of a signed envelope.
#[verifier::ext_equal]
pub ghost struct EnvelopeModel {
    pub payload: Seq<u8>,
    pub signer_fingerprint: Seq<u8>,
    pub signature: Seq<u8>,
}

impl EnvelopeModel {
    /// Structurally well-formed: fingerprint and signature have the scheme's
    /// fixed sizes and the payload is within the machine limit.
    pub open spec fn wf(self) -> bool {
        &&& self.signer_fingerprint.len() == 32
        &&& self.signature.len() == 64
        &&& self.payload.len() <= PAYLOAD_MAX
    }
}

/// The envelope produced by signing a payload with a keypair: the payload,
/// the signer's fingerprint, and the deterministic signature.
pub open spec fn spec_sign(payload: Seq<u8>, kp: KeypairModel) -> EnvelopeModel {
    EnvelopeModel {
        payload,
        signer_fingerprint: kp.fingerprint,
        signature: sig_of(kp.secret, payload),
    }
}

/// Whether an identity accepts an envelope: the envelope claims the
/// identity's fingerprint and its signature verifies under the identity's
/// key. Verification succeeds exactly here.
pub open spec fn accepted_by(e: EnvelopeModel, id: IdentityModel) -> bool {
    &&& e.signer_fingerprint == id.fingerprint
    &&& sig_ok(id.public, e.payload, e.signature)
}

/// An opaque payload plus the signature binding it to a signer's key.
pub struct SignedEnvelope {
    payload: Vec<u8>,
    signer_fingerprint: Vec<u8>,
    signature: Vec<u8>,
}

impl View for SignedEnvelope {
    type V = EnvelopeModel;

    closed spec fn view(&self) -> EnvelopeModel {
        EnvelopeModel {
            payload: self.payload@,
            signer_fingerprint: self.signer_fingerprint@,
            signature: self.signature@,
        }
    }
}

/// A payload that passed signature verification against a given identity.
/// Holding one is the only way to read a received envelope's payload.
pub struct VerifiedPayload {
    bytes: Vec<u8>,
}

impl View for VerifiedPayload {
    type V = Seq<u8>;

    closed spec fn view(&self) -> Seq<u8> {
        self.bytes@
    }
}

impl VerifiedPayload {
    /// The verified payload bytes.
    pub fn get_payload(&self) -> (r: &Vec<u8>)
        ensures
            r@ == self@,
    {
        &self.bytes
    }

    /// The verified payload bytes, by value.
    pub fn into_bytes(self) -> (r: Vec<u8>)
        ensures
            r@ == self@,
    {
        self.bytes
    }
}

impl SignedEnvelope {
    /// Signs a payload with a keypair. Beyond pinning the result, the
    /// contract states the trust argument of the whole protocol: the fresh
    /// envelope is accepted by the signer's own identity, and neither its
    /// signature nor the envelope is accepted under any other public key.
    pub fn sign(payload: Vec<u8>, kp: &Keypair) -> (r: SignedEnvelope)
        requires
            kp@.wf(),
            payload@.len() <= PAYLOAD_MAX,
        ensures
            r@ == spec_sign(payload@, kp@),
            r@.wf(),
            accepted_by(r@, kp@.identity()),
            forall|pk: Seq<u8>| pk != kp@.public ==> !sig_ok(pk, r@.payload, r@.signature),
            forall|id: IdentityModel|
                id.public != kp@.public ==> !(#[trigger] accepted_by(r@, id)),
    {
        let signature = sign_detached(kp.secret_seed().as_slice(), payload.as_slice());
        let signer_fingerprint = vstd::slice::slice_to_vec(kp.fingerprint().as_slice());
        SignedEnvelope { payload, signer_fingerprint, signature }
    }

    /// The fingerprint the envelope claims as its signer. Advisory until the
    /// envelope is verified.
    pub fn signer_fingerprint(&self) -> (r: &Vec<u8>)
        ensures
            r@ == self@.signer_fingerprint,
    {
        &self.signer_fingerprint
    }

    pub(crate) fn payload_slice(&self) -> (r: &[u8])
        ensures
            r@ == self@.payload,
    {
        self.payload.as_slice()
    }

    pub(crate) fn signer_fingerprint_slice(&self) -> (r: &[u8])
        ensures
            r@ == self@.signer_fingerprint,
    {
        self.signer_fingerprint.as_slice()
    }

    pub(crate) fn signature_slice(&self) -> (r: &[u8])
        ensures
            r@ == self@.signature,
    {
        self.signature.as_slice()
    }

    pub(crate) fn from_parts(payload: Vec<u8>, signer_fingerprint: Vec<u8>, signature: Vec<u8>) -> (r:
        SignedEnvelope)
        ensures
            r@ == (EnvelopeModel {
                payload: payload@,
                signer_fingerprint: signer_fingerprint@,
                signature: signature@,
            }),
    {
        SignedEnvelope { payload, signer_fingerprint, signature }
    }
}

impl PublicIdentity {
    /// Returns the envelope's payload only if the envelope's signature
    /// validates against this identity's key and the envelope claims this
    /// identity's fingerprint; otherwise the payload stays unread.
    pub fn verify(&self, envelope: &SignedEnvelope) -> (r: Result<
        VerifiedPayload,
        VerificationError,
    >)
        requires
            self@.wf(),
            envelope@.wf(),
        ensures
            match r {
                Ok(vp) => accepted_by(envelope@, self@) && vp@ == envelope@.payload,
                Err(e) => e == VerificationError::SignatureInvalid && !accepted_by(
                    envelope@,
                    self@,
                ),
            },
    {
        let fp_match = bytes_eq(
            envelope.signer_fingerprint.as_slice(),
            self.fingerprint().as_slice(),
        );
        if !fp_match {
            return Err(VerificationError::SignatureInvalid);
        }
        let sig_valid = verify_detached(
            self.public_key().as_slice(),
            envelope.payload.as_slice(),
            envelope.signature.as_slice(),
        );
        if sig_valid {
            Ok(VerifiedPayload { bytes: vstd::slice::slice_to_vec(envelope.payload.as_slice()) })
        } else {
            Err(VerificationError::SignatureInvalid)
        }
    }
}

} // verus!
