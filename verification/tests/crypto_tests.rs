//! Signing, verification and key-derivation behaviour, including
//! cross-checks of the crate's results against the underlying libraries.

use ed25519_dalek::Signer;
use sha3::Digest;
use wicrs_handshake::envelope::SignedEnvelope;
use wicrs_handshake::errors::VerificationError;
use wicrs_handshake::hexcodec::hex_decode;
use wicrs_handshake::keys::Keypair;

#[test]
fn sign_then_verify_yields_payload_exactly() {
    let kp = Keypair::generate();
    let payload = vec![0u8, 1, 2, 3, 254, 255, 42];
    let envelope = SignedEnvelope::sign(payload.clone(), &kp);
    let identity = kp.public_identity();
    let verified = identity.verify(&envelope).unwrap();
    assert_eq!(verified.get_payload(), &payload);
}

#[test]
fn sign_then_verify_empty_payload() {
    let kp = Keypair::generate();
    let envelope = SignedEnvelope::sign(Vec::new(), &kp);
    let verified = kp.public_identity().verify(&envelope).unwrap();
    assert_eq!(verified.get_payload().len(), 0);
}

#[test]
fn verify_under_different_keypair_fails() {
    let kp = Keypair::generate();
    let other = Keypair::generate();
    let envelope = SignedEnvelope::sign(b"a payload".to_vec(), &kp);
    let result = other.public_identity().verify(&envelope);
    assert!(matches!(result, Err(VerificationError::SignatureInvalid)));
}

#[test]
fn generated_keypairs_differ() {
    let kp1 = Keypair::generate();
    let kp2 = Keypair::generate();
    assert_ne!(kp1.public_key(), kp2.public_key());
    assert_ne!(kp1.fingerprint(), kp2.fingerprint());
}

#[test]
fn public_key_matches_reference_derivation() {
    let seed = [7u8; 32];
    let kp = Keypair::from_secret(seed.to_vec());
    let expected = ed25519_dalek::SigningKey::from_bytes(&seed).verifying_key().to_bytes();
    assert_eq!(kp.public_key().as_slice(), expected.as_slice());
}

#[test]
fn fingerprint_matches_reference_digest() {
    let kp = Keypair::generate();
    let expected = sha3::Sha3_256::digest(kp.public_key().as_slice());
    assert_eq!(kp.fingerprint().as_slice(), expected.as_slice());
    assert_ne!(kp.fingerprint(), kp.public_key());
}

#[test]
fn signature_matches_reference_signing() {
    let seed = [9u8; 32];
    let kp = Keypair::from_secret(seed.to_vec());
    let payload = b"challenge bytes".to_vec();
    let envelope = SignedEnvelope::sign(payload.clone(), &kp);
    let wire = envelope.to_wire_text();
    // The last 128 wire bytes are the signature in hex.
    let sig_hex = &wire[wire.len() - 128..];
    let sig = hex_decode(sig_hex).unwrap();
    let expected = ed25519_dalek::SigningKey::from_bytes(&seed).sign(&payload).to_bytes();
    assert_eq!(sig.as_slice(), expected.as_slice());
}

#[test]
fn from_secret_is_deterministic() {
    let kp1 = Keypair::from_secret(vec![5u8; 32]);
    let kp2 = Keypair::from_secret(vec![5u8; 32]);
    assert_eq!(kp1.public_key(), kp2.public_key());
    assert_eq!(kp1.fingerprint(), kp2.fingerprint());
}
