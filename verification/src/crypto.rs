//! The cryptographic capability the handshake relies on: Ed25519 signing and
//! verification, a SHA3-256 key fingerprint, and operating-system randomness.
//!
//! Nothing cryptographic is implemented or verified here. Each operation is an
//! outside call behind a trusted wrapper, and what a signature *is* stays an
//! uninterpreted name: `sig_of`, `sig_ok`, `public_of` and `fp_of` are related
//! to one another only by the wrappers' contracts, which state the scheme's
//! documented behaviour. Everything proved about the handshake rests on those
//! contracts.

use ed25519_dalek::Signer;
use sha3::Digest;
use rand::RngCore;
use vstd::prelude::*;

verus! {

/// The Ed25519 verifying key derived from a 32-byte secret seed.
pub uninterp spec fn public_of(seed: Seq<u8>) -> Seq<u8>;

/// The detached Ed25519 signature over a message under a secret seed.
/// Ed25519 signing is deterministic, so this is a function of its arguments.
pub uninterp spec fn sig_of(seed: Seq<u8>, msg: Seq<u8>) -> Seq<u8>;

/// Whether a 64-byte signature verifies a message under a 32-byte public key.
pub uninterp spec fn sig_ok(pk: Seq<u8>, msg: Seq<u8>, sig: Seq<u8>) -> bool;

/// The SHA3-256 digest of a byte string, used as a key fingerprint.
pub uninterp spec fn fp_of(data: Seq<u8>) -> Seq<u8>;

/// Relies on rand's `OsRng::fill_bytes`: `len` bytes from the operating
/// system's entropy source. Nothing is promised of the value: two calls may
/// differ, and no caller may assume otherwise.
#[verifier::external_body]
pub(crate) fn os_random_bytes(len: usize) -> (r: Vec<u8>)
    ensures
        r@.len() == len,
{
    let mut buf = vec![0u8; len];
    rand::rngs::OsRng.fill_bytes(&mut buf);
    buf
}

/// Relies on ed25519_dalek's `SigningKey::from_bytes` (infallible for any 32
/// bytes) and `verifying_key`: the 32-byte public key is a deterministic
/// function of the seed.
#[verifier::external_body]
pub(crate) fn derive_public_key(seed: &[u8]) -> (r: Vec<u8>)
    requires
        seed@.len() == 32,
    ensures
        r@ == public_of(seed@),
        r@.len() == 32,
{
    let arr: [u8; 32] = seed.try_into().unwrap();
    let sk = ed25519_dalek::SigningKey::from_bytes(&arr);
    sk.verifying_key().to_bytes().to_vec()
}

/// Relies on ed25519_dalek's `Signer::sign`: deterministic RFC 8032 signing.
/// The last two clauses state the scheme's guarantee as the protocol model
/// takes it: a fresh signature verifies under the signer's own public key and
/// under no other, the computational unforgeability and key-binding of
/// Ed25519 (strict verification) read as absolute.
#[verifier::external_body]
pub(crate) fn sign_detached(seed: &[u8], msg: &[u8]) -> (r: Vec<u8>)
    requires
        seed@.len() == 32,
    ensures
        r@ == sig_of(seed@, msg@),
        r@.len() == 64,
        sig_ok(public_of(seed@), msg@, r@),
        forall|pk: Seq<u8>| pk != public_of(seed@) ==> !sig_ok(pk, msg@, r@),
{
    let arr: [u8; 32] = seed.try_into().unwrap();
    let sk = ed25519_dalek::SigningKey::from_bytes(&arr);
    sk.sign(msg).to_bytes().to_vec()
}

/// Relies on ed25519_dalek's `VerifyingKey::from_bytes` and `verify_strict`:
/// the boolean answer to whether the signature verifies the message under the
/// key. An unparseable key verifies nothing.
#[verifier::external_body]
pub(crate) fn verify_detached(pk: &[u8], msg: &[u8], sig: &[u8]) -> (r: bool)
    requires
        pk@.len() == 32,
        sig@.len() == 64,
    ensures
        r == sig_ok(pk@, msg@, sig@),
{
    let pa: [u8; 32] = pk.try_into().unwrap();
    let sa: [u8; 64] = sig.try_into().unwrap();
    match ed25519_dalek::VerifyingKey::from_bytes(&pa) {
        Ok(vk) => vk.verify_strict(msg, &ed25519_dalek::Signature::from_bytes(&sa)).is_ok(),
        Err(_) => false,
    }
}

/// Relies on sha3's `Sha3_256::digest`: the 32-byte digest is a deterministic
/// function of the input alone.
#[verifier::external_body]
pub(crate) fn sha3_256_digest(data: &[u8]) -> (r: Vec<u8>)
    ensures
        r@ == fp_of(data@),
        r@.len() == 32,
{
    sha3::Sha3_256::digest(data).to_vec()
}

} // verus!
