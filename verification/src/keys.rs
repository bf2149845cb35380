//! The identity types: a long-lived signing keypair and the public identity a
//! peer is known by (public key plus fingerprint). The server's known
//! identity — the trust anchor — arrives as an armored public-key text
//! obtained out of band and is parsed here.

use vstd::prelude::*;
use crate::armor::{armor_of, encode_armor, parse_armor};
use crate::crypto::{derive_public_key, fp_of, os_random_bytes, public_of, sha3_256_digest};
use crate::errors::TrustAnchorError;

verus! {

/// Mathematical model of a keypair: the 32-byte secret seed, the public key
/// derived from it, and the public key's fingerprint.
#[verifier::ext_equal]
pub ghost struct KeypairModel {
    pub secret: Seq<u8>,
    pub public: Seq<u8>,
    pub fingerprint: Seq<u8>,
}

/// Mathematical model of a public identity.
#[verifier::ext_equal]
pub ghost struct IdentityModel {
    pub public: Seq<u8>,
    pub fingerprint: Seq<u8>,
}

impl IdentityModel {
    /// A well-formed identity: a 32-byte key under its own fingerprint.
    pub open spec fn wf(self) -> bool {
        &&& self.public.len() == 32
        &&& self.fingerprint == fp_of(self.public)
        &&& self.fingerprint.len() == 32
    }
}

impl KeypairModel {
    /// A well-formed keypair: the public half is derived from the secret
    /// half, and the fingerprint digests the public half.
    pub open spec fn wf(self) -> bool {
        &&& self.secret.len() == 32
        &&& self.public == public_of(self.secret)
        &&& self.public.len() == 32
        &&& self.fingerprint == fp_of(self.public)
        &&& self.fingerprint.len() == 32
    }

    /// The identity this keypair advertises.
    pub open spec fn identity(self) -> IdentityModel {
        IdentityModel { public: self.public, fingerprint: self.fingerprint }
    }
}

/// A long-lived signing keypair. The secret half never appears in any wire
/// or armored form this crate produces.
pub struct Keypair {
    secret: Vec<u8>,
    public: Vec<u8>,
    fingerprint: Vec<u8>,
}

impl View for Keypair {
    type V = KeypairModel;

    closed spec fn view(&self) -> KeypairModel {
        KeypairModel {
            secret: self.secret@,
            public: self.public@,
            fingerprint: self.fingerprint@,
        }
    }
}

/// A peer's public identity: its public key and that key's fingerprint.
pub struct PublicIdentity {
    public: Vec<u8>,
    fingerprint: Vec<u8>,
}

impl View for PublicIdentity {
    type V = IdentityModel;

    closed spec fn view(&self) -> IdentityModel {
        IdentityModel { public: self.public@, fingerprint: self.fingerprint@ }
    }
}

/// The tag that opens an armored public-key block.
pub open spec fn pub_tag() -> Seq<u8> {
    seq![0x77u8, 0x70u8, 0x6bu8, 0x31u8]
}

/// The armored text of a labelled public key.
pub open spec fn pub_armor_of(label: Seq<u8>, pk: Seq<u8>) -> Seq<u8> {
    armor_of(pub_tag(), label, pk)
}

impl Keypair {
    /// Generates a fresh keypair from operating-system randomness.
    pub fn generate() -> (r: Keypair)
        ensures
            r@.wf(),
    {
        let secret = os_random_bytes(32);
        let public = derive_public_key(secret.as_slice());
        let fingerprint = sha3_256_digest(public.as_slice());
        Keypair { secret, public, fingerprint }
    }

    /// Reassembles a keypair from its 32-byte secret seed.
    pub fn from_secret(secret: Vec<u8>) -> (r: Keypair)
        requires
            secret@.len() == 32,
        ensures
            r@.wf(),
            r@.secret == secret@,
    {
        let public = derive_public_key(secret.as_slice());
        let fingerprint = sha3_256_digest(public.as_slice());
        Keypair { secret, public, fingerprint }
    }

    /// The public identity this keypair proves control of.
    pub fn public_identity(&self) -> (r: PublicIdentity)
        requires
            self@.wf(),
        ensures
            r@ == self@.identity(),
            r@.wf(),
    {
        PublicIdentity {
            public: vstd::slice::slice_to_vec(self.public.as_slice()),
            fingerprint: vstd::slice::slice_to_vec(self.fingerprint.as_slice()),
        }
    }

    /// The public half's key bytes.
    pub fn public_key(&self) -> (r: &Vec<u8>)
        ensures
            r@ == self@.public,
    {
        &self.public
    }

    /// The fingerprint of the public half.
    pub fn fingerprint(&self) -> (r: &Vec<u8>)
        ensures
            r@ == self@.fingerprint,
    {
        &self.fingerprint
    }

    /// The secret seed, for signing and for persisting. Never placed on the
    /// wire by this crate.
    pub(crate) fn secret_seed(&self) -> (r: &Vec<u8>)
        ensures
            r@ == self@.secret,
    {
        &self.secret
    }

    /// An identical keypair, for a further handshake attempt.
    pub fn duplicate(&self) -> (r: Keypair)
        ensures
            r@ == self@,
    {
        Keypair {
            secret: vstd::slice::slice_to_vec(self.secret.as_slice()),
            public: vstd::slice::slice_to_vec(self.public.as_slice()),
            fingerprint: vstd::slice::slice_to_vec(self.fingerprint.as_slice()),
        }
    }

    /// The shareable armored text of the public half, under a label.
    pub fn export_public_armor(&self, label: &[u8]) -> (r: Vec<u8>)
        requires
            self@.wf(),
        ensures
            r@ == pub_armor_of(label@, self@.public),
    {
        encode_armor(0x77, 0x70, 0x6b, 0x31, label, self.public.as_slice())
    }
}

impl PublicIdentity {
    /// Parses a single armored public-key block, as obtained out of band,
    /// into the identity it names. Exactly the well-formed blocks are
    /// accepted, and the fingerprint is computed from the key itself.
    pub fn from_armored_text(text: &[u8]) -> (r: Result<PublicIdentity, TrustAnchorError>)
        ensures
            match r {
                Ok(id) => id@.wf() && (exists|l: Seq<u8>| text@ == pub_armor_of(l, id@.public)),
                Err(e) => {
                    &&& e == TrustAnchorError::Malformed
                    &&& forall|l: Seq<u8>, pk: Seq<u8>|
                        pk.len() == 32 ==> text@ != pub_armor_of(l, pk)
                },
            },
    {
        match parse_armor(text, 0x77, 0x70, 0x6b, 0x31) {
            Some((label, public)) => {
                let fingerprint = sha3_256_digest(public.as_slice());
                let id = PublicIdentity { public, fingerprint };
                proof {
                    assert(text@ == pub_armor_of(label@, id@.public));
                }
                Ok(id)
            },
            None => Err(TrustAnchorError::Malformed),
        }
    }

    /// The identity's public key bytes.
    pub fn public_key(&self) -> (r: &Vec<u8>)
        ensures
            r@ == self@.public,
    {
        &self.public
    }

    /// The identity's fingerprint.
    pub fn fingerprint(&self) -> (r: &Vec<u8>)
        ensures
            r@ == self@.fingerprint,
    {
        &self.fingerprint
    }

    /// An identical identity, for a further handshake attempt.
    pub fn duplicate(&self) -> (r: PublicIdentity)
        ensures
            r@ == self@,
    {
        PublicIdentity {
            public: vstd::slice::slice_to_vec(self.public.as_slice()),
            fingerprint: vstd::slice::slice_to_vec(self.fingerprint.as_slice()),
        }
    }
}

} // verus!
