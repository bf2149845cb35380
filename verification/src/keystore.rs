//! The key store's lifecycle decisions: when a persisted keypair is loaded,
//! when a fresh one is created and persisted, and when the persisted state is
//! corrupt. Reading and writing the two files is the caller's concern; this
//! module fixes, byte-exactly, what the files hold and what they resolve to.
//!
//! Corruption is a hard failure, never a silent regeneration: a fresh key
//! would discard the identity any server has already pinned.

use vstd::prelude::*;
use crate::armor::{armor_of, encode_armor, lemma_armor_injective, parse_armor};
use crate::bytesutil::bytes_eq;
use crate::errors::KeyStoreError;
use crate::keys::{pub_armor_of, Keypair, KeypairModel};

verus! {

/// The tag that opens an armored secret-key block.
pub open spec fn sec_tag() -> Seq<u8> {
    seq![0x77u8, 0x73u8, 0x6bu8, 0x31u8]
}

/// The armored text of a labelled secret seed: the private key file's
/// contents.
pub open spec fn sec_armor_of(label: Seq<u8>, seed: Seq<u8>) -> Seq<u8> {
    armor_of(sec_tag(), label, seed)
}

/// A valid persisted pair of files for a keypair under a label: the private
/// file armors the secret seed, the public file armors exactly the public
/// key derived from that seed, both under the same label.
pub open spec fn valid_persisted_pair(
    priv_text: Seq<u8>,
    pub_text: Seq<u8>,
    kp: KeypairModel,
    label: Seq<u8>,
) -> bool {
    &&& kp.wf()
    &&& priv_text == sec_armor_of(label, kp.secret)
    &&& pub_text == pub_armor_of(label, kp.public)
}

/// A persisted private file names one keypair: two keypairs and labels that
/// armor to the same pair of files are the same. Loading is deterministic,
/// so a reloaded identity keeps its fingerprint.
pub proof fn lemma_persisted_identity_stable(
    priv_text: Seq<u8>,
    pub_text: Seq<u8>,
    kp1: KeypairModel,
    l1: Seq<u8>,
    kp2: KeypairModel,
    l2: Seq<u8>,
)
    requires
        valid_persisted_pair(priv_text, pub_text, kp1, l1),
        valid_persisted_pair(priv_text, pub_text, kp2, l2),
    ensures
        kp1 == kp2,
        l1 == l2,
{
    lemma_armor_injective(sec_tag(), l1, kp1.secret, l2, kp2.secret);
    assert(kp1 =~= kp2);
}

/// The two files that persist a keypair under a label: the private file
/// (restricted access) and the shareable public file.
pub fn persist_encoding(kp: &Keypair, label: &[u8]) -> (r: (Vec<u8>, Vec<u8>))
    requires
        kp@.wf(),
    ensures
        r.0@ == sec_armor_of(label@, kp@.secret),
        r.1@ == pub_armor_of(label@, kp@.public),
        valid_persisted_pair(r.0@, r.1@, kp@, label@),
{
    let priv_text = encode_armor(0x77, 0x73, 0x6b, 0x31, label, kp.secret_seed().as_slice());
    let pub_text = kp.export_public_armor(label);
    (priv_text, pub_text)
}

/// What one load-or-create attempt decided.
pub enum LoadOutcome {
    /// Both files existed and held a valid matching keypair: here it is.
    Loaded(Keypair),
    /// No persisted state existed: a fresh keypair, and the two file
    /// contents the caller must persist before using it.
    Created(Keypair, Vec<u8>, Vec<u8>),
}

/// Resolves the persisted state at the configured paths, handed in as the
/// files' contents (`None` where the file does not exist). Returns the
/// persisted keypair when both files hold a valid matching pair, decides to
/// create when no persisted state exists at all, and reports any other state
/// — a missing half, an unparseable file, a public file that does not match
/// the private one — as `Corrupt`.
pub fn resolve_persisted(priv_file: Option<&Vec<u8>>, pub_file: Option<&Vec<u8>>) -> (r: Result<
    Option<Keypair>,
    KeyStoreError,
>)
    ensures
        match r {
            Ok(opt) => match opt {
                Some(kp) => {
                    &&& kp@.wf()
                    &&& priv_file is Some
                    &&& pub_file is Some
                    &&& exists|l: Seq<u8>|
                        valid_persisted_pair((priv_file->0)@, (pub_file->0)@, kp@, l)
                },
                None => priv_file is None && pub_file is None,
            },
            Err(e) => {
                &&& e == KeyStoreError::Corrupt
                &&& !(priv_file is None && pub_file is None)
                &&& priv_file is Some && pub_file is Some ==> forall|
                    kp: KeypairModel,
                    l: Seq<u8>,
                | !valid_persisted_pair((priv_file->0)@, (pub_file->0)@, kp, l)
            },
        },
{
    match (priv_file, pub_file) {
        (None, None) => Ok(None),
        (Some(p), Some(q)) => {
            let parsed_priv = match parse_armor(p.as_slice(), 0x77, 0x73, 0x6b, 0x31) {
                Some(parts) => parts,
                None => {
                    proof {
                        assert forall|kp: KeypairModel, l: Seq<u8>| !valid_persisted_pair(
                            p@,
                            q@,
                            kp,
                            l,
                        ) by {
                            if valid_persisted_pair(p@, q@, kp, l) {
                                assert(p@ == armor_of(sec_tag(), l, kp.secret));
                            }
                        }
                    }
                    return Err(KeyStoreError::Corrupt);
                },
            };
            let (label_p, seed) = parsed_priv;
            let parsed_pub = match parse_armor(q.as_slice(), 0x77, 0x70, 0x6b, 0x31) {
                Some(parts) => parts,
                None => {
                    proof {
                        assert forall|kp: KeypairModel, l: Seq<u8>| !valid_persisted_pair(
                            p@,
                            q@,
                            kp,
                            l,
                        ) by {
                            if valid_persisted_pair(p@, q@, kp, l) {
                                assert(q@ == pub_armor_of(l, kp.public));
                            }
                        }
                    }
                    return Err(KeyStoreError::Corrupt);
                },
            };
            let (label_q, pk) = parsed_pub;
            let kp = Keypair::from_secret(seed);
            let labels_match = bytes_eq(label_p.as_slice(), label_q.as_slice());
            let key_matches = bytes_eq(kp.public_key().as_slice(), pk.as_slice());
            if labels_match && key_matches {
                proof {
                    assert(q@ == pub_armor_of(label_p@, kp@.public));
                    assert(valid_persisted_pair(p@, q@, kp@, label_p@));
                }
                Ok(Some(kp))
            } else {
                proof {
                    assert forall|m: KeypairModel, l: Seq<u8>| !valid_persisted_pair(
                        p@,
                        q@,
                        m,
                        l,
                    ) by {
                        if valid_persisted_pair(p@, q@, m, l) {
                            lemma_armor_injective(sec_tag(), label_p@, kp@.secret, l, m.secret);
                            lemma_armor_injective(
                                crate::keys::pub_tag(),
                                label_q@,
                                pk@,
                                l,
                                m.public,
                            );
                        }
                    }
                }
                Err(KeyStoreError::Corrupt)
            }
        },
        _ => Err(KeyStoreError::Corrupt),
    }
}

/// One load-or-create attempt over the persisted state, handed in as file
/// contents. Loads a valid persisted pair; creates a fresh keypair, together
/// with the exact file contents to persist, when nothing is persisted yet;
/// fails with `Corrupt` on any other persisted state. The label only marks
/// newly created files: a loaded pair keeps whatever label it was persisted
/// under.
pub fn load_or_create_step(
    label: &[u8],
    priv_file: Option<&Vec<u8>>,
    pub_file: Option<&Vec<u8>>,
) -> (r: Result<LoadOutcome, KeyStoreError>)
    ensures
        match r {
            Ok(outcome) => match outcome {
                LoadOutcome::Loaded(kp) => {
                    &&& kp@.wf()
                    &&& priv_file is Some
                    &&& pub_file is Some
                    &&& exists|l: Seq<u8>|
                        valid_persisted_pair((priv_file->0)@, (pub_file->0)@, kp@, l)
                },
                LoadOutcome::Created(kp, pf, qf) => {
                    &&& kp@.wf()
                    &&& priv_file is None && pub_file is None
                    &&& valid_persisted_pair(pf@, qf@, kp@, label@)
                },
            },
            Err(e) => {
                &&& e == KeyStoreError::Corrupt
                &&& !(priv_file is None && pub_file is None)
                &&& priv_file is Some && pub_file is Some ==> forall|
                    kp: KeypairModel,
                    l: Seq<u8>,
                | !valid_persisted_pair((priv_file->0)@, (pub_file->0)@, kp, l)
            },
        },
{
    match resolve_persisted(priv_file, pub_file) {
        Ok(Some(kp)) => Ok(LoadOutcome::Loaded(kp)),
        Ok(None) => {
            let kp = Keypair::generate();
            let (priv_text, pub_text) = persist_encoding(&kp, label);
            Ok(LoadOutcome::Created(kp, priv_text, pub_text))
        },
        Err(e) => Err(e),
    }
}

} // verus!
