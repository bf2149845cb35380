//! The key store's load-or-create lifecycle over in-memory file contents:
//! creation on first run, stable identity across reloads, and hard failure
//! on corrupt persisted state.

use wicrs_handshake::errors::KeyStoreError;
use wicrs_handshake::keystore::{load_or_create_step, persist_encoding, resolve_persisted,
    LoadOutcome};

#[test]
fn fresh_environment_creates_then_reloads_same_fingerprint() {
    // First run: nothing persisted.
    let outcome = load_or_create_step(b"client", None, None).unwrap();
    let (kp1, priv_file, pub_file) = match outcome {
        LoadOutcome::Created(kp, p, q) => (kp, p, q),
        LoadOutcome::Loaded(_) => panic!("nothing was persisted yet"),
    };
    let fp1 = kp1.fingerprint().clone();
    // Restart: the files written on the first run are read back.
    let outcome = load_or_create_step(b"client", Some(&priv_file), Some(&pub_file)).unwrap();
    match outcome {
        LoadOutcome::Loaded(kp2) => assert_eq!(kp2.fingerprint(), &fp1),
        LoadOutcome::Created(..) => panic!("persisted keys must be loaded, not regenerated"),
    }
}

#[test]
fn repeated_loads_yield_identical_fingerprints() {
    let outcome = load_or_create_step(b"id", None, None).unwrap();
    let (priv_file, pub_file) = match outcome {
        LoadOutcome::Created(_, p, q) => (p, q),
        LoadOutcome::Loaded(_) => panic!("nothing was persisted yet"),
    };
    let kp_a = match resolve_persisted(Some(&priv_file), Some(&pub_file)).unwrap() {
        Some(kp) => kp,
        None => panic!("both files are present"),
    };
    let kp_b = match resolve_persisted(Some(&priv_file), Some(&pub_file)).unwrap() {
        Some(kp) => kp,
        None => panic!("both files are present"),
    };
    assert_eq!(kp_a.fingerprint(), kp_b.fingerprint());
    assert_eq!(kp_a.public_key(), kp_b.public_key());
}

#[test]
fn truncated_private_file_is_corrupt_not_regenerated() {
    let outcome = load_or_create_step(b"id", None, None).unwrap();
    let (priv_file, pub_file) = match outcome {
        LoadOutcome::Created(_, p, q) => (p, q),
        LoadOutcome::Loaded(_) => panic!("nothing was persisted yet"),
    };
    let truncated = priv_file[..priv_file.len() - 3].to_vec();
    let result = load_or_create_step(b"id", Some(&truncated), Some(&pub_file));
    assert!(matches!(result, Err(KeyStoreError::Corrupt)));
}

#[test]
fn missing_half_is_corrupt() {
    let outcome = load_or_create_step(b"id", None, None).unwrap();
    let (priv_file, pub_file) = match outcome {
        LoadOutcome::Created(_, p, q) => (p, q),
        LoadOutcome::Loaded(_) => panic!("nothing was persisted yet"),
    };
    assert!(matches!(
        resolve_persisted(Some(&priv_file), None),
        Err(KeyStoreError::Corrupt)
    ));
    assert!(matches!(
        resolve_persisted(None, Some(&pub_file)),
        Err(KeyStoreError::Corrupt)
    ));
}

#[test]
fn mismatched_pair_is_corrupt() {
    let first = load_or_create_step(b"id", None, None).unwrap();
    let second = load_or_create_step(b"id", None, None).unwrap();
    let (priv_file, _) = match first {
        LoadOutcome::Created(_, p, q) => (p, q),
        LoadOutcome::Loaded(_) => panic!("nothing was persisted yet"),
    };
    let (_, other_pub) = match second {
        LoadOutcome::Created(_, p, q) => (p, q),
        LoadOutcome::Loaded(_) => panic!("nothing was persisted yet"),
    };
    // The public file belongs to a different keypair.
    let result = resolve_persisted(Some(&priv_file), Some(&other_pub));
    assert!(matches!(result, Err(KeyStoreError::Corrupt)));
}

#[test]
fn persisted_labels_must_agree() {
    let outcome = load_or_create_step(b"one", None, None).unwrap();
    let (kp, priv_file, _) = match outcome {
        LoadOutcome::Created(kp, p, q) => (kp, p, q),
        LoadOutcome::Loaded(_) => panic!("nothing was persisted yet"),
    };
    let (_, pub_other_label) = persist_encoding(&kp, b"two");
    let result = resolve_persisted(Some(&priv_file), Some(&pub_other_label));
    assert!(matches!(result, Err(KeyStoreError::Corrupt)));
}

#[test]
fn private_file_never_holds_public_armor_tag() {
    let kp_outcome = load_or_create_step(b"id", None, None).unwrap();
    let (priv_file, pub_file) = match kp_outcome {
        LoadOutcome::Created(_, p, q) => (p, q),
        LoadOutcome::Loaded(_) => panic!("nothing was persisted yet"),
    };
    // Swapping the two files is corrupt persisted state, not a keypair.
    let result = resolve_persisted(Some(&pub_file), Some(&priv_file));
    assert!(matches!(result, Err(KeyStoreError::Corrupt)));
}
