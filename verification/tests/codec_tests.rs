//! The printable encodings: hex, the armored key blocks, and the envelope
//! wire text, with their round trips and their rejection of damaged input.

use wicrs_handshake::envelope::SignedEnvelope;
use wicrs_handshake::errors::{ParseError, TrustAnchorError};
use wicrs_handshake::hexcodec::{hex_decode, hex_encode};
use wicrs_handshake::keys::{Keypair, PublicIdentity};

#[test]
fn hex_encode_exact_value() {
    let encoded = hex_encode(&[0x00, 0xff, 0x1a, 0x2e]);
    assert_eq!(encoded, b"00ff1a2e".to_vec());
}

#[test]
fn hex_decode_exact_value() {
    let decoded = hex_decode(b"00ff1a2e").unwrap();
    assert_eq!(decoded, vec![0x00, 0xff, 0x1a, 0x2e]);
}

#[test]
fn hex_round_trip_empty() {
    let encoded = hex_encode(&[]);
    assert_eq!(encoded.len(), 0);
    assert_eq!(hex_decode(&encoded).unwrap().len(), 0);
}

#[test]
fn hex_decode_rejects_odd_length() {
    assert!(hex_decode(b"abc").is_none());
}

#[test]
fn hex_decode_rejects_non_digits() {
    assert!(hex_decode(b"zz").is_none());
    assert!(hex_decode(b"AB").is_none(), "upper case is not canonical");
    assert!(hex_decode(b"0.").is_none());
}

#[test]
fn wire_round_trip_is_byte_exact() {
    let kp = Keypair::generate();
    let payload = vec![7u8, 0, 255, 46, 46];
    let envelope = SignedEnvelope::sign(payload.clone(), &kp);
    let wire = envelope.to_wire_text();
    let decoded = SignedEnvelope::from_wire_text(&wire).unwrap();
    assert_eq!(decoded.to_wire_text(), wire);
    let verified = kp.public_identity().verify(&decoded).unwrap();
    assert_eq!(verified.get_payload(), &payload);
}

#[test]
fn wire_text_is_printable_ascii() {
    let kp = Keypair::generate();
    let envelope = SignedEnvelope::sign(b"binary \x00\xff payload".to_vec(), &kp);
    let wire = envelope.to_wire_text();
    for b in wire {
        assert!(b == b'.' || b.is_ascii_alphanumeric());
    }
}

#[test]
fn truncated_wire_rejected() {
    let kp = Keypair::generate();
    let wire = SignedEnvelope::sign(b"tok".to_vec(), &kp).to_wire_text();
    for cut in [0, 1, 5, 69, wire.len() - 1] {
        let r = SignedEnvelope::from_wire_text(&wire[..cut]);
        assert!(matches!(r, Err(ParseError::Malformed)));
    }
}

#[test]
fn mutated_wire_rejected_at_every_position() {
    let kp = Keypair::generate();
    let identity = kp.public_identity();
    let wire = SignedEnvelope::sign(b"payload!".to_vec(), &kp).to_wire_text();
    for i in 0..wire.len() {
        let mut mutated = wire.clone();
        // Replace the byte with a different hex digit, so damage inside a
        // hex field still parses and must be caught by verification.
        mutated[i] = if mutated[i] == b'3' { b'4' } else { b'3' };
        assert_ne!(mutated, wire);
        match SignedEnvelope::from_wire_text(&mutated) {
            Err(ParseError::Malformed) => {},
            Ok(decoded) => {
                assert!(
                    identity.verify(&decoded).is_err(),
                    "mutation at {} must not verify",
                    i
                );
            },
        }
    }
}

#[test]
fn garbage_wire_rejected() {
    assert!(SignedEnvelope::from_wire_text(b"").is_err());
    assert!(SignedEnvelope::from_wire_text(b"not an envelope").is_err());
    let long = vec![b'a'; 500];
    assert!(SignedEnvelope::from_wire_text(&long).is_err());
}

#[test]
fn public_armor_round_trip() {
    let kp = Keypair::generate();
    let armor = kp.export_public_armor(b"client-main");
    let anchor = PublicIdentity::from_armored_text(&armor).unwrap();
    assert_eq!(anchor.public_key(), kp.public_key());
    assert_eq!(anchor.fingerprint(), kp.fingerprint());
}

#[test]
fn public_armor_empty_label_round_trip() {
    let kp = Keypair::generate();
    let armor = kp.export_public_armor(b"");
    let anchor = PublicIdentity::from_armored_text(&armor).unwrap();
    assert_eq!(anchor.public_key(), kp.public_key());
}

#[test]
fn malformed_armor_rejected() {
    let kp = Keypair::generate();
    let armor = kp.export_public_armor(b"label");
    assert!(matches!(
        PublicIdentity::from_armored_text(b""),
        Err(TrustAnchorError::Malformed)
    ));
    assert!(PublicIdentity::from_armored_text(&armor[..armor.len() - 1]).is_err());
    let mut wrong_tag = armor.clone();
    wrong_tag[0] = b'x';
    assert!(PublicIdentity::from_armored_text(&wrong_tag).is_err());
}
