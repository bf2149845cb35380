//! The envelope's wire text: one self-describing printable block per
//! handshake step, round-tripping byte-exactly through encode and decode.
//!
//! Layout: a four-byte tag, then the signer fingerprint, the payload and the
//! signature, each as lower-case hex, the four parts separated by dots.
//! Fingerprint and signature have fixed sizes, so every field's position
//! follows from the text's length alone and the encoding is canonical:
//! decoding accepts exactly the encoder's output.

use vstd::prelude::*;
use crate::armor::DOT;
use crate::envelope::{EnvelopeModel, SignedEnvelope, PAYLOAD_MAX};
use crate::errors::ParseError;
use crate::hexcodec::{hex_decode, hex_encode, hex_of, lemma_hex_of_injective,
    lemma_hex_of_is_hex_seq};

verus! {

/// The tag that opens an envelope's wire text.
pub open spec fn env_tag() -> Seq<u8> {
    seq![0x77u8, 0x65u8, 0x76u8, 0x31u8]
}

/// The wire text of an envelope:
/// `tag . hex(fingerprint) . hex(payload) . hex(signature)`.
pub open spec fn wire_of(e: EnvelopeModel) -> Seq<u8> {
    env_tag() + seq![DOT] + hex_of(e.signer_fingerprint) + seq![DOT] + hex_of(e.payload) + seq![
        DOT,
    ] + hex_of(e.signature)
}

/// Where each part of a well-formed envelope's wire text stands.
pub proof fn lemma_wire_shape(e: EnvelopeModel)
    requires
        e.wf(),
    ensures
        wire_of(e).len() == 199 + 2 * e.payload.len() as int,
        wire_of(e)[0] == 0x77u8,
        wire_of(e)[1] == 0x65u8,
        wire_of(e)[2] == 0x76u8,
        wire_of(e)[3] == 0x31u8,
        wire_of(e)[4] == DOT,
        wire_of(e).subrange(5, 69) == hex_of(e.signer_fingerprint),
        wire_of(e)[69] == DOT,
        wire_of(e).subrange(70, 70 + 2 * e.payload.len() as int) == hex_of(e.payload),
        wire_of(e)[70 + 2 * e.payload.len() as int] == DOT,
        wire_of(e).subrange(71 + 2 * e.payload.len() as int, 199 + 2 * e.payload.len() as int)
            == hex_of(e.signature),
{
    let a = wire_of(e);
    assert(hex_of(e.signer_fingerprint).len() == 64);
    assert(hex_of(e.payload).len() == 2 * e.payload.len() as int);
    assert(hex_of(e.signature).len() == 128);
    assert(a.len() == 199 + 2 * e.payload.len() as int);
    assert(a.subrange(5, 69) =~= hex_of(e.signer_fingerprint));
    assert(a.subrange(70, 70 + 2 * e.payload.len() as int) =~= hex_of(e.payload));
    assert(a.subrange(71 + 2 * e.payload.len() as int, 199 + 2 * e.payload.len() as int)
        =~= hex_of(e.signature));
}

/// The wire encoding is injective: equal wire texts carry equal envelopes.
/// With the decoder's contract this makes the codec a byte-exact round trip
/// in both directions.
pub proof fn lemma_wire_of_injective(e1: EnvelopeModel, e2: EnvelopeModel)
    requires
        e1.wf(),
        e2.wf(),
        wire_of(e1) == wire_of(e2),
    ensures
        e1 == e2,
{
    lemma_wire_shape(e1);
    lemma_wire_shape(e2);
    assert(e1.payload.len() == e2.payload.len());
    assert(hex_of(e1.signer_fingerprint) == hex_of(e2.signer_fingerprint));
    assert(hex_of(e1.payload) == hex_of(e2.payload));
    assert(hex_of(e1.signature) == hex_of(e2.signature));
    lemma_hex_of_injective(e1.signer_fingerprint, e2.signer_fingerprint);
    lemma_hex_of_injective(e1.payload, e2.payload);
    lemma_hex_of_injective(e1.signature, e2.signature);
    assert(e1 =~= e2);
}

impl SignedEnvelope {
    /// Encodes the envelope as its printable wire text.
    pub fn to_wire_text(&self) -> (r: Vec<u8>)
        requires
            self@.wf(),
        ensures
            r@ == wire_of(self@),
    {
        let mut out: Vec<u8> = Vec::new();
        out.push(0x77);
        out.push(0x65);
        out.push(0x76);
        out.push(0x31);
        out.push(DOT);
        let mut fp_hex = hex_encode(self.signer_fingerprint_slice());
        out.append(&mut fp_hex);
        out.push(DOT);
        let mut payload_hex = hex_encode(self.payload_slice());
        out.append(&mut payload_hex);
        out.push(DOT);
        let mut sig_hex = hex_encode(self.signature_slice());
        out.append(&mut sig_hex);
        proof {
            assert(out@ =~= wire_of(self@));
        }
        out
    }

    /// Decodes a wire text back into the envelope it encodes. Exactly the
    /// well-formed encodings are accepted, and acceptance pins the text: a
    /// decoded envelope re-encodes to the very input.
    pub fn from_wire_text(text: &[u8]) -> (r: Result<SignedEnvelope, ParseError>)
        ensures
            match r {
                Ok(e) => e@.wf() && text@ == wire_of(e@),
                Err(pe) => {
                    &&& pe == ParseError::Malformed
                    &&& forall|m: EnvelopeModel| m.wf() ==> text@ != wire_of(m)
                },
            },
    {
        let n = text.len();
        if n < 199 || text[0] != 0x77 || text[1] != 0x65 || text[2] != 0x76 || text[3] != 0x31
            || text[4] != DOT || text[69] != DOT || text[n - 129] != DOT {
            proof {
                assert forall|m: EnvelopeModel| m.wf() implies text@ != wire_of(m) by {
                    if text@ == wire_of(m) {
                        lemma_wire_shape(m);
                        assert(70 + 2 * m.payload.len() as int == n - 129);
                    }
                }
            }
            return Err(ParseError::Malformed);
        }
        let fp_hex = vstd::slice::slice_subrange(text, 5, 69);
        let payload_hex = vstd::slice::slice_subrange(text, 70, n - 129);
        let sig_hex = vstd::slice::slice_subrange(text, n - 128, n);
        let fp = match hex_decode(fp_hex) {
            Some(v) => v,
            None => {
                proof {
                    assert forall|m: EnvelopeModel| m.wf() implies text@ != wire_of(m) by {
                        if text@ == wire_of(m) {
                            lemma_wire_shape(m);
                            assert(fp_hex@ == hex_of(m.signer_fingerprint));
                            lemma_hex_of_is_hex_seq(m.signer_fingerprint);
                        }
                    }
                }
                return Err(ParseError::Malformed);
            },
        };
        let payload = match hex_decode(payload_hex) {
            Some(v) => v,
            None => {
                proof {
                    assert forall|m: EnvelopeModel| m.wf() implies text@ != wire_of(m) by {
                        if text@ == wire_of(m) {
                            lemma_wire_shape(m);
                            assert(70 + 2 * m.payload.len() as int == n - 129);
                            assert(payload_hex@ == text@.subrange(
                                70,
                                70 + 2 * m.payload.len() as int,
                            ));
                            assert(payload_hex@ == hex_of(m.payload));
                            lemma_hex_of_is_hex_seq(m.payload);
                        }
                    }
                }
                return Err(ParseError::Malformed);
            },
        };
        let sig = match hex_decode(sig_hex) {
            Some(v) => v,
            None => {
                proof {
                    assert forall|m: EnvelopeModel| m.wf() implies text@ != wire_of(m) by {
                        if text@ == wire_of(m) {
                            lemma_wire_shape(m);
                            assert(71 + 2 * m.payload.len() as int == n - 128);
                            assert(sig_hex@ == text@.subrange(
                                71 + 2 * m.payload.len() as int,
                                199 + 2 * m.payload.len() as int,
                            ));
                            assert(sig_hex@ == hex_of(m.signature));
                            lemma_hex_of_is_hex_seq(m.signature);
                        }
                    }
                }
                return Err(ParseError::Malformed);
            },
        };
        if payload.len() > PAYLOAD_MAX {
            proof {
                assert forall|m: EnvelopeModel| m.wf() implies text@ != wire_of(m) by {
                    if text@ == wire_of(m) {
                        lemma_wire_shape(m);
                        assert(2 * m.payload.len() as int == n - 199);
                        assert(2 * payload@.len() == payload_hex@.len());
                    }
                }
            }
            return Err(ParseError::Malformed);
        }
        let e = SignedEnvelope::from_parts(payload, fp, sig);
        proof {
            assert(e@.wf());
            lemma_wire_shape(e@);
            let a = wire_of(e@);
            assert(2 * e@.payload.len() as int == payload_hex@.len());
            assert(payload_hex@.len() == n - 199);
            assert(a.len() == n);
            assert forall|i: int| 0 <= i < n implies text@[i] == a[i] by {
                let p2 = 2 * e@.payload.len() as int;
                if i < 5 {
                } else if i < 69 {
                    assert(a.subrange(5, 69)[i - 5] == a[i]);
                    assert(hex_of(e@.signer_fingerprint)[i - 5] == fp_hex@[i - 5]);
                    assert(fp_hex@[i - 5] == text@[i]);
                } else if i == 69 {
                } else if i < 70 + p2 {
                    assert(a.subrange(70, 70 + p2)[i - 70] == a[i]);
                    assert(hex_of(e@.payload)[i - 70] == payload_hex@[i - 70]);
                    assert(payload_hex@[i - 70] == text@[i]);
                } else if i == 70 + p2 {
                } else {
                    assert(a.subrange(71 + p2, 199 + p2)[i - (71 + p2)] == a[i]);
                    assert(hex_of(e@.signature)[i - (71 + p2)] == sig_hex@[i - (71 + p2)]);
                    assert(sig_hex@[i - (71 + p2)] == text@[i]);
                }
            }
            assert(text@ =~= a);
        }
        Ok(e)
    }
}

} // verus!
