//! The armored text form shared by the persisted key files and the
//! trust-anchor input: a four-byte tag naming the block kind, then the label
//! and the 32-byte key, each as lower-case hex, the three parts separated by
//! dots. Printable, canonical, and parsed back byte-exactly.

use vstd::prelude::*;
use crate::hexcodec::{hex_decode, hex_encode, hex_of, lemma_hex_of_injective,
    lemma_hex_of_is_hex_seq};

verus! {

/// The separator between the tag, the label and the key.
pub const DOT: u8 = 0x2e;

/// The armored text of a tagged block: `tag . hex(label) . hex(key)`.
pub open spec fn armor_of(tag: Seq<u8>, label: Seq<u8>, key: Seq<u8>) -> Seq<u8> {
    tag + seq![DOT] + hex_of(label) + seq![DOT] + hex_of(key)
}

/// Where each part of an armored block stands in the text.
pub proof fn lemma_armor_shape(tag: Seq<u8>, l: Seq<u8>, k: Seq<u8>)
    requires
        tag.len() == 4,
        k.len() == 32,
    ensures
        armor_of(tag, l, k).len() == 70 + 2 * l.len() as int,
        armor_of(tag, l, k).subrange(0, 4) == tag,
        armor_of(tag, l, k)[0] == tag[0],
        armor_of(tag, l, k)[1] == tag[1],
        armor_of(tag, l, k)[2] == tag[2],
        armor_of(tag, l, k)[3] == tag[3],
        armor_of(tag, l, k)[4] == DOT,
        armor_of(tag, l, k).subrange(5, 5 + 2 * l.len() as int) == hex_of(l),
        armor_of(tag, l, k)[5 + 2 * l.len() as int] == DOT,
        armor_of(tag, l, k).subrange(6 + 2 * l.len() as int, 70 + 2 * l.len() as int) == hex_of(k),
{
    let a = armor_of(tag, l, k);
    assert(hex_of(l).len() == 2 * l.len() as int);
    assert(hex_of(k).len() == 64);
    assert(a.len() == 70 + 2 * l.len() as int);
    assert(a.subrange(0, 4) =~= tag);
    assert(a.subrange(5, 5 + 2 * l.len() as int) =~= hex_of(l));
    assert(a.subrange(6 + 2 * l.len() as int, 70 + 2 * l.len() as int) =~= hex_of(k));
}

/// Armored texts with one tag are distinct for distinct contents.
pub proof fn lemma_armor_injective(tag: Seq<u8>, l1: Seq<u8>, k1: Seq<u8>, l2: Seq<u8>, k2: Seq<u8>)
    requires
        tag.len() == 4,
        k1.len() == 32,
        k2.len() == 32,
        armor_of(tag, l1, k1) == armor_of(tag, l2, k2),
    ensures
        l1 == l2,
        k1 == k2,
{
    lemma_armor_shape(tag, l1, k1);
    lemma_armor_shape(tag, l2, k2);
    assert(l1.len() == l2.len());
    assert(hex_of(l1) == hex_of(l2));
    assert(hex_of(k1) == hex_of(k2));
    lemma_hex_of_injective(l1, l2);
    lemma_hex_of_injective(k1, k2);
}

/// Encodes a labelled key as a tagged armored block.
pub fn encode_armor(t0: u8, t1: u8, t2: u8, t3: u8, label: &[u8], key: &[u8]) -> (r: Vec<u8>)
    requires
        key@.len() == 32,
    ensures
        r@ == armor_of(seq![t0, t1, t2, t3], label@, key@),
{
    let mut out: Vec<u8> = Vec::new();
    out.push(t0);
    out.push(t1);
    out.push(t2);
    out.push(t3);
    out.push(DOT);
    let mut label_hex = hex_encode(label);
    out.append(&mut label_hex);
    out.push(DOT);
    let mut key_hex = hex_encode(key);
    out.append(&mut key_hex);
    proof {
        assert(out@ =~= armor_of(seq![t0, t1, t2, t3], label@, key@));
    }
    out
}

/// Decodes a tagged armored block, accepting exactly the encoder's output.
pub fn parse_armor(text: &[u8], t0: u8, t1: u8, t2: u8, t3: u8) -> (r: Option<(Vec<u8>, Vec<u8>)>)
    ensures
        match r {
            Some(parts) => parts.1@.len() == 32 && text@ == armor_of(
                seq![t0, t1, t2, t3],
                parts.0@,
                parts.1@,
            ),
            None => forall|l: Seq<u8>, k: Seq<u8>|
                k.len() == 32 ==> text@ != armor_of(seq![t0, t1, t2, t3], l, k),
        },
{
    let ghost tag = seq![t0, t1, t2, t3];
    let n = text.len();
    if n < 70 || text[0] != t0 || text[1] != t1 || text[2] != t2 || text[3] != t3 || text[4] != DOT
        || text[n - 65] != DOT {
        proof {
            assert forall|l: Seq<u8>, k: Seq<u8>| k.len() == 32 implies text@ != armor_of(
                tag,
                l,
                k,
            ) by {
                if text@ == armor_of(tag, l, k) {
                    lemma_armor_shape(tag, l, k);
                    assert(text@[5 + 2 * l.len() as int] == DOT);
                    assert(5 + 2 * l.len() as int == n - 65);
                }
            }
        }
        return None;
    }
    let label_hex = vstd::slice::slice_subrange(text, 5, n - 65);
    let key_hex = vstd::slice::slice_subrange(text, n - 64, n);
    let label = match hex_decode(label_hex) {
        Some(l) => l,
        None => {
            proof {
                assert forall|l: Seq<u8>, k: Seq<u8>| k.len() == 32 implies text@ != armor_of(
                    tag,
                    l,
                    k,
                ) by {
                    if text@ == armor_of(tag, l, k) {
                        lemma_armor_shape(tag, l, k);
                        assert(5 + 2 * l.len() as int == n - 65);
                        assert(label_hex@ == text@.subrange(5, 5 + 2 * l.len() as int));
                        assert(label_hex@ == hex_of(l));
                        lemma_hex_of_is_hex_seq(l);
                    }
                }
            }
            return None;
        },
    };
    let key = match hex_decode(key_hex) {
        Some(k) => k,
        None => {
            proof {
                assert forall|l: Seq<u8>, k: Seq<u8>| k.len() == 32 implies text@ != armor_of(
                    tag,
                    l,
                    k,
                ) by {
                    if text@ == armor_of(tag, l, k) {
                        lemma_armor_shape(tag, l, k);
                        assert(key_hex@ == text@.subrange(
                            6 + 2 * l.len() as int,
                            70 + 2 * l.len() as int,
                        ));
                        assert(key_hex@ == hex_of(k));
                        lemma_hex_of_is_hex_seq(k);
                    }
                }
            }
            return None;
        },
    };
    proof {
        assert(2 * key@.len() == key_hex@.len());
        assert(key@.len() == 32);
        lemma_armor_shape(tag, label@, key@);
        assert(2 * label@.len() as int == label_hex@.len());
        assert(label_hex@.len() == n - 70);
        let a = armor_of(tag, label@, key@);
        assert(a.len() == n);
        assert forall|i: int| 0 <= i < n implies text@[i] == a[i] by {
            if i < 4 {
                assert(a.subrange(0, 4)[i] == a[i]);
                assert(a.subrange(0, 4) == tag);
            } else if i == 4 {
            } else if i < 5 + 2 * label@.len() as int {
                assert(a.subrange(5, 5 + 2 * label@.len() as int)[i - 5] == a[i]);
                assert(hex_of(label@)[i - 5] == label_hex@[i - 5]);
                assert(label_hex@[i - 5] == text@[i]);
            } else if i == 5 + 2 * label@.len() as int {
            } else {
                assert(a.subrange(6 + 2 * label@.len() as int, 70 + 2 * label@.len() as int)[i - (6 + 2
                    * label@.len())] == a[i]);
                assert(hex_of(key@)[i - (6 + 2 * label@.len() as int)] == key_hex@[i - (6 + 2
                    * label@.len())]);
                assert(key_hex@[i - (6 + 2 * label@.len() as int)] == text@[i]);
            }
        }
        assert(text@ =~= a);
    }
    Some((label, key))
}

} // verus!
