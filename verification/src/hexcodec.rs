//! Lower-case hexadecimal encoding of byte strings.
//!
//! Every armored form in this crate (key files, trust-anchor text, the
//! envelope wire format) carries its binary fields as lower-case hex, so the
//! encoding and its decoder are shared here. The decoder accepts exactly the
//! encoder's output: canonicity of the surrounding formats rests on that.

use vstd::prelude::*;

verus! {

/// The lower-case hex digit character for a nibble value.
pub open spec fn hex_digit(n: int) -> u8
    recommends
        0 <= n < 16,
{
    if n < 10 {
        (0x30 + n) as u8
    } else {
        (0x57 + n) as u8
    }
}

/// Whether a byte is a lower-case hex digit character.
pub open spec fn is_hex_digit(b: u8) -> bool {
    (0x30 <= b && b <= 0x39) || (0x61 <= b && b <= 0x66)
}

/// The nibble value of a lower-case hex digit character.
pub open spec fn hex_val(b: u8) -> int
    recommends
        is_hex_digit(b),
{
    if b <= 0x39 {
        b - 0x30
    } else {
        b - 0x57
    }
}

/// Lower-case hex encoding: two digits per byte, high nibble first.
pub open spec fn hex_of(s: Seq<u8>) -> Seq<u8> {
    Seq::new(2 * s.len(), |i: int| if i % 2 == 0 {
        hex_digit(s[i / 2] as int / 16)
    } else {
        hex_digit(s[i / 2] as int % 16)
    })
}

/// Whether a byte string is a well-formed lower-case hex encoding.
pub open spec fn is_hex_seq(s: Seq<u8>) -> bool {
    s.len() % 2 == 0 && (forall|i: int| 0 <= i < s.len() ==> is_hex_digit(#[trigger] s[i]))
}

/// Hex digit characters are distinct for distinct nibbles.
proof fn lemma_hex_digit_injective(m: int, n: int)
    requires
        0 <= m < 16,
        0 <= n < 16,
        hex_digit(m) == hex_digit(n),
    ensures
        m == n,
{
}

/// A hex digit character decodes back to the nibble it encodes.
proof fn lemma_hex_digit_val(n: int)
    requires
        0 <= n < 16,
    ensures
        is_hex_digit(hex_digit(n)),
        hex_val(hex_digit(n)) == n,
{
}

/// Every character of a hex encoding is a hex digit; in particular the
/// encoding is well formed and contains no separator byte.
pub proof fn lemma_hex_of_is_hex_seq(s: Seq<u8>)
    ensures
        is_hex_seq(hex_of(s)),
        forall|i: int| 0 <= i < hex_of(s).len() ==> is_hex_digit(#[trigger] hex_of(s)[i]),
{
    assert forall|i: int| 0 <= i < hex_of(s).len() implies is_hex_digit(#[trigger] hex_of(s)[i]) by {
        if i % 2 == 0 {
            lemma_hex_digit_val(s[i / 2] as int / 16);
        } else {
            lemma_hex_digit_val(s[i / 2] as int % 16);
        }
    }
}

/// Hex encoding is injective: equal encodings come from equal byte strings.
pub proof fn lemma_hex_of_injective(a: Seq<u8>, b: Seq<u8>)
    requires
        hex_of(a) == hex_of(b),
    ensures
        a == b,
{
    assert(hex_of(a).len() == 2 * a.len());
    assert(hex_of(b).len() == 2 * b.len());
    assert(a.len() == b.len());
    assert forall|i: int| 0 <= i < a.len() implies a[i] == b[i] by {
        assert(hex_of(a)[2 * i] == hex_of(b)[2 * i]);
        assert(hex_of(a)[2 * i + 1] == hex_of(b)[2 * i + 1]);
        assert((2 * i) / 2 == i && (2 * i) % 2 == 0);
        assert((2 * i + 1) / 2 == i && (2 * i + 1) % 2 == 1);
        assert(hex_of(a)[2 * i] == hex_digit(a[i] as int / 16));
        assert(hex_of(b)[2 * i] == hex_digit(b[i] as int / 16));
        assert(hex_of(a)[2 * i + 1] == hex_digit(a[i] as int % 16));
        assert(hex_of(b)[2 * i + 1] == hex_digit(b[i] as int % 16));
        lemma_hex_digit_injective(a[i] as int / 16, b[i] as int / 16);
        lemma_hex_digit_injective(a[i] as int % 16, b[i] as int % 16);
        assert(a[i] as int == 16 * (a[i] as int / 16) + a[i] as int % 16);
        assert(b[i] as int == 16 * (b[i] as int / 16) + b[i] as int % 16);
    }
    assert(a =~= b);
}

/// Appending one byte appends its two digits to the encoding.
proof fn lemma_hex_of_push(s: Seq<u8>, b: u8)
    ensures
        hex_of(s.push(b)) == hex_of(s) + seq![
            hex_digit(b as int / 16),
            hex_digit(b as int % 16),
        ],
{
    let lhs = hex_of(s.push(b));
    let rhs = hex_of(s) + seq![hex_digit(b as int / 16), hex_digit(b as int % 16)];
    assert(lhs.len() == rhs.len());
    assert forall|i: int| 0 <= i < lhs.len() implies lhs[i] == rhs[i] by {
        if i < 2 * s.len() {
            assert(i / 2 < s.len());
            assert(s.push(b)[i / 2] == s[i / 2]);
        } else {
            assert(i / 2 == s.len());
            assert(s.push(b)[i / 2] == b);
        }
    }
    assert(lhs =~= rhs);
}

fn hex_digit_char(n: u8) -> (r: u8)
    requires
        n < 16,
    ensures
        r == hex_digit(n as int),
{
    if n < 10 {
        0x30 + n
    } else {
        0x57 + n
    }
}

/// Encodes a byte string as lower-case hex, two digits per byte.
pub fn hex_encode(s: &[u8]) -> (r: Vec<u8>)
    ensures
        r@ == hex_of(s@),
{
    let mut out: Vec<u8> = Vec::new();
    let mut i: usize = 0;
    while i < s.len()
        invariant
            i <= s@.len(),
            out@ == hex_of(s@.take(i as int)),
        decreases s@.len() - i,
    {
        let b = s[i];
        out.push(hex_digit_char(b / 16));
        out.push(hex_digit_char(b % 16));
        proof {
            lemma_hex_of_push(s@.take(i as int), b);
            assert(s@.take(i + 1 as int) =~= s@.take(i as int).push(s@[i as int]));
        }
        i = i + 1;
    }
    proof {
        assert(s@.take(s@.len() as int) =~= s@);
    }
    out
}

/// Decodes a lower-case hex string back to bytes. Succeeds exactly on the
/// encoder's output and inverts it.
pub fn hex_decode(s: &[u8]) -> (r: Option<Vec<u8>>)
    ensures
        match r {
            Some(t) => s@ == hex_of(t@) && 2 * t@.len() == s@.len(),
            None => !is_hex_seq(s@),
        },
{
    if s.len() % 2 != 0 {
        return None;
    }
    let mut out: Vec<u8> = Vec::new();
    let mut j: usize = 0;
    let slen = s.len();
    let n = slen / 2;
    proof {
        assert(2 * (s@.len() / 2) == s@.len());
    }
    while j < n
        invariant
            j <= n,
            slen == s@.len(),
            n == s@.len() / 2,
            s@.len() % 2 == 0,
            2 * (n as int) == s@.len(),
            out@.len() == j,
            s@.take(2 * j as int) == hex_of(out@),
        decreases n - j,
    {
        let hi = s[2 * j];
        let lo = s[2 * j + 1];
        if !(0x30 <= hi && hi <= 0x39 || 0x61 <= hi && hi <= 0x66) {
            assert(!is_hex_digit(s@[2 * j as int]));
            return None;
        }
        if !(0x30 <= lo && lo <= 0x39 || 0x61 <= lo && lo <= 0x66) {
            assert(!is_hex_digit(s@[2 * j + 1 as int]));
            return None;
        }
        let hv: u8 = if hi <= 0x39 { hi - 0x30 } else { hi - 0x57 };
        let lv: u8 = if lo <= 0x39 { lo - 0x30 } else { lo - 0x57 };
        let b: u8 = hv * 16 + lv;
        proof {
            assert(hv == hex_val(s@[2 * j as int]));
            assert(lv == hex_val(s@[2 * j + 1 as int]));
            assert(b as int / 16 == hv as int && b as int % 16 == lv as int) by (nonlinear_arith)
                requires
                    hv < 16,
                    lv < 16,
                    b == hv * 16 + lv,
            ;
            lemma_hex_of_push(out@, b);
            lemma_hex_digit_val(hv as int);
            lemma_hex_digit_val(lv as int);
            assert(hex_digit(b as int / 16) == s@[2 * j as int]);
            assert(hex_digit(b as int % 16) == s@[2 * j + 1 as int]);
            assert(s@.take(2 * (j + 1) as int) =~= s@.take(2 * j as int) + seq![
                s@[2 * j as int],
                s@[2 * j + 1 as int],
            ]);
        }
        out.push(b);
        j = j + 1;
    }
    proof {
        assert(s@.take(s@.len() as int) =~= s@);
    }
    Some(out)
}

} // verus!
