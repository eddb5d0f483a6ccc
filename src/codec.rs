//! Fixed-width little-endian encoding of canonical field elements.

use vstd::prelude::*;

verus! {

/// Width in bytes of every field element written by this library.
pub const FIELD_SIZE: usize = 32;

/// A field element at the fixed width, little-endian.
pub type FieldBytes = [u8; FIELD_SIZE];

/// The number that a little-endian byte string stands for.
pub open spec fn le_value(s: Seq<u8>) -> nat
    decreases s.len(),
{
    if s.len() == 0 {
        0
    } else {
        s[0] as nat + 256 * le_value(s.drop_first())
    }
}

/// `v` zero-padded on the high end to `FIELD_SIZE` bytes.
pub open spec fn padded(v: Seq<u8>) -> Seq<u8> {
    v + Seq::new((FIELD_SIZE - v.len()) as nat, |i: int| 0u8)
}

/// Whether a canonical value fits the fixed width.
pub open spec fn fits_width(v: Seq<u8>) -> bool {
    v.len() <= FIELD_SIZE
}

/// Encodes a canonical little-endian value at the fixed width.
///
/// Fails, rather than truncating, when the value has more bytes than the width.
pub fn encode(value: &Vec<u8>) -> (r: Option<FieldBytes>)
    ensures
        r.is_some() == fits_width(value@),
        r matches Some(b) ==> b@ == padded(value@),
{
    if value.len() > FIELD_SIZE {
        return None;
    }
    let mut out: FieldBytes = [0u8; FIELD_SIZE];
    let mut i: usize = 0;
    while i < value.len()
        invariant
            value@.len() <= FIELD_SIZE,
            0 <= i <= value@.len(),
            out@.len() == FIELD_SIZE,
            forall|k: int| 0 <= k < i ==> out@[k] == value@[k],
            forall|k: int| i <= k < FIELD_SIZE ==> out@[k] == 0u8,
        decreases value@.len() - i,
    {
        out[i] = value[i];
        i = i + 1;
    }
    assert(out@ =~= padded(value@));
    Some(out)
}

/// Reads a fixed-width little-endian field element back as a byte string.
pub fn decode(bytes: &FieldBytes) -> (r: Vec<u8>)
    ensures
        r@ == bytes@,
{
    let mut out: Vec<u8> = Vec::new();
    let mut i: usize = 0;
    while i < FIELD_SIZE
        invariant
            0 <= i <= FIELD_SIZE,
            bytes@.len() == FIELD_SIZE,
            out@ =~= bytes@.subrange(0, i as int),
        decreases FIELD_SIZE - i,
    {
        out.push(bytes[i]);
        i = i + 1;
    }
    out
}

/// High zero bytes do not change the value of a little-endian string.
pub proof fn lemma_zero_extension(v: Seq<u8>, n: nat)
    ensures
        le_value(v + Seq::new(n, |i: int| 0u8)) == le_value(v),
    decreases v.len() + n,
{
    let z = Seq::new(n, |i: int| 0u8);
    if v.len() == 0 {
        assert(v + z =~= z);
        if n > 0 {
            let z1 = Seq::new((n - 1) as nat, |i: int| 0u8);
            assert(z.drop_first() =~= Seq::empty() + z1);
            lemma_zero_extension(Seq::empty(), (n - 1) as nat);
        }
    } else {
        assert((v + z).drop_first() =~= v.drop_first() + z);
        lemma_zero_extension(v.drop_first(), n);
    }
}

/// Decoding an encoded value gives back the same number, and, at full width,
/// the very same bytes.
pub proof fn lemma_round_trip(v: Seq<u8>)
    requires
        fits_width(v),
    ensures
        le_value(padded(v)) == le_value(v),
        v.len() == FIELD_SIZE ==> padded(v) == v,
{
    lemma_zero_extension(v, (FIELD_SIZE - v.len()) as nat);
    if v.len() == FIELD_SIZE {
        assert(padded(v) =~= v);
    }
}

} // verus!
