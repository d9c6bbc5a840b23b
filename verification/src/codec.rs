//! Primitive byte-level codec: little-endian fixed-width integers, widened
//! signed transit integers, and length-prefixed byte strings. All record
//! serialization is built from these and proved to round-trip.

use vstd::bytes::*;
use vstd::prelude::*;

verus! {

/// Two's-complement image of a signed 64-bit value, as transported.
pub open spec fn i64_to_u64_spec(x: i64) -> u64 {
    if x >= 0 {
        x as u64
    } else {
        ((x as int) + 0x1_0000_0000_0000_0000) as u64
    }
}

/// Inverse of [`i64_to_u64_spec`].
pub open spec fn u64_to_i64_spec(b: u64) -> i64 {
    if b < 0x8000_0000_0000_0000 {
        b as i64
    } else {
        ((b as int) - 0x1_0000_0000_0000_0000) as i64
    }
}

pub proof fn lemma_i64_u64_roundtrip(x: i64)
    ensures
        u64_to_i64_spec(i64_to_u64_spec(x)) == x,
{
}

pub fn i64_to_u64(x: i64) -> (r: u64)
    ensures
        r == i64_to_u64_spec(x),
{
    if x >= 0 {
        x as u64
    } else {
        ((x as i128) + 0x1_0000_0000_0000_0000) as u64
    }
}

pub fn u64_to_i64(b: u64) -> (r: i64)
    ensures
        r == u64_to_i64_spec(b),
{
    if b < 0x8000_0000_0000_0000 {
        b as i64
    } else {
        ((b as i128) - 0x1_0000_0000_0000_0000) as i64
    }
}

/// Encoding of a widened signed 64-bit transit integer.
pub open spec fn spec_enc_i64(x: i64) -> Seq<u8> {
    spec_u64_to_le_bytes(i64_to_u64_spec(x))
}

/// Encoding of a length-prefixed byte string.
pub open spec fn spec_enc_bytes(b: Seq<u8>) -> Seq<u8> {
    spec_u64_to_le_bytes(b.len() as u64) + b
}

/// Appends `data` to `out` unchanged.
pub fn push_bytes(out: &mut Vec<u8>, data: &[u8])
    ensures
        final(out)@ == old(out)@ + data@,
{
    let n = data.len();
    let mut i: usize = 0;
    while i < n
        invariant
            i <= n,
            n == data@.len(),
            out@ == old(out)@ + data@.take(i as int),
        decreases n - i,
    {
        out.push(data[i]);
        i = i + 1;
        assert(data@.take(i as int) == data@.take(i - 1).push(data@[i - 1]));
    }
    assert(data@.take(n as int) == data@);
}

pub fn write_u64(out: &mut Vec<u8>, x: u64)
    ensures
        final(out)@ == old(out)@ + spec_u64_to_le_bytes(x),
{
    let mut b = u64_to_le_bytes(x);
    out.append(&mut b);
}

pub fn write_u128(out: &mut Vec<u8>, x: u128)
    ensures
        final(out)@ == old(out)@ + spec_u128_to_le_bytes(x),
{
    let mut b = u128_to_le_bytes(x);
    out.append(&mut b);
}

pub fn write_i64(out: &mut Vec<u8>, x: i64)
    ensures
        final(out)@ == old(out)@ + spec_enc_i64(x),
{
    write_u64(out, i64_to_u64(x));
}

pub fn write_bytes(out: &mut Vec<u8>, data: &[u8])
    ensures
        final(out)@ == old(out)@ + spec_enc_bytes(data@),
{
    write_u64(out, data.len() as u64);
    push_bytes(out, data);
    assert(out@ == old(out)@ + spec_enc_bytes(data@));
}

/// Reads a `u64` at offset `i`; yields the value and the next offset.
pub open spec fn spec_dec_u64(s: Seq<u8>, i: int) -> Option<(u64, int)> {
    if 0 <= i && i + 8 <= s.len() {
        Some((spec_u64_from_le_bytes(s.subrange(i, i + 8)), i + 8))
    } else {
        None
    }
}

pub open spec fn spec_dec_u128(s: Seq<u8>, i: int) -> Option<(u128, int)> {
    if 0 <= i && i + 16 <= s.len() {
        Some((spec_u128_from_le_bytes(s.subrange(i, i + 16)), i + 16))
    } else {
        None
    }
}

pub open spec fn spec_dec_i64(s: Seq<u8>, i: int) -> Option<(i64, int)> {
    match spec_dec_u64(s, i) {
        Some((b, j)) => Some((u64_to_i64_spec(b), j)),
        None => None,
    }
}

pub open spec fn spec_dec_bytes(s: Seq<u8>, i: int) -> Option<(Seq<u8>, int)> {
    match spec_dec_u64(s, i) {
        Some((n, j)) => if j + n <= s.len() {
            Some((s.subrange(j, j + n), j + n))
        } else {
            None
        },
        None => None,
    }
}

pub fn dec_u64(s: &[u8], i: usize) -> (r: Option<(u64, usize)>)
    ensures
        match r {
            Some((x, j)) => spec_dec_u64(s@, i as int) == Some((x, j as int)),
            None => spec_dec_u64(s@, i as int) is None,
        },
{
    if i <= s.len() && s.len() - i >= 8 {
        let sub = vstd::slice::slice_subrange(s, i, i + 8);
        Some((u64_from_le_bytes(sub), i + 8))
    } else {
        None
    }
}

pub fn dec_u128(s: &[u8], i: usize) -> (r: Option<(u128, usize)>)
    ensures
        match r {
            Some((x, j)) => spec_dec_u128(s@, i as int) == Some((x, j as int)),
            None => spec_dec_u128(s@, i as int) is None,
        },
{
    if i <= s.len() && s.len() - i >= 16 {
        let sub = vstd::slice::slice_subrange(s, i, i + 16);
        Some((u128_from_le_bytes(sub), i + 16))
    } else {
        None
    }
}

pub fn dec_i64(s: &[u8], i: usize) -> (r: Option<(i64, usize)>)
    ensures
        match r {
            Some((x, j)) => spec_dec_i64(s@, i as int) == Some((x, j as int)),
            None => spec_dec_i64(s@, i as int) is None,
        },
{
    match dec_u64(s, i) {
        Some((b, j)) => Some((u64_to_i64(b), j)),
        None => None,
    }
}

pub fn dec_bytes(s: &[u8], i: usize) -> (r: Option<(Vec<u8>, usize)>)
    ensures
        match r {
            Some((b, j)) => spec_dec_bytes(s@, i as int) == Some((b@, j as int)),
            None => spec_dec_bytes(s@, i as int) is None,
        },
{
    match dec_u64(s, i) {
        Some((n, j)) => {
            if n <= (s.len() - j) as u64 {
                let m = n as usize;
                let sub = vstd::slice::slice_subrange(s, j, j + m);
                let mut out: Vec<u8> = Vec::new();
                push_bytes(&mut out, sub);
                assert(out@ == sub@);
                Some((out, j + m))
            } else {
                None
            }
        },
        None => None,
    }
}

/// Decoding a `u64` that was just encoded, with anything after it, yields
/// the value back and stops right past it.
pub proof fn lemma_dec_u64_of_enc(s: Seq<u8>, i: int, x: u64)
    requires
        0 <= i,
        i + 8 <= s.len(),
        s.subrange(i, i + 8) == spec_u64_to_le_bytes(x),
    ensures
        spec_dec_u64(s, i) == Some((x, i + 8)),
{
    lemma_auto_spec_u64_to_from_le_bytes();
}

pub proof fn lemma_dec_u128_of_enc(s: Seq<u8>, i: int, x: u128)
    requires
        0 <= i,
        i + 16 <= s.len(),
        s.subrange(i, i + 16) == spec_u128_to_le_bytes(x),
    ensures
        spec_dec_u128(s, i) == Some((x, i + 16)),
{
    lemma_auto_spec_u128_to_from_le_bytes();
    assert(spec_u128_to_le_bytes(x).len() == 16 && spec_u128_from_le_bytes(
        spec_u128_to_le_bytes(x),
    ) == x);
}

pub proof fn lemma_dec_i64_of_enc(s: Seq<u8>, i: int, x: i64)
    requires
        0 <= i,
        i + 8 <= s.len(),
        s.subrange(i, i + 8) == spec_enc_i64(x),
    ensures
        spec_dec_i64(s, i) == Some((x, i + 8)),
{
    lemma_dec_u64_of_enc(s, i, i64_to_u64_spec(x));
    lemma_i64_u64_roundtrip(x);
}

pub proof fn lemma_dec_bytes_of_enc(s: Seq<u8>, i: int, b: Seq<u8>)
    requires
        0 <= i,
        b.len() < 0x1_0000_0000_0000_0000,
        i + 8 + b.len() <= s.len(),
        s.subrange(i, i + 8 + b.len()) == spec_enc_bytes(b),
    ensures
        spec_dec_bytes(s, i) == Some((b, i + 8 + b.len())),
{
    let n = b.len() as u64;
    assert(s.subrange(i, i + 8) =~= spec_enc_bytes(b).subrange(0, 8));
    assert(spec_enc_bytes(b).subrange(0, 8) =~= spec_u64_to_le_bytes(n)) by {
        lemma_auto_spec_u64_to_from_le_bytes();
    }
    lemma_dec_u64_of_enc(s, i, n);
    assert(s.subrange(i + 8, i + 8 + b.len()) =~= b) by {
        lemma_auto_spec_u64_to_from_le_bytes();
        assert forall|k: int| 0 <= k < b.len() implies s.subrange(
            i + 8,
            i + 8 + b.len(),
        )[k] == b[k] by {
            assert(s.subrange(i, i + 8 + b.len())[8 + k] == b[k]);
        }
    }
}

} // verus!
