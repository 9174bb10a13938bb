//! Facts about bitwise operations on bytes and words.

use vstd::prelude::*;

verus! {

/// A byte masked with `m` is at most `m`.
pub proof fn lemma_and_le(x: u8, m: u8)
    ensures
        x & m <= m,
        x & m <= x,
{
    assert(x & m <= m) by (bit_vector);
    assert(x & m <= x) by (bit_vector);
}

} // verus!

verus! {

/// The STAT manipulations of the pixel pipeline keep or set the mode bits as
/// intended.
pub proof fn lemma_stat_bits(s: u8, v: u8, m: u8)
    requires
        m < 4,
    ensures
        ((s & 0xfc) | m) & 0x03 == m,
        ((s & 0xf8) | m) & 0x03 == m,
        (s | 0x04) & 0x03 == s & 0x03,
        (s & 0xfb) & 0x03 == s & 0x03,
        ((v & 0xf8) | (s & 0x07)) & 0x03 == s & 0x03,
        s & 0x03 < 4,
{
    assert(((s & 0xfc) | m) & 0x03 == m) by (bit_vector)
        requires
            m < 4,
    ;
    assert(((s & 0xf8) | m) & 0x03 == m) by (bit_vector)
        requires
            m < 4,
    ;
    assert((s | 0x04) & 0x03 == s & 0x03) by (bit_vector);
    assert((s & 0xfb) & 0x03 == s & 0x03) by (bit_vector);
    assert(((v & 0xf8) | (s & 0x07)) & 0x03 == s & 0x03) by (bit_vector);
    assert(s & 0x03 < 4) by (bit_vector);
}

/// A vector of `n` copies of `v`.
pub fn byte_vec(n: usize, v: u8) -> (r: Vec<u8>)
    ensures
        r@ == Seq::new(n as nat, |i: int| v),
{
    let mut r: Vec<u8> = Vec::new();
    let mut i: usize = 0;
    while i < n
        invariant
            i <= n,
            r@ == Seq::new(i as nat, |j: int| v),
        decreases n - i,
    {
        r.push(v);
        i = i + 1;
        assert(r@ =~= Seq::new(i as nat, |j: int| v));
    }
    r
}

} // verus!

verus! {

/// A colour number built from two tile bits is below 4.
pub proof fn lemma_color_no_bound(lo: u8, hi: u8, bit: u8)
    ensures
        (((hi >> bit) & 0x01) << 1u8) | ((lo >> bit) & 0x01) < 4,
{
    assert((((hi >> bit) & 0x01) << 1u8) | ((lo >> bit) & 0x01) < 4) by (bit_vector);
}

} // verus!
