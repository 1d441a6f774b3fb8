//! Little-endian byte images of the fixed-width integer fields of the
//! container, and the lemmas that read them back.

use vstd::prelude::*;

verus! {

use vstd::arithmetic::div_mod::{
    lemma_div_denominator,
    lemma_div_is_ordered,
    lemma_fundamental_div_mod,
    lemma_mod_bound,
    lemma_small_mod,
};

/// The two little-endian bytes of a 16-bit value: low byte first.
pub open spec fn le_bytes_2(v: int) -> Seq<u8>
    recommends
        0 <= v < 0x10000,
{
    seq![(v % 256) as u8, ((v / 256) % 256) as u8]
}

/// The four little-endian bytes of a 32-bit value: low byte first.
pub open spec fn le_bytes_4(v: int) -> Seq<u8>
    recommends
        0 <= v < 0x1_0000_0000,
{
    seq![
        (v % 256) as u8,
        ((v / 256) % 256) as u8,
        ((v / 0x10000) % 256) as u8,
        ((v / 0x100_0000) % 256) as u8,
    ]
}

/// The value stored little-endian in the two bytes at position `k`.
pub open spec fn le_u16_at(s: Seq<u8>, k: int) -> int
    recommends
        0 <= k,
        k + 2 <= s.len(),
{
    s[k] + 0x100 * s[k + 1]
}

/// The value stored little-endian in the four bytes at position `k`.
pub open spec fn le_u32_at(s: Seq<u8>, k: int) -> int
    recommends
        0 <= k,
        k + 4 <= s.len(),
{
    s[k] + 0x100 * s[k + 1] + 0x10000 * s[k + 2] + 0x100_0000 * s[k + 3]
}

/// Reading two little-endian bytes back yields the encoded value.
pub proof fn lemma_le_bytes_2_roundtrip(v: int)
    requires
        0 <= v < 0x10000,
    ensures
        le_u16_at(le_bytes_2(v), 0) == v,
{
    lemma_fundamental_div_mod(v, 256);
    lemma_mod_bound(v, 256);
    lemma_div_is_ordered(v, 0xffff, 256);
    lemma_small_mod((v / 256) as nat, 256);
}

/// Reading four little-endian bytes back yields the encoded value.
pub proof fn lemma_le_bytes_4_roundtrip(v: int)
    requires
        0 <= v < 0x1_0000_0000,
    ensures
        le_u32_at(le_bytes_4(v), 0) == v,
{
    lemma_fundamental_div_mod(v, 256);
    lemma_mod_bound(v, 256);
    lemma_fundamental_div_mod(v / 256, 256);
    lemma_mod_bound(v / 256, 256);
    lemma_fundamental_div_mod(v / 0x10000, 256);
    lemma_mod_bound(v / 0x10000, 256);
    lemma_div_denominator(v, 256, 256);
    lemma_div_denominator(v, 0x10000, 256);
    lemma_div_is_ordered(v, 0xffff_ffff, 0x100_0000);
    lemma_small_mod((v / 0x100_0000) as nat, 256);
}

/// Appends the two little-endian bytes of `v` to `buf`.
pub fn push_u16_le(buf: &mut Vec<u8>, v: u16)
    ensures
        final(buf)@ == old(buf)@ + le_bytes_2(v as int),
{
    buf.push((v % 256) as u8);
    buf.push((v / 256) as u8);
    proof {
        lemma_small_mod((v / 256) as nat, 256);
        assert(buf@ =~= old(buf)@ + le_bytes_2(v as int));
    }
}

/// Appends the four little-endian bytes of `v` to `buf`.
pub fn push_u32_le(buf: &mut Vec<u8>, v: u32)
    ensures
        final(buf)@ == old(buf)@ + le_bytes_4(v as int),
{
    buf.push((v % 256) as u8);
    buf.push((v / 256 % 256) as u8);
    buf.push((v / 0x10000 % 256) as u8);
    buf.push((v / 0x100_0000) as u8);
    proof {
        lemma_small_mod((v / 0x100_0000) as nat, 256);
        assert(buf@ =~= old(buf)@ + le_bytes_4(v as int));
    }
}

/// Appends the four little-endian bytes of a non-negative 32-bit signed
/// value to `buf`; its two's-complement image coincides with the unsigned
/// one on this range.
pub fn push_i32_le(buf: &mut Vec<u8>, v: i32)
    requires
        v >= 0,
    ensures
        final(buf)@ == old(buf)@ + le_bytes_4(v as int),
{
    push_u32_le(buf, v as u32);
}

} // verus!
