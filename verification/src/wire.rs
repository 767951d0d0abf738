//! Little-endian byte packing shared by all report codecs.
//!
//! Multi-byte integers travel least-significant byte first, both on the
//! wire and in the effect pool's RAM image.  The spec functions here give
//! each byte of a value a name, and the lemmas prove that splitting and
//! joining are inverse, which every codec round-trip rests on.

use vstd::arithmetic::div_mod::{
    lemma_div_denominator, lemma_div_multiples_vanish_fancy, lemma_div_nonincreasing,
    lemma_div_pos_is_pos, lemma_fundamental_div_mod, lemma_mod_multiples_vanish,
};
use vstd::prelude::*;

verus! {

/// The low byte of a 16-bit value.
pub open spec fn lo(v: u16) -> u8 {
    (v % 256) as u8
}

/// The high byte of a 16-bit value.
pub open spec fn hi(v: u16) -> u8 {
    (v / 256) as u8
}

/// A 16-bit value joined from its little-endian bytes.
pub open spec fn le16(b0: u8, b1: u8) -> u16 {
    (b0 + 256 * b1) as u16
}

/// Byte `k` (0 = least significant) of a 32-bit value.
pub open spec fn byte32(v: u32, k: int) -> u8 {
    if k == 0 {
        (v as int % 256) as u8
    } else if k == 1 {
        ((v as int / 256) % 256) as u8
    } else if k == 2 {
        ((v as int / 65536) % 256) as u8
    } else {
        (v as int / 16777216) as u8
    }
}

/// A 32-bit value joined from its little-endian bytes.
pub open spec fn le32(b0: u8, b1: u8, b2: u8, b3: u8) -> u32 {
    (b0 + 256 * b1 + 65536 * b2 + 16777216 * b3) as u32
}

/// Joining the split bytes gives the 16-bit value back.
pub proof fn lemma_le16_split(v: u16)
    ensures
        le16(lo(v), hi(v)) == v,
{
    lemma_fundamental_div_mod(v as int, 256);
}

/// Splitting a joined 16-bit value gives the bytes back.
pub proof fn lemma_le16_join(b0: u8, b1: u8)
    ensures
        lo(le16(b0, b1)) == b0,
        hi(le16(b0, b1)) == b1,
{
    lemma_mod_multiples_vanish(b1 as int, b0 as int, 256);
    lemma_div_multiples_vanish_fancy(b1 as int, b0 as int, 256);
}

/// Joining the split bytes gives the 32-bit value back.
pub proof fn lemma_le32_split(v: u32)
    ensures
        le32(byte32(v, 0), byte32(v, 1), byte32(v, 2), byte32(v, 3)) == v,
{
    let x = v as int;
    lemma_fundamental_div_mod(x, 256);
    lemma_fundamental_div_mod(x / 256, 256);
    lemma_fundamental_div_mod(x / 65536, 256);
    lemma_div_denominator(x, 256, 256);
    lemma_div_denominator(x, 65536, 256);
    lemma_div_pos_is_pos(x, 256);
    lemma_div_pos_is_pos(x / 256, 256);
    lemma_div_pos_is_pos(x / 65536, 256);
}

/// A signed 16-bit value survives the trip through its unsigned carrier.
pub proof fn lemma_i16_cast_round_trip(v: i16)
    ensures
        (v as u16) as i16 == v,
{
    assert((v as u16) as i16 == v) by (bit_vector);
}

/// Reads the 16-bit value stored little-endian at `i`.
pub fn read_u16(ram: &[u8], i: usize) -> (r: u16)
    requires
        i + 2 <= ram@.len(),
    ensures
        r == le16(ram@[i as int], ram@[i + 1]),
{
    let n: usize = ram.len();
    let b0: u8 = *vstd::slice::slice_index_get(ram, i);
    let b1: u8 = *vstd::slice::slice_index_get(ram, i + 1);
    (b0 as u16) + 256 * (b1 as u16)
}

/// Reads the signed 16-bit value stored little-endian at `i`.
pub fn read_i16(ram: &[u8], i: usize) -> (r: i16)
    requires
        i + 2 <= ram@.len(),
    ensures
        r == le16(ram@[i as int], ram@[i + 1]) as i16,
{
    read_u16(ram, i) as i16
}

/// Reads the 32-bit value stored little-endian at `i`.
pub fn read_u32(ram: &[u8], i: usize) -> (r: u32)
    requires
        i + 4 <= ram@.len(),
    ensures
        r == le32(ram@[i as int], ram@[i + 1], ram@[i + 2], ram@[i + 3]),
{
    let n: usize = ram.len();
    let b0: u8 = *vstd::slice::slice_index_get(ram, i);
    let b1: u8 = *vstd::slice::slice_index_get(ram, i + 1);
    let b2: u8 = *vstd::slice::slice_index_get(ram, i + 2);
    let b3: u8 = *vstd::slice::slice_index_get(ram, i + 3);
    (b0 as u32) + 256 * (b1 as u32) + 65536 * (b2 as u32) + 16777216 * (b3 as u32)
}

/// Reads the byte at `i`.
pub fn read_u8(ram: &[u8], i: usize) -> (r: u8)
    requires
        i < ram@.len(),
    ensures
        r == ram@[i as int],
{
    *vstd::slice::slice_index_get(ram, i)
}

/// Appends a 16-bit value, least-significant byte first.
pub fn put_u16(buf: &mut Vec<u8>, v: u16)
    ensures
        final(buf)@ == old(buf)@.push(lo(v)).push(hi(v)),
{
    buf.push((v % 256) as u8);
    buf.push((v / 256) as u8);
}

/// Appends a signed 16-bit value, least-significant byte first.
pub fn put_i16(buf: &mut Vec<u8>, v: i16)
    ensures
        final(buf)@ == old(buf)@.push(lo(v as u16)).push(hi(v as u16)),
{
    put_u16(buf, v as u16);
}

/// Appends a 32-bit value, least-significant byte first.
pub fn put_u32(buf: &mut Vec<u8>, v: u32)
    ensures
        final(buf)@ == old(buf)@.push(byte32(v, 0)).push(byte32(v, 1)).push(byte32(v, 2)).push(
            byte32(v, 3),
        ),
{
    proof {
        lemma_div_pos_is_pos(v as int, 256);
        lemma_div_pos_is_pos(v as int, 65536);
        lemma_div_pos_is_pos(v as int, 16777216);
        lemma_div_nonincreasing(v as int, 16777216);
        lemma_div_denominator(v as int, 256, 256);
        lemma_div_denominator(v as int, 65536, 256);
    }
    buf.push((v % 256) as u8);
    buf.push(((v / 256) % 256) as u8);
    buf.push(((v / 65536) % 256) as u8);
    buf.push((v / 16777216) as u8);
}

} // verus!
