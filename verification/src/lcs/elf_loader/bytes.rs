//! Little-endian integer reads from byte slices.
use vstd::prelude::*;

verus! {

/// The 16-bit little-endian value stored at `o`.
pub open spec fn le16(d: Seq<u8>, o: int) -> int {
    d[o] as int + 256 * (d[o + 1] as int)
}

/// The 32-bit little-endian value stored at `o`.
pub open spec fn le32(d: Seq<u8>, o: int) -> int {
    le16(d, o) + 0x1_0000 * le16(d, o + 2)
}

/// The 64-bit little-endian value stored at `o`.
pub open spec fn le64(d: Seq<u8>, o: int) -> int {
    le32(d, o) + 0x1_0000_0000 * le32(d, o + 4)
}

proof fn lemma_join16(b0: u8, b1: u8)
    by (bit_vector)
    ensures
        ((b0 as u16) | ((b1 as u16) << 8u16)) == (b0 as u16) + 256 * (b1 as u16),
{
}

proof fn lemma_join32(lo: u16, hi: u16)
    by (bit_vector)
    ensures
        ((lo as u32) | ((hi as u32) << 16u32)) == (lo as u32) + 0x1_0000 * (hi as u32),
{
}

proof fn lemma_join64(lo: u32, hi: u32)
    by (bit_vector)
    ensures
        ((lo as u64) | ((hi as u64) << 32u64)) == (lo as u64) + 0x1_0000_0000 * (hi as u64),
{
}

/// Read a little-endian `u16` at byte offset `o`.
pub fn read_u16_le(d: &[u8], o: usize) -> (v: u16)
    requires
        o + 2 <= d@.len(),
    ensures
        v as int == le16(d@, o as int),
{
    let b0 = d[o];
    let b1 = d[o + 1];
    proof {
        lemma_join16(b0, b1);
    }
    (b0 as u16) | ((b1 as u16) << 8u16)
}

/// Read a little-endian `u32` at byte offset `o`.
pub fn read_u32_le(d: &[u8], o: usize) -> (v: u32)
    requires
        o + 4 <= d@.len(),
    ensures
        v as int == le32(d@, o as int),
{
    let n = d.len();
    let lo = read_u16_le(d, o);
    let hi = read_u16_le(d, o + 2);
    proof {
        lemma_join32(lo, hi);
    }
    (lo as u32) | ((hi as u32) << 16u32)
}

/// Read a little-endian `u64` at byte offset `o`.
pub fn read_u64_le(d: &[u8], o: usize) -> (v: u64)
    requires
        o + 8 <= d@.len(),
    ensures
        v as int == le64(d@, o as int),
{
    let n = d.len();
    let lo = read_u32_le(d, o);
    let hi = read_u32_le(d, o + 4);
    proof {
        lemma_join64(lo, hi);
    }
    (lo as u64) | ((hi as u64) << 32u64)
}

} // verus!
