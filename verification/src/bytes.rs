//! Little-endian integer views of a byte buffer.
//!
//! Every multi-byte field of the boot information block is a little-endian
//! fixed-width integer. The spec functions here say what integer a run of
//! bytes denotes; the executable readers and writers are proved against
//! them.

use vstd::prelude::*;

verus! {

/// The 16-bit little-endian value stored at offsets `i`, `i + 1`.
pub open spec fn u16_at(b: Seq<u8>, i: int) -> int {
    b[i] + 0x100 * b[i + 1]
}

/// The 32-bit little-endian value stored at offsets `i` .. `i + 4`.
pub open spec fn u32_at(b: Seq<u8>, i: int) -> int {
    u16_at(b, i) + 0x1_0000 * u16_at(b, i + 2)
}

/// The 64-bit little-endian value stored at offsets `i` .. `i + 8`.
pub open spec fn u64_at(b: Seq<u8>, i: int) -> int {
    u32_at(b, i) + 0x1_0000_0000 * u32_at(b, i + 4)
}

/// Two buffers that agree on the eight bytes at `i` store the same 64-bit
/// value there.
pub proof fn lemma_u64_at_agree(b1: Seq<u8>, b2: Seq<u8>, i: int)
    requires
        forall|k: int| i <= k < i + 8 ==> b1[k] == b2[k],
    ensures
        u64_at(b1, i) == u64_at(b2, i),
{
    assert(b1[i] == b2[i]);
    assert(b1[i + 1] == b2[i + 1]);
    assert(b1[i + 2] == b2[i + 2]);
    assert(b1[i + 3] == b2[i + 3]);
    assert(b1[i + 4] == b2[i + 4]);
    assert(b1[i + 5] == b2[i + 5]);
    assert(b1[i + 6] == b2[i + 6]);
    assert(b1[i + 7] == b2[i + 7]);
}

/// Two buffers that agree on the four bytes at `i` store the same 32-bit
/// value there.
pub proof fn lemma_u32_at_agree(b1: Seq<u8>, b2: Seq<u8>, i: int)
    requires
        forall|k: int| i <= k < i + 4 ==> b1[k] == b2[k],
    ensures
        u32_at(b1, i) == u32_at(b2, i),
{
    assert(b1[i] == b2[i]);
    assert(b1[i + 1] == b2[i + 1]);
    assert(b1[i + 2] == b2[i + 2]);
    assert(b1[i + 3] == b2[i + 3]);
}

/// Reads the 16-bit little-endian value at offset `off`.
pub fn read_u16(bytes: &Vec<u8>, off: usize) -> (r: u16)
    requires
        off + 2 <= bytes.len(),
    ensures
        r == u16_at(bytes@, off as int),
{
    let lo = bytes[off];
    let hi = bytes[off + 1];
    lo as u16 + 0x100 * (hi as u16)
}

/// Reads the 32-bit little-endian value at offset `off`.
pub fn read_u32(bytes: &Vec<u8>, off: usize) -> (r: u32)
    requires
        off + 4 <= bytes.len(),
    ensures
        r == u32_at(bytes@, off as int),
{
    let lo = read_u16(bytes, off);
    let hi = read_u16(bytes, off + 2);
    lo as u32 + 0x1_0000 * (hi as u32)
}

/// Reads the 64-bit little-endian value at offset `off`.
pub fn read_u64(bytes: &Vec<u8>, off: usize) -> (r: u64)
    requires
        off + 8 <= bytes.len(),
    ensures
        r == u64_at(bytes@, off as int),
{
    let lo = read_u32(bytes, off);
    let hi = read_u32(bytes, off + 4);
    lo as u64 + 0x1_0000_0000 * (hi as u64)
}

/// Writes `v` at offset `off` as two little-endian bytes, leaving every
/// other byte unchanged.
pub fn write_u16(bytes: &mut Vec<u8>, off: usize, v: u16)
    requires
        off + 2 <= old(bytes).len(),
    ensures
        final(bytes)@.len() == old(bytes)@.len(),
        u16_at(final(bytes)@, off as int) == v,
        forall|k: int|
            0 <= k < old(bytes)@.len() && !(off <= k < off + 2) ==> final(bytes)@[k] == old(
                bytes,
            )@[k],
{
    bytes.set(off, (v % 0x100) as u8);
    bytes.set(off + 1, (v / 0x100) as u8);
}

/// Writes `v` at offset `off` as four little-endian bytes, leaving every
/// other byte unchanged.
pub fn write_u32(bytes: &mut Vec<u8>, off: usize, v: u32)
    requires
        off + 4 <= old(bytes).len(),
    ensures
        final(bytes)@.len() == old(bytes)@.len(),
        u32_at(final(bytes)@, off as int) == v,
        forall|k: int|
            0 <= k < old(bytes)@.len() && !(off <= k < off + 4) ==> final(bytes)@[k] == old(
                bytes,
            )@[k],
{
    write_u16(bytes, off, (v % 0x1_0000) as u16);
    write_u16(bytes, off + 2, (v / 0x1_0000) as u16);
}

/// Writes `v` at offset `off` as eight little-endian bytes, leaving every
/// other byte unchanged.
pub fn write_u64(bytes: &mut Vec<u8>, off: usize, v: u64)
    requires
        off + 8 <= old(bytes).len(),
    ensures
        final(bytes)@.len() == old(bytes)@.len(),
        u64_at(final(bytes)@, off as int) == v,
        forall|k: int|
            0 <= k < old(bytes)@.len() && !(off <= k < off + 8) ==> final(bytes)@[k] == old(
                bytes,
            )@[k],
{
    write_u32(bytes, off, (v % 0x1_0000_0000) as u32);
    write_u32(bytes, off + 4, (v / 0x1_0000_0000) as u32);
}

} // verus!
