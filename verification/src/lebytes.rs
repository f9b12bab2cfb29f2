//! Little-endian field reads from the archive buffer.  The archive format
//! is fixed-endian regardless of platform, so every multi-byte field goes
//! through these explicit readers.

use vstd::bytes::{spec_u16_from_le_bytes, spec_u32_from_le_bytes, u16_from_le_bytes,
    u32_from_le_bytes};
use vstd::prelude::*;

verus! {

/// The u16 encoded little-endian at byte offset `off` of `s`.
pub open spec fn le_u16(s: Seq<u8>, off: int) -> u16
    recommends
        0 <= off,
        off + 2 <= s.len(),
{
    spec_u16_from_le_bytes(s.subrange(off, off + 2))
}

/// The u32 encoded little-endian at byte offset `off` of `s`.
pub open spec fn le_u32(s: Seq<u8>, off: int) -> u32
    recommends
        0 <= off,
        off + 4 <= s.len(),
{
    spec_u32_from_le_bytes(s.subrange(off, off + 4))
}

/// Reads the little-endian u16 at byte offset `off` of `data`.
pub fn read_u16_le(data: &[u8], off: usize) -> (x: u16)
    requires
        off + 2 <= data@.len(),
    ensures
        x == le_u16(data@, off as int),
{
    let n: usize = data.len();
    u16_from_le_bytes(&data[off..off + 2])
}

/// Reads the little-endian u32 at byte offset `off` of `data`.
pub fn read_u32_le(data: &[u8], off: usize) -> (x: u32)
    requires
        off + 4 <= data@.len(),
    ensures
        x == le_u32(data@, off as int),
{
    let n: usize = data.len();
    u32_from_le_bytes(&data[off..off + 4])
}

/// A 4-byte little-endian encoding determines its value and the value
/// determines the bytes: equal decodings of equal-length windows force
/// the windows themselves to agree.
pub proof fn lemma_le_u32_injective(s1: Seq<u8>, s2: Seq<u8>, off1: int, off2: int)
    requires
        0 <= off1,
        off1 + 4 <= s1.len(),
        0 <= off2,
        off2 + 4 <= s2.len(),
        le_u32(s1, off1) == le_u32(s2, off2),
    ensures
        s1.subrange(off1, off1 + 4) == s2.subrange(off2, off2 + 4),
{
    vstd::bytes::lemma_auto_spec_u32_to_from_le_bytes();
    let b1 = s1.subrange(off1, off1 + 4);
    let b2 = s2.subrange(off2, off2 + 4);
    assert(vstd::bytes::spec_u32_to_le_bytes(spec_u32_from_le_bytes(b1)) == b1);
    assert(vstd::bytes::spec_u32_to_le_bytes(spec_u32_from_le_bytes(b2)) == b2);
}

} // verus!
