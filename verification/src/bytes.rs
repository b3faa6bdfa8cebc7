//! Little-endian readers over a random-access byte source, with their
//! mathematical meaning as spec functions.

use vstd::prelude::*;

verus! {

/// The value of the 16-bit little-endian integer at byte position `i` of `s`.
pub open spec fn le16(s: Seq<u8>, i: int) -> int {
    s[i] as int + 0x100 * (s[i + 1] as int)
}

/// The value of the 32-bit little-endian integer at byte position `i` of `s`.
pub open spec fn le32(s: Seq<u8>, i: int) -> int {
    s[i] as int + 0x100 * (s[i + 1] as int) + 0x10000 * (s[i + 2] as int) + 0x1000000 * (s[i
        + 3] as int)
}

/// Reads the 16-bit little-endian integer at `i`.
pub fn read_u16_le(s: &[u8], i: usize) -> (r: u16)
    requires
        i + 2 <= s@.len(),
    ensures
        r as int == le16(s@, i as int),
{
    s[i] as u16 + 0x100 * (s[i + 1] as u16)
}

/// Reads the 32-bit little-endian integer at `i`.
pub fn read_u32_le(s: &[u8], i: usize) -> (r: u32)
    requires
        i + 4 <= s@.len(),
    ensures
        r as int == le32(s@, i as int),
{
    s[i] as u32 + 0x100 * (s[i + 1] as u32) + 0x10000 * (s[i + 2] as u32) + 0x1000000 * (s[i
        + 3] as u32)
}

} // verus!
