//! The little-endian length codec shared by the header writer and the
//! header reader.
//!
//! The length field is always [`META_SIZE`] bytes wide, whatever the
//! platform's word size, so frames are portable across builds.

use vstd::prelude::*;

use crate::META_SIZE;

verus! {

/// Value of the first [`META_SIZE`] bytes of `s` read as a little-endian
/// unsigned integer.
pub open spec fn le8(s: Seq<u8>) -> int
    recommends
        s.len() >= META_SIZE,
{
    s[0] + s[1] * 0x100 + s[2] * 0x1_0000 + s[3] * 0x100_0000 + s[4] * 0x1_0000_0000 + s[5]
        * 0x100_0000_0000 + s[6] * 0x1_0000_0000_0000 + s[7] * 0x100_0000_0000_0000
}

/// Writes `value` as [`META_SIZE`] little-endian bytes.
pub(crate) fn le8_encode(value: u64) -> (b: [u8; 8])
    ensures
        le8(b@) == value,
{
    let mut b: [u8; 8] = [0; 8];
    let v0 = value;
    b[0] = (v0 % 0x100) as u8;
    let v1 = v0 / 0x100;
    b[1] = (v1 % 0x100) as u8;
    let v2 = v1 / 0x100;
    b[2] = (v2 % 0x100) as u8;
    let v3 = v2 / 0x100;
    b[3] = (v3 % 0x100) as u8;
    let v4 = v3 / 0x100;
    b[4] = (v4 % 0x100) as u8;
    let v5 = v4 / 0x100;
    b[5] = (v5 % 0x100) as u8;
    let v6 = v5 / 0x100;
    b[6] = (v6 % 0x100) as u8;
    let v7 = v6 / 0x100;
    b[7] = (v7 % 0x100) as u8;
    proof {
        assert(v7 < 0x100);
    }
    b
}

/// Reads the first [`META_SIZE`] bytes of `b` as a little-endian unsigned
/// integer.
pub(crate) fn le8_decode(b: &[u8]) -> (v: u64)
    requires
        b@.len() >= META_SIZE,
    ensures
        v == le8(b@),
{
    (b[0] as u64) + (b[1] as u64) * 0x100 + (b[2] as u64) * 0x1_0000 + (b[3] as u64) * 0x100_0000
        + (b[4] as u64) * 0x1_0000_0000 + (b[5] as u64) * 0x100_0000_0000 + (b[6] as u64)
        * 0x1_0000_0000_0000 + (b[7] as u64) * 0x100_0000_0000_0000
}

} // verus!
