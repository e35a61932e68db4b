//! Big-endian integers read out of byte buffers.
use vstd::prelude::*;

verus! {

/// The big-endian 16-bit integer whose bytes start at `at`.
pub open spec fn be16(s: Seq<u8>, at: int) -> int {
    s[at] as int * 256 + s[at + 1] as int
}

/// The big-endian 32-bit integer whose bytes start at `at`.
pub open spec fn be32(s: Seq<u8>, at: int) -> int {
    s[at] as int * 16777216 + s[at + 1] as int * 65536 + s[at + 2] as int * 256 + s[at + 3] as int
}

/// Reads the big-endian 16-bit integer at `at`.
pub fn read_u16(v: &Vec<u8>, at: usize) -> (r: u16)
    requires
        at + 2 <= v@.len(),
    ensures
        r as int == be16(v@, at as int),
{
    let _n = v.len();
    (v[at] as u16) * 256 + (v[at + 1] as u16)
}

/// Reads the big-endian 32-bit integer at `at`.
pub fn read_u32(v: &Vec<u8>, at: usize) -> (r: u32)
    requires
        at + 4 <= v@.len(),
    ensures
        r as int == be32(v@, at as int),
{
    let _n = v.len();
    (v[at] as u32) * 16777216 + (v[at + 1] as u32) * 65536 + (v[at + 2] as u32) * 256 + (v[at
        + 3] as u32)
}

} // verus!
