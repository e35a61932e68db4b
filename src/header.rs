//! The fixed header at the start of every file.
use vstd::prelude::*;
use crate::bytes::{be32, read_u32};
use crate::error::DatError;

verus! {

/// Byte length of the header.
pub const HEADER_SIZE: usize = 32;

/// The eight big-endian words at the start of a file.
#[derive(Debug, Clone, Copy, PartialEq, Eq, Structural)]
pub struct Header {
    /// The file's size in bytes.
    pub file_size: u32,
    /// The body's size in bytes; the relocation table starts right after the body.
    pub body_size: u32,
    /// Number of entries in the relocation table.
    pub reltab_count: u32,
    /// Number of root entries.
    pub root_count: u32,
    /// Number of external-reference entries.
    pub xref_count: u32,
    /// Carried through unread.
    pub unknown_0x14: u32,
    /// Carried through unread.
    pub unknown_0x18: u32,
    /// Carried through unread.
    pub unknown_0x1c: u32,
}

/// The header that the first 32 bytes of `s` encode.
pub open spec fn header_of(s: Seq<u8>) -> Header {
    Header {
        file_size: be32(s, 0) as u32,
        body_size: be32(s, 4) as u32,
        reltab_count: be32(s, 8) as u32,
        root_count: be32(s, 12) as u32,
        xref_count: be32(s, 16) as u32,
        unknown_0x14: be32(s, 20) as u32,
        unknown_0x18: be32(s, 24) as u32,
        unknown_0x1c: be32(s, 28) as u32,
    }
}

/// Reads the header of a buffer of at least 32 bytes.
pub fn parse_header(v: &Vec<u8>) -> (h: Header)
    requires
        v@.len() >= HEADER_SIZE,
    ensures
        h == header_of(v@),
{
    Header {
        file_size: read_u32(v, 0),
        body_size: read_u32(v, 4),
        reltab_count: read_u32(v, 8),
        root_count: read_u32(v, 12),
        xref_count: read_u32(v, 16),
        unknown_0x14: read_u32(v, 20),
        unknown_0x18: read_u32(v, 24),
        unknown_0x1c: read_u32(v, 28),
    }
}

/// Reads the header, failing on a buffer shorter than the header.
pub fn read_header(v: &Vec<u8>) -> (r: Result<Header, DatError>)
    ensures
        v@.len() < HEADER_SIZE ==> r == Err::<Header, DatError>(DatError::TruncatedHeader),
        v@.len() >= HEADER_SIZE ==> r == Ok::<Header, DatError>(header_of(v@)),
{
    if v.len() < HEADER_SIZE {
        Err(DatError::TruncatedHeader)
    } else {
        Ok(parse_header(v))
    }
}

} // verus!
