//! The ways a decode can fail.
use vstd::prelude::*;

verus! {

/// Why a buffer could not be decoded, or a set of files could not be linked.
#[derive(Debug, Clone, Copy, PartialEq, Eq, Structural)]
pub enum DatError {
    /// The buffer is shorter than the fixed header.
    TruncatedHeader,
    /// A relocation entry names a word that does not lie inside the body.
    InvalidRelocation,
    /// A record, a table or a name lies outside its region.
    OffsetOutOfRange,
    /// An external reference has no root of the same name in any supplied file.
    UnresolvedExternalReference,
}

} // verus!
