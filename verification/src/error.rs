//! The failures this crate reports.

use vstd::prelude::*;

verus! {

/// Why a table could not be decoded or a byte range could not be extracted.
#[derive(Clone, Copy, Debug, PartialEq, Eq, Structural)]
pub enum DecodeError {
    /// The byte stream ended before the header and every declared record
    /// had been read.
    Truncated,
    /// A record points past the end of the instruction data buffer.
    OutOfRange,
}

} // verus!
