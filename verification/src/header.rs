//! The two-byte header that opens an offset table.

use crate::error::DecodeError;
use crate::wire::{HEADER_LEN, RECORD_LEN};
use vstd::prelude::*;

verus! {

/// The header of an offset table: how many records follow, and one reserved
/// byte.
#[derive(Clone, Copy, Debug, PartialEq, Eq, Structural)]
pub struct Ed25519SignatureHeader {
    /// Number of offset records that follow the header.
    pub num_signatures: u8,
    /// Reserved byte; decoded and kept, never interpreted.
    pub padding: u8,
}

impl Ed25519SignatureHeader {
    /// The header held by the first two bytes of `bytes`.
    pub open spec fn spec_read(bytes: Seq<u8>) -> Self
        recommends
            bytes.len() >= 2,
    {
        Ed25519SignatureHeader { num_signatures: bytes[0], padding: bytes[1] }
    }

    /// The two bytes that encode this header.
    pub open spec fn spec_encode(self) -> Seq<u8> {
        seq![self.num_signatures, self.padding]
    }

    /// Length in bytes of the whole table that this header announces: the
    /// header itself and fourteen bytes for each declared record.
    pub open spec fn spec_table_len(self) -> nat {
        (2 + 14 * self.num_signatures) as nat
    }

    /// Decodes a header from the front of `bytes`.
    ///
    /// Fails with [`DecodeError::Truncated`] exactly when fewer than two
    /// bytes are available. Bytes after the second are not looked at.
    pub fn decode(bytes: &[u8]) -> (r: Result<Self, DecodeError>)
        ensures
            bytes@.len() >= 2 ==> r == Ok::<Self, DecodeError>(Self::spec_read(bytes@)),
            bytes@.len() < 2 ==> r == Err::<Self, DecodeError>(DecodeError::Truncated),
    {
        if bytes.len() < HEADER_LEN {
            return Err(DecodeError::Truncated);
        }
        Ok(Ed25519SignatureHeader { num_signatures: bytes[0], padding: bytes[1] })
    }

    /// Encodes this header as its two bytes.
    pub fn encode(&self) -> (out: Vec<u8>)
        ensures
            out@ == self.spec_encode(),
    {
        let mut out: Vec<u8> = Vec::with_capacity(HEADER_LEN);
        out.push(self.num_signatures);
        out.push(self.padding);
        out
    }

    /// Length in bytes of the whole table that this header announces.
    pub fn table_len(&self) -> (n: usize)
        ensures
            n == self.spec_table_len(),
    {
        HEADER_LEN + RECORD_LEN * (self.num_signatures as usize)
    }
}

/// Decoding the encoding of a header gives the header back.
pub proof fn lemma_header_round_trip(header: Ed25519SignatureHeader)
    ensures
        header.spec_encode().len() == 2,
        Ed25519SignatureHeader::spec_read(header.spec_encode()) == header,
{
}

} // verus!
