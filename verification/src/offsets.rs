//! One offset record: where a signature, its public key and the signed
//! message lie inside instruction data.

use crate::error::DecodeError;
use crate::key::PublicKey;
use crate::wire::{
    push_u16, read_u16, spec_read_u16, u16_hi, u16_lo, PUBLIC_KEY_LEN, RECORD_LEN, SIGNATURE_LEN,
};
use vstd::prelude::*;
use vstd::slice::{slice_subrange, slice_to_vec};

verus! {

/// The byte ranges of one signature verification.
///
/// Offsets and sizes count bytes of an instruction data buffer. The
/// `*_instruction_index` fields say which instruction of the transaction a
/// range refers to; they are decoded and kept, and the accessors work on
/// whichever buffer the caller hands them.
#[derive(Clone, Copy, Debug, PartialEq, Eq, Structural)]
pub struct Ed25519SignatureOffsets {
    /// Offset of the 64-byte signature.
    pub signature_offset: u16,
    /// Instruction that holds the signature.
    pub signature_instruction_index: u16,
    /// Offset of the 32-byte public key.
    pub public_key_offset: u16,
    /// Instruction that holds the public key.
    pub public_key_instruction_index: u16,
    /// Offset of the first message byte.
    pub message_data_offset: u16,
    /// Number of message bytes.
    pub message_data_size: u16,
    /// Instruction that holds the message.
    pub message_instruction_index: u16,
}

impl Ed25519SignatureOffsets {
    /// The record held by the fourteen bytes of `bytes` that start at index
    /// `at`: seven little-endian `u16` fields in declaration order.
    pub open spec fn spec_read(bytes: Seq<u8>, at: int) -> Self
        recommends
            0 <= at,
            at + 14 <= bytes.len(),
    {
        Ed25519SignatureOffsets {
            signature_offset: spec_read_u16(bytes, at),
            signature_instruction_index: spec_read_u16(bytes, at + 2),
            public_key_offset: spec_read_u16(bytes, at + 4),
            public_key_instruction_index: spec_read_u16(bytes, at + 6),
            message_data_offset: spec_read_u16(bytes, at + 8),
            message_data_size: spec_read_u16(bytes, at + 10),
            message_instruction_index: spec_read_u16(bytes, at + 12),
        }
    }

    /// The fourteen bytes that encode this record.
    pub open spec fn spec_encode(self) -> Seq<u8> {
        seq![
            u16_lo(self.signature_offset),
            u16_hi(self.signature_offset),
            u16_lo(self.signature_instruction_index),
            u16_hi(self.signature_instruction_index),
            u16_lo(self.public_key_offset),
            u16_hi(self.public_key_offset),
            u16_lo(self.public_key_instruction_index),
            u16_hi(self.public_key_instruction_index),
            u16_lo(self.message_data_offset),
            u16_hi(self.message_data_offset),
            u16_lo(self.message_data_size),
            u16_hi(self.message_data_size),
            u16_lo(self.message_instruction_index),
            u16_hi(self.message_instruction_index),
        ]
    }

    /// Reads the record that starts at index `at`.
    pub(crate) fn read_at(bytes: &[u8], at: usize) -> (record: Self)
        requires
            at + 14 <= bytes.len(),
        ensures
            record == Self::spec_read(bytes@, at as int),
    {
        Ed25519SignatureOffsets {
            signature_offset: read_u16(bytes, at),
            signature_instruction_index: read_u16(bytes, at + 2),
            public_key_offset: read_u16(bytes, at + 4),
            public_key_instruction_index: read_u16(bytes, at + 6),
            message_data_offset: read_u16(bytes, at + 8),
            message_data_size: read_u16(bytes, at + 10),
            message_instruction_index: read_u16(bytes, at + 12),
        }
    }

    /// Appends the fourteen bytes of this record to `out`.
    pub(crate) fn write_to(&self, out: &mut Vec<u8>)
        ensures
            final(out)@ == old(out)@ + self.spec_encode(),
    {
        push_u16(out, self.signature_offset);
        push_u16(out, self.signature_instruction_index);
        push_u16(out, self.public_key_offset);
        push_u16(out, self.public_key_instruction_index);
        push_u16(out, self.message_data_offset);
        push_u16(out, self.message_data_size);
        push_u16(out, self.message_instruction_index);
    }

    /// Decodes one record from the front of `bytes`.
    ///
    /// Fails with [`DecodeError::Truncated`] exactly when fewer than
    /// fourteen bytes are available. Bytes after the fourteenth are not
    /// looked at.
    pub fn decode(bytes: &[u8]) -> (r: Result<Self, DecodeError>)
        ensures
            bytes@.len() >= 14 ==> r == Ok::<Self, DecodeError>(Self::spec_read(bytes@, 0)),
            bytes@.len() < 14 ==> r == Err::<Self, DecodeError>(DecodeError::Truncated),
    {
        if bytes.len() < RECORD_LEN {
            return Err(DecodeError::Truncated);
        }
        Ok(Self::read_at(bytes, 0))
    }

    /// Encodes this record as its fourteen bytes.
    pub fn encode(&self) -> (out: Vec<u8>)
        ensures
            out@ == self.spec_encode(),
    {
        let mut out: Vec<u8> = Vec::with_capacity(RECORD_LEN);
        self.write_to(&mut out);
        out
    }
}

impl Ed25519SignatureOffsets {
    /// The 32 bytes of `data` that this record names as the public key.
    pub open spec fn spec_signer(self, data: Seq<u8>) -> Seq<u8>
        recommends
            self.public_key_offset + 32 <= data.len(),
    {
        data.subrange(self.public_key_offset as int, self.public_key_offset + 32)
    }

    /// The 64 bytes of `data` that this record names as the signature.
    pub open spec fn spec_signature(self, data: Seq<u8>) -> Seq<u8>
        recommends
            self.signature_offset + 64 <= data.len(),
    {
        data.subrange(self.signature_offset as int, self.signature_offset + 64)
    }

    /// The bytes of `data` that this record names as the message.
    pub open spec fn spec_message(self, data: Seq<u8>) -> Seq<u8>
        recommends
            self.message_data_offset + self.message_data_size <= data.len(),
    {
        data.subrange(
            self.message_data_offset as int,
            self.message_data_offset + self.message_data_size,
        )
    }

    /// The public key of the signer: a copy of the 32 bytes of `data` at
    /// `public_key_offset`.
    ///
    /// Fails with [`DecodeError::OutOfRange`] exactly when those 32 bytes do
    /// not all lie inside `data`.
    pub fn get_signer(&self, data: &[u8]) -> (r: Result<PublicKey, DecodeError>)
        ensures
            self.public_key_offset + 32 <= data@.len() ==> (r matches Ok(key) && key@
                == self.spec_signer(data@)),
            self.public_key_offset + 32 > data@.len() ==> r == Err::<PublicKey, DecodeError>(
                DecodeError::OutOfRange,
            ),
    {
        match copy_array::<PUBLIC_KEY_LEN>(data, self.public_key_offset as usize) {
            Ok(bytes) => Ok(PublicKey(bytes)),
            Err(e) => Err(e),
        }
    }

    /// The signature: a copy of the 64 bytes of `data` at
    /// `signature_offset`.
    ///
    /// Fails with [`DecodeError::OutOfRange`] exactly when those 64 bytes do
    /// not all lie inside `data`.
    pub fn get_signature(&self, data: &[u8]) -> (r: Result<[u8; SIGNATURE_LEN], DecodeError>)
        ensures
            self.signature_offset + 64 <= data@.len() ==> (r matches Ok(signature) && signature@
                == self.spec_signature(data@)),
            self.signature_offset + 64 > data@.len() ==> r == Err::<
                [u8; SIGNATURE_LEN],
                DecodeError,
            >(DecodeError::OutOfRange),
    {
        copy_array::<SIGNATURE_LEN>(data, self.signature_offset as usize)
    }

    /// The signed message: a fresh copy of the `message_data_size` bytes of
    /// `data` at `message_data_offset`.
    ///
    /// Fails with [`DecodeError::OutOfRange`] exactly when those bytes do
    /// not all lie inside `data`.
    pub fn get_data(&self, data: &[u8]) -> (r: Result<Vec<u8>, DecodeError>)
        ensures
            self.message_data_offset + self.message_data_size <= data@.len() ==> (r matches Ok(
                message,
            ) && message@ == self.spec_message(data@)),
            self.message_data_offset + self.message_data_size > data@.len() ==> r == Err::<
                Vec<u8>,
                DecodeError,
            >(DecodeError::OutOfRange),
    {
        let start: usize = self.message_data_offset as usize;
        let size: usize = self.message_data_size as usize;
        if size > data.len() || start > data.len() - size {
            return Err(DecodeError::OutOfRange);
        }
        Ok(slice_to_vec(slice_subrange(data, start, start + size)))
    }
}

/// Copies the `N` bytes of `data` that start at `start` into an array.
///
/// Fails with [`DecodeError::OutOfRange`] exactly when the range does not
/// lie inside `data`.
fn copy_array<const N: usize>(data: &[u8], start: usize) -> (r: Result<[u8; N], DecodeError>)
    ensures
        start + N <= data@.len() ==> (r matches Ok(out) && out@ == data@.subrange(
            start as int,
            start + N,
        )),
        start + N > data@.len() ==> r == Err::<[u8; N], DecodeError>(DecodeError::OutOfRange),
{
    if N > data.len() || start > data.len() - N {
        return Err(DecodeError::OutOfRange);
    }
    let mut out: [u8; N] = [0u8; N];
    let mut i: usize = 0;
    while i < N
        invariant
            i <= N,
            start + N <= data.len(),
            forall|k: int| 0 <= k < i ==> out@[k] == data@[start + k],
        decreases N - i,
    {
        out[i] = data[start + i];
        i += 1;
    }
    assert(out@ =~= data@.subrange(start as int, start + N));
    Ok(out)
}

/// Decoding the encoding of a record gives the record back.
pub proof fn lemma_record_round_trip(record: Ed25519SignatureOffsets)
    ensures
        record.spec_encode().len() == 14,
        Ed25519SignatureOffsets::spec_read(record.spec_encode(), 0) == record,
{
}

/// A record depends on its own fourteen bytes and on nothing around them.
pub proof fn lemma_record_reads_own_bytes(bytes: Seq<u8>, at: int)
    requires
        0 <= at,
        at + 14 <= bytes.len(),
    ensures
        Ed25519SignatureOffsets::spec_read(bytes, at) == Ed25519SignatureOffsets::spec_read(
            bytes.subrange(at, at + 14),
            0,
        ),
{
}

} // verus!
