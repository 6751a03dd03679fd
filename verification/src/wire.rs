//! Little-endian `u16` fields, the only multi-byte scalar of the format.

use vstd::prelude::*;

verus! {

/// Encoded size of the table header, in bytes.
pub const HEADER_LEN: usize = 2;

/// Encoded size of one offset record, in bytes.
pub const RECORD_LEN: usize = 14;

/// Size of an Ed25519 public key, in bytes.
pub const PUBLIC_KEY_LEN: usize = 32;

/// Size of an Ed25519 signature, in bytes.
pub const SIGNATURE_LEN: usize = 64;

/// The value of a two-byte little-endian field.
pub open spec fn u16_from_le(lo: u8, hi: u8) -> u16 {
    (lo as int + 256 * hi as int) as u16
}

/// The first (least significant) byte of a little-endian `u16` field.
pub open spec fn u16_lo(v: u16) -> u8 {
    (v as int % 256) as u8
}

/// The second (most significant) byte of a little-endian `u16` field.
pub open spec fn u16_hi(v: u16) -> u8 {
    (v as int / 256) as u8
}

/// The little-endian `u16` field that starts at index `at` of `bytes`.
pub open spec fn spec_read_u16(bytes: Seq<u8>, at: int) -> u16
    recommends
        0 <= at,
        at + 2 <= bytes.len(),
{
    u16_from_le(bytes[at], bytes[at + 1])
}

/// The two bytes of a little-endian `u16` field.
pub open spec fn spec_u16_bytes(v: u16) -> Seq<u8> {
    seq![u16_lo(v), u16_hi(v)]
}

/// Splitting a value into its two bytes and joining them again gives the
/// value back.
pub proof fn lemma_u16_join_split(v: u16)
    ensures
        u16_from_le(u16_lo(v), u16_hi(v)) == v,
{
}

/// Joining two bytes and splitting the value again gives the bytes back.
pub proof fn lemma_u16_split_join(lo: u8, hi: u8)
    ensures
        u16_lo(u16_from_le(lo, hi)) == lo,
        u16_hi(u16_from_le(lo, hi)) == hi,
{
}

/// Reads the little-endian `u16` field at index `at`.
pub(crate) fn read_u16(bytes: &[u8], at: usize) -> (v: u16)
    requires
        at + 2 <= bytes.len(),
    ensures
        v == spec_read_u16(bytes@, at as int),
{
    let lo: u16 = bytes[at] as u16;
    let hi: u16 = bytes[at + 1] as u16;
    lo + 256 * hi
}

/// Appends the two bytes of `v`, least significant first.
pub(crate) fn push_u16(out: &mut Vec<u8>, v: u16)
    ensures
        final(out)@ == old(out)@ + spec_u16_bytes(v),
{
    out.push((v % 256) as u8);
    out.push((v / 256) as u8);
}

} // verus!
