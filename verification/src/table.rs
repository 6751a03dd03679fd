//! The whole offset table: a header and the records it announces.

use crate::error::DecodeError;
use crate::header::Ed25519SignatureHeader;
use crate::offsets::{
    lemma_record_reads_own_bytes, lemma_record_round_trip, Ed25519SignatureOffsets,
};
use crate::wire::{HEADER_LEN, RECORD_LEN};
use vstd::prelude::*;

verus! {

/// What a table holds, as mathematics: the header and the records in stream
/// order.
pub struct TableView {
    /// The decoded header.
    pub header: Ed25519SignatureHeader,
    /// The records; index `i` describes the `i`-th signature verification.
    pub offsets: Seq<Ed25519SignatureOffsets>,
}

impl TableView {
    /// The header's count and the number of records agree.
    pub open spec fn wf(self) -> bool {
        self.offsets.len() == self.header.num_signatures
    }

    /// The byte stream that encodes this table: the two header bytes, then
    /// the fourteen bytes of each record in order. Byte `2 + 14 * i + j` is
    /// byte `j` of record `i`.
    pub open spec fn spec_encode(self) -> Seq<u8> {
        Seq::new(
            (2 + 14 * self.offsets.len()) as nat,
            |k: int|
                if k < 2 {
                    self.header.spec_encode()[k]
                } else {
                    self.offsets[(k - 2) / 14].spec_encode()[(k - 2) % 14]
                },
        )
    }

    /// The table that a byte stream decodes to.
    ///
    /// The stream is truncated when it is too short for the header, or for
    /// the header and the number of records its first byte declares.
    /// Otherwise record `i` is read from the fourteen bytes at `2 + 14 * i`;
    /// bytes after the last record play no part.
    pub open spec fn spec_decode(bytes: Seq<u8>) -> Result<TableView, DecodeError> {
        if bytes.len() < 2 || bytes.len() < 2 + 14 * bytes[0] {
            Err(DecodeError::Truncated)
        } else {
            Ok(
                TableView {
                    header: Ed25519SignatureHeader::spec_read(bytes),
                    offsets: Seq::new(
                        bytes[0] as nat,
                        |i: int| Ed25519SignatureOffsets::spec_read(bytes, 2 + 14 * i),
                    ),
                },
            )
        }
    }
}

/// A decoded offset table.
///
/// The number of records always equals the count in the header.
#[derive(Debug, PartialEq, Eq)]
pub struct Ed25519Signature {
    header: Ed25519SignatureHeader,
    offsets: Vec<Ed25519SignatureOffsets>,
}

impl View for Ed25519Signature {
    type V = TableView;

    closed spec fn view(&self) -> TableView {
        TableView { header: self.header, offsets: self.offsets@ }
    }
}

impl Ed25519Signature {
    #[verifier::type_invariant]
    spec fn counts_agree(self) -> bool {
        self.offsets@.len() == self.header.num_signatures
    }

    /// Builds a table from a padding byte and its records.
    ///
    /// The header's count is the number of records. A table holds at most
    /// 255 of them, the largest count one header byte can declare; with more
    /// there is no table and the result is `None`.
    pub fn new(padding: u8, offsets: Vec<Ed25519SignatureOffsets>) -> (r: Option<Self>)
        ensures
            offsets@.len() <= 255 ==> (r matches Some(table) && table@ == (TableView {
                header: Ed25519SignatureHeader {
                    num_signatures: offsets@.len() as u8,
                    padding,
                },
                offsets: offsets@,
            })),
            offsets@.len() > 255 ==> r is None,
    {
        if offsets.len() > 255 {
            return None;
        }
        let header = Ed25519SignatureHeader { num_signatures: offsets.len() as u8, padding };
        Some(Ed25519Signature { header, offsets })
    }

    /// The header of this table.
    pub fn header(&self) -> (header: Ed25519SignatureHeader)
        ensures
            header == self@.header,
            header.num_signatures == self@.offsets.len(),
    {
        proof {
            use_type_invariant(self);
        }
        self.header
    }

    /// The records of this table, in stream order.
    pub fn offsets(&self) -> (offsets: &[Ed25519SignatureOffsets])
        ensures
            offsets@ == self@.offsets,
            offsets@.len() == self@.header.num_signatures,
    {
        proof {
            use_type_invariant(self);
        }
        self.offsets.as_slice()
    }

    /// Decodes a table from the front of `bytes`.
    ///
    /// Succeeds exactly when `bytes` holds the two header bytes and fourteen
    /// bytes for every record that the first byte declares; any shorter
    /// stream is [`DecodeError::Truncated`]. The count is not held to any
    /// maximum of its own. Records come out in stream order, and bytes after
    /// the last record are not looked at.
    pub fn decode(bytes: &[u8]) -> (r: Result<Self, DecodeError>)
        ensures
            match r {
                Ok(table) => TableView::spec_decode(bytes@) == Ok::<TableView, DecodeError>(
                    table@,
                ),
                Err(e) => TableView::spec_decode(bytes@) == Err::<TableView, DecodeError>(e),
            },
            r is Ok <==> bytes@.len() >= 2 && bytes@.len() >= 2 + 14 * bytes@[0],
            r is Err ==> r == Err::<Self, DecodeError>(DecodeError::Truncated),
            r matches Ok(table) ==> {
                &&& table@.header == Ed25519SignatureHeader::spec_read(bytes@)
                &&& table@.offsets.len() == table@.header.num_signatures
                &&& forall|i: int|
                    0 <= i < table@.offsets.len() ==> table@.offsets[i]
                        == Ed25519SignatureOffsets::spec_read(bytes@, 2 + 14 * i)
                &&& table@.spec_encode() == bytes@.subrange(0, 2 + 14 * bytes@[0])
            },
    {
        let header = match Ed25519SignatureHeader::decode(bytes) {
            Ok(header) => header,
            Err(e) => {
                return Err(e);
            },
        };
        let count: usize = header.num_signatures as usize;
        if bytes.len() < header.table_len() {
            return Err(DecodeError::Truncated);
        }
        let mut offsets: Vec<Ed25519SignatureOffsets> = Vec::with_capacity(count);
        let mut i: usize = 0;
        while i < count
            invariant
                i <= count,
                count == bytes@[0],
                bytes.len() >= 2 + 14 * count,
                offsets@.len() == i,
                forall|k: int|
                    0 <= k < i ==> offsets@[k] == Ed25519SignatureOffsets::spec_read(
                        bytes@,
                        2 + 14 * k,
                    ),
            decreases count - i,
        {
            let record = Ed25519SignatureOffsets::read_at(bytes, HEADER_LEN + RECORD_LEN * i);
            offsets.push(record);
            i += 1;
        }
        let table = Ed25519Signature { header, offsets };
        proof {
            assert(table@.offsets =~= TableView::spec_decode(bytes@)->Ok_0.offsets);
            lemma_decode_then_encode(bytes@);
        }
        Ok(table)
    }

    /// Encodes this table as the byte stream that decodes to it.
    pub fn encode(&self) -> (out: Vec<u8>)
        ensures
            out@ == self@.spec_encode(),
            out@.len() == self@.header.spec_table_len(),
    {
        proof {
            use_type_invariant(self);
        }
        let ghost encoded = self@.spec_encode();
        let mut out: Vec<u8> = self.header.encode();
        assert(out@ =~= encoded.subrange(0, 2));
        let mut i: usize = 0;
        while i < self.offsets.len()
            invariant
                i <= self.offsets.len(),
                encoded == self@.spec_encode(),
                out@ == encoded.subrange(0, 2 + 14 * i),
            decreases self.offsets.len() - i,
        {
            let record = &self.offsets[i];
            record.write_to(&mut out);
            assert(out@ =~= encoded.subrange(0, 2 + 14 * (i + 1))) by {
                lemma_record_bytes(self@, i as int);
            }
            i += 1;
        }
        assert(out@ =~= encoded);
        out
    }
}

/// The fourteen bytes of the encoding that start at `2 + 14 * i` are the
/// encoding of record `i`.
proof fn lemma_record_bytes(table: TableView, i: int)
    requires
        0 <= i < table.offsets.len(),
    ensures
        table.spec_encode().subrange(2 + 14 * i, 2 + 14 * i + 14) == table.offsets[i].spec_encode(),
{
    let encoded = table.spec_encode();
    let part = encoded.subrange(2 + 14 * i, 2 + 14 * i + 14);
    let record = table.offsets[i].spec_encode();
    assert forall|j: int| 0 <= j < 14 implies part[j] == record[j] by {
        let k: int = 2 + 14 * i + j;
        assert((k - 2) / 14 == i);
        assert((k - 2) % 14 == j);
    }
    assert(part =~= record);
}

/// Encoding a table and decoding the bytes gives the table back, for every
/// count from 0 to 255, every padding byte and every field value.
pub proof fn lemma_encode_then_decode(table: TableView)
    requires
        table.wf(),
    ensures
        TableView::spec_decode(table.spec_encode()) == Ok::<TableView, DecodeError>(table),
{
    let encoded = table.spec_encode();
    let decoded = TableView::spec_decode(encoded)->Ok_0;
    assert forall|i: int| 0 <= i < table.offsets.len() implies decoded.offsets[i]
        == table.offsets[i] by {
        lemma_record_reads_own_bytes(encoded, 2 + 14 * i);
        lemma_record_bytes(table, i);
        lemma_record_round_trip(table.offsets[i]);
    }
    assert(decoded.offsets =~= table.offsets);
}

/// Decoding a stream and encoding the table gives back exactly the bytes
/// that were consumed: the first `2 + 14 * n` of the stream, where `n` is the
/// count in its first byte.
pub proof fn lemma_decode_then_encode(bytes: Seq<u8>)
    requires
        TableView::spec_decode(bytes) is Ok,
    ensures
        TableView::spec_decode(bytes)->Ok_0.wf(),
        TableView::spec_decode(bytes)->Ok_0.spec_encode() == bytes.subrange(
            0,
            2 + 14 * bytes[0],
        ),
{
    let table = TableView::spec_decode(bytes)->Ok_0;
    let encoded = table.spec_encode();
    let consumed = bytes.subrange(0, 2 + 14 * bytes[0]);
    assert(encoded =~= consumed);
}

/// Decoding reads the header and the declared records and nothing else:
/// two streams that agree on their first `2 + 14 * n` bytes, where `n` is
/// the count in the first byte, decode alike.
pub proof fn lemma_decode_reads_prefix_only(a: Seq<u8>, b: Seq<u8>)
    requires
        TableView::spec_decode(a) is Ok,
        b.len() >= 2 + 14 * a[0],
        b.subrange(0, 2 + 14 * a[0]) == a.subrange(0, 2 + 14 * a[0]),
    ensures
        TableView::spec_decode(b) == TableView::spec_decode(a),
{
    let n: int = 2 + 14 * a[0];
    assert forall|k: int| 0 <= k < n implies a[k] == b[k] by {
        assert(a.subrange(0, n)[k] == b.subrange(0, n)[k]);
    }
    assert(TableView::spec_decode(a)->Ok_0.offsets =~= TableView::spec_decode(b)->Ok_0.offsets);
}

} // verus!
