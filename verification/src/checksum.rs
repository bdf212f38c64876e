//! The per-index checksum table a client validates its cache against.
//!
//! One entry per index table, pushed in index-id order: the CRC of the
//! index's raw bytes and its revision counter. The table answers one
//! question — does the client's CRC sequence match ours, element for
//! element — and serializes once into a raw codec envelope for the wire.

use vstd::prelude::*;

use crate::codec;
use crate::codec::Compression;
use crate::codec::spec_envelope;
use crate::error::ReadError;

verus! {

/// One index's checksum data: the CRC of its raw bytes and its revision.
#[derive(Clone, Copy, Debug, PartialEq, Eq, Structural)]
pub struct Entry {
    pub crc: u32,
    pub revision: u32,
}

/// Used to check the validity of the cache. Entries are pushed once,
/// in index-id order; the table is then either validated against a
/// client's CRC sequence or consumed by `encode`.
#[derive(Clone, Debug)]
pub struct Checksum {
    entries: Vec<Entry>,
}

impl View for Checksum {
    type V = Seq<Entry>;

    closed spec fn view(&self) -> Seq<Entry> {
        self.entries@
    }
}

/// The eight bytes one entry contributes to the serialized table: its
/// CRC then its revision, big-endian.
pub open spec fn spec_entry_bytes(e: Entry) -> Seq<u8> {
    seq![
        ((e.crc / 0x100_0000) % 0x100) as u8,
        ((e.crc / 0x1_0000) % 0x100) as u8,
        ((e.crc / 0x100) % 0x100) as u8,
        (e.crc % 0x100) as u8,
        ((e.revision / 0x100_0000) % 0x100) as u8,
        ((e.revision / 0x1_0000) % 0x100) as u8,
        ((e.revision / 0x100) % 0x100) as u8,
        (e.revision % 0x100) as u8,
    ]
}

/// The serialized table body: every entry's eight bytes, in order.
pub open spec fn spec_checksum_payload(entries: Seq<Entry>) -> Seq<u8>
    decreases entries.len(),
{
    if entries.len() == 0 {
        Seq::empty()
    } else {
        spec_entry_bytes(entries[0]) + spec_checksum_payload(entries.skip(1))
    }
}

/// The serialized table grows entry by entry: appending an entry appends
/// exactly its eight bytes.
proof fn lemma_checksum_payload_push(entries: Seq<Entry>, e: Entry)
    ensures
        spec_checksum_payload(entries.push(e)) == spec_checksum_payload(entries)
            + spec_entry_bytes(e),
    decreases entries.len(),
{
    if entries.len() == 0 {
        assert(entries.push(e).skip(1) =~= Seq::<Entry>::empty());
        assert(spec_checksum_payload(Seq::<Entry>::empty()) == Seq::<u8>::empty());
        assert(entries.push(e)[0] == e);
        assert(spec_entry_bytes(e) + Seq::<u8>::empty() =~= spec_entry_bytes(e));
        assert(entries =~= Seq::<Entry>::empty());
        assert(Seq::<u8>::empty() + spec_entry_bytes(e) =~= spec_entry_bytes(e));
    } else {
        assert(entries.push(e).skip(1) =~= entries.skip(1).push(e));
        lemma_checksum_payload_push(entries.skip(1), e);
        assert(entries.push(e)[0] == entries[0]);
        assert(spec_entry_bytes(entries[0]) + (spec_checksum_payload(entries.skip(1))
            + spec_entry_bytes(e)) =~= (spec_entry_bytes(entries[0]) + spec_checksum_payload(
            entries.skip(1),
        )) + spec_entry_bytes(e));
    }
}

/// The serialized table body is eight bytes per entry.
pub proof fn lemma_checksum_payload_len(entries: Seq<Entry>)
    ensures
        spec_checksum_payload(entries).len() == 8 * entries.len(),
    decreases entries.len(),
{
    if entries.len() > 0 {
        lemma_checksum_payload_len(entries.skip(1));
    }
}

impl Checksum {
    /// An empty table.
    pub fn new() -> (r: Self)
        ensures
            r@ == Seq::<Entry>::empty(),
    {
        Self { entries: Vec::new() }
    }

    /// Appends one entry; order is significant, so callers push in
    /// index-id order.
    pub fn push(&mut self, entry: Entry)
        ensures
            final(self)@ == old(self)@.push(entry),
    {
        self.entries.push(entry);
    }

    /// Validates the given crcs against the internal crcs of the
    /// `Checksum`: true exactly when the sequences agree in length and,
    /// position by position, in value. One differing or missing element
    /// invalidates the whole table.
    pub fn validate_crcs(&self, crcs: &[u32]) -> (r: bool)
        ensures
            r <==> (crcs@.len() == self@.len() && (forall|i: int|
                0 <= i < self@.len() ==> crcs@[i] == self@[i].crc)),
    {
        if crcs.len() != self.entries.len() {
            return false;
        }
        let mut i: usize = 0;
        while i < self.entries.len()
            invariant
                i <= self@.len(),
                crcs@.len() == self@.len(),
                forall|j: int| 0 <= j < i ==> crcs@[j] == self@[j].crc,
            decreases self@.len() - i,
        {
            if *vstd::slice::slice_index_get(crcs, i) != self.entries[i].crc {
                return false;
            }
            i = i + 1;
        }
        true
    }

    /// Consumes the `Checksum` and encodes it into a byte buffer: every
    /// entry's CRC and revision, big-endian in insertion order, wrapped
    /// in a raw codec envelope with no revision trailer. Consuming the
    /// table keeps it from being validated or serialized twice.
    pub fn encode(self) -> (r: Result<Vec<u8>, ReadError>)
        ensures
            r is Ok <==> 8 * self@.len() <= u32::MAX,
            r is Ok ==> r->Ok_0@ == spec_envelope(
                Compression::Uncompressed,
                spec_checksum_payload(self@),
                None,
            ),
            r is Err ==> r->Err_0 == ReadError::PayloadTooLarge,
    {
        let mut buffer: Vec<u8> = Vec::new();
        let mut i: usize = 0;
        proof {
            assert(self@.subrange(0, 0) =~= Seq::<Entry>::empty());
        }
        while i < self.entries.len()
            invariant
                i <= self@.len(),
                buffer@ == spec_checksum_payload(self@.subrange(0, i as int)),
                buffer@.len() == 8 * i,
            decreases self@.len() - i,
        {
            let e: Entry = self.entries[i];
            crate::cursor::push_u32_be(&mut buffer, e.crc);
            crate::cursor::push_u32_be(&mut buffer, e.revision);
            proof {
                lemma_checksum_payload_push(self@.subrange(0, i as int), self@[i as int]);
                lemma_checksum_payload_len(self@.subrange(0, i as int));
                assert(self@.subrange(0, i + 1) =~= self@.subrange(0, i as int).push(
                    self@[i as int],
                ));
                assert(buffer@ =~= spec_checksum_payload(self@.subrange(0, i as int))
                    + spec_entry_bytes(self@[i as int]));
            }
            i = i + 1;
        }
        proof {
            assert(self@.subrange(0, self@.len() as int) =~= self@);
        }
        if buffer.len() > 0xFFFF_FFFFusize {
            return Err(ReadError::PayloadTooLarge);
        }
        match codec::encode(Compression::Uncompressed, buffer.as_slice(), None) {
            Ok(encoded) => Ok(encoded),
            Err(_) => {
                proof {
                    assert(false);
                }
                Err(ReadError::PayloadTooLarge)
            },
        }
    }
}

impl Default for Checksum {
    fn default() -> (r: Self)
        ensures
            r@ == Seq::<Entry>::empty(),
    {
        Self { entries: Vec::new() }
    }
}

} // verus!
