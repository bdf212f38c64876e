//! Linked sectors of the main data file.
//!
//! The data file is a flat run of fixed-size blocks. Every block opens with
//! a big-endian header naming the archive it belongs to, its 0-based chunk
//! position within that archive, the absolute index of the next block, and
//! the owning index table; the rest of the block is payload. Two header
//! layouts exist: archives whose id fits in 16 bits use an 8-byte header
//! over 512 payload bytes, larger ids a 10-byte header over 510 payload
//! bytes — both fill the same 520-byte block.

use vstd::prelude::*;

use crate::arc::Archive;
use crate::cursor::ByteCursor;
use crate::cursor::be_u16_of;
use crate::cursor::be_u24_of;
use crate::cursor::be_u32_of;
use crate::error::ReadError;

verus! {

/// Bytes of a normal sector header.
pub const SECTOR_HEADER_SIZE: usize = 8;

/// Bytes of an expanded sector header.
pub const SECTOR_EXPANDED_HEADER_SIZE: usize = 10;

/// Payload bytes of a sector with a normal header.
pub const SECTOR_DATA_SIZE: usize = 512;

/// Payload bytes of a sector with an expanded header.
pub const SECTOR_EXPANDED_DATA_SIZE: usize = 510;

/// Total bytes of one sector, the same for both layouts.
pub const SECTOR_SIZE: usize = SECTOR_HEADER_SIZE + SECTOR_DATA_SIZE;

/// Conveys the size of the header.
#[derive(Clone, Copy, Debug, PartialEq, Eq, Structural, PartialOrd, Ord, Hash)]
pub enum SectorHeaderSize {
    /// Header consisting of 8 bytes.
    Normal,
    /// Header consisting of 10 bytes.
    Expanded,
}

/// Contains the sector header for reading the next sector
/// and validating the current sector.
#[derive(Clone, Debug, PartialEq, Eq, Structural, PartialOrd, Ord, Hash)]
pub struct SectorHeader {
    pub archive_id: u32,
    pub chunk: usize,
    pub next: usize,
    pub index_id: u8,
}

/// Sector data for reading: one decoded header and the payload bytes
/// that followed it in the block.
#[derive(Clone, Debug)]
pub struct Sector<'a> {
    pub header: SectorHeader,
    pub data_block: &'a [u8],
}

/// Bytes of a header under the given layout.
pub open spec fn spec_header_size(layout: SectorHeaderSize) -> int {
    match layout {
        SectorHeaderSize::Normal => 8,
        SectorHeaderSize::Expanded => 10,
    }
}

/// Payload bytes of a sector under the given layout.
pub open spec fn spec_data_size(layout: SectorHeaderSize) -> int {
    match layout {
        SectorHeaderSize::Normal => 512,
        SectorHeaderSize::Expanded => 510,
    }
}

/// The header that the first bytes of `b` spell under `layout`. Meaningful
/// only when `b` holds at least the header's bytes.
pub open spec fn spec_decode_header(b: Seq<u8>, layout: SectorHeaderSize) -> SectorHeader {
    match layout {
        SectorHeaderSize::Normal => SectorHeader {
            archive_id: be_u16_of(b[0], b[1]) as u32,
            chunk: be_u16_of(b[2], b[3]) as usize,
            next: be_u24_of(b[4], b[5], b[6]) as usize,
            index_id: b[7],
        },
        SectorHeaderSize::Expanded => SectorHeader {
            archive_id: be_u32_of(b[0], b[1], b[2], b[3]) as u32,
            chunk: be_u16_of(b[4], b[5]) as usize,
            next: be_u24_of(b[6], b[7], b[8]) as usize,
            index_id: b[9],
        },
    }
}

/// The bytes that spell `h` under `layout`.
pub open spec fn spec_encode_header(h: SectorHeader, layout: SectorHeaderSize) -> Seq<u8> {
    match layout {
        SectorHeaderSize::Normal => seq![
            ((h.archive_id / 0x100) % 0x100) as u8,
            (h.archive_id % 0x100) as u8,
            ((h.chunk / 0x100) % 0x100) as u8,
            (h.chunk % 0x100) as u8,
            ((h.next / 0x1_0000) % 0x100) as u8,
            ((h.next / 0x100) % 0x100) as u8,
            (h.next % 0x100) as u8,
            h.index_id,
        ],
        SectorHeaderSize::Expanded => seq![
            ((h.archive_id / 0x100_0000) % 0x100) as u8,
            ((h.archive_id / 0x1_0000) % 0x100) as u8,
            ((h.archive_id / 0x100) % 0x100) as u8,
            (h.archive_id % 0x100) as u8,
            ((h.chunk / 0x100) % 0x100) as u8,
            (h.chunk % 0x100) as u8,
            ((h.next / 0x1_0000) % 0x100) as u8,
            ((h.next / 0x100) % 0x100) as u8,
            (h.next % 0x100) as u8,
            h.index_id,
        ],
    }
}

impl SectorHeaderSize {
    /// `Expanded` exactly when the archive id does not fit in 16 bits.
    /// The choice is made once per archive and must be applied to every
    /// block of that archive's chain.
    pub fn select(archive_id: u32) -> (r: Self)
        ensures
            r == SectorHeaderSize::Normal <==> archive_id <= 0xFFFF,
            r == SectorHeaderSize::Expanded <==> archive_id > 0xFFFF,
    {
        if archive_id > 0xFFFF {
            Self::Expanded
        } else {
            Self::Normal
        }
    }

    /// Determines the size of the header for the given archive.
    pub fn from_archive(archive: &Archive) -> (r: Self)
        ensures
            r == SectorHeaderSize::Normal <==> archive.id <= 0xFFFF,
            r == SectorHeaderSize::Expanded <==> archive.id > 0xFFFF,
    {
        Self::select(archive.id)
    }

    /// Bytes the header occupies under this layout.
    pub fn header_size(&self) -> (r: usize)
        ensures
            r == spec_header_size(*self),
    {
        match self {
            Self::Normal => SECTOR_HEADER_SIZE,
            Self::Expanded => SECTOR_EXPANDED_HEADER_SIZE,
        }
    }

    /// Payload bytes a sector holds under this layout.
    pub fn data_size(&self) -> (r: usize)
        ensures
            r == spec_data_size(*self),
    {
        match self {
            Self::Normal => SECTOR_DATA_SIZE,
            Self::Expanded => SECTOR_EXPANDED_DATA_SIZE,
        }
    }
}

impl Default for SectorHeaderSize {
    fn default() -> (r: Self)
        ensures
            r == SectorHeaderSize::Normal,
    {
        Self::Normal
    }
}

impl SectorHeader {
    /// Whether every field fits the widths `layout` gives it on disk.
    pub open spec fn fits(&self, layout: SectorHeaderSize) -> bool {
        &&& match layout {
            SectorHeaderSize::Normal => self.archive_id <= 0xFFFF,
            SectorHeaderSize::Expanded => true,
        }
        &&& self.chunk <= 0xFFFF
        &&& self.next <= 0xFF_FFFF
    }

    /// The result `validate` owes: the first mismatch in the order
    /// archive, then chunk, then index, or `Ok` when all three agree.
    pub open spec fn spec_validate(&self, archive_id: u32, chunk: usize, index_id: u8) -> Result<
        (),
        ReadError,
    > {
        if self.archive_id != archive_id {
            Err(ReadError::SectorArchiveMismatch(self.archive_id, archive_id))
        } else if self.chunk != chunk {
            Err(ReadError::SectorChunkMismatch(self.chunk, chunk))
        } else if self.index_id != index_id {
            Err(ReadError::SectorIndexMismatch(self.index_id, index_id))
        } else {
            Ok(())
        }
    }

    /// Decodes only the header data from the buffer leaving the data block
    /// untouched. Returns the rest of the buffer beside the header.
    pub fn new<'a>(buffer: &'a [u8], header_size: &SectorHeaderSize) -> (r: Result<
        (&'a [u8], Self),
        ReadError,
    >)
        ensures
            r is Ok <==> buffer@.len() >= spec_header_size(*header_size),
            r is Ok ==> r->Ok_0.1 == spec_decode_header(buffer@, *header_size),
            r is Ok ==> r->Ok_0.0@ == buffer@.skip(spec_header_size(*header_size)),
            r is Err ==> r->Err_0 == ReadError::Truncated,
    {
        let mut cursor = ByteCursor::new(buffer);
        let archive_id: u32 = match header_size {
            SectorHeaderSize::Normal => {
                match cursor.read_u16() {
                    Ok(v) => v as u32,
                    Err(e) => {
                        return Err(e);
                    },
                }
            },
            SectorHeaderSize::Expanded => {
                match cursor.read_u32() {
                    Ok(v) => v,
                    Err(e) => {
                        return Err(e);
                    },
                }
            },
        };
        let chunk: u16 = match cursor.read_u16() {
            Ok(v) => v,
            Err(e) => {
                return Err(e);
            },
        };
        let next: u32 = match cursor.read_u24() {
            Ok(v) => v,
            Err(e) => {
                return Err(e);
            },
        };
        let index_id: u8 = match cursor.read_u8() {
            Ok(v) => v,
            Err(e) => {
                return Err(e);
            },
        };
        let remaining: &'a [u8] = cursor.rest();
        let header = SectorHeader { archive_id, chunk: chunk as usize, next: next as usize, index_id };
        proof {
            assert(remaining@ =~= buffer@.skip(spec_header_size(*header_size)));
        }
        Ok((remaining, header))
    }

    /// Spells this header out as the bytes `new` decodes, under the given
    /// layout.
    pub fn encode(&self, header_size: &SectorHeaderSize) -> (r: Vec<u8>)
        requires
            self.fits(*header_size),
        ensures
            r@ == spec_encode_header(*self, *header_size),
            r@.len() == spec_header_size(*header_size),
    {
        let mut buffer: Vec<u8> = Vec::new();
        match header_size {
            SectorHeaderSize::Normal => {
                buffer.push(((self.archive_id / 0x100) % 0x100) as u8);
                buffer.push((self.archive_id % 0x100) as u8);
            },
            SectorHeaderSize::Expanded => {
                buffer.push(((self.archive_id / 0x100_0000) % 0x100) as u8);
                buffer.push(((self.archive_id / 0x1_0000) % 0x100) as u8);
                buffer.push(((self.archive_id / 0x100) % 0x100) as u8);
                buffer.push((self.archive_id % 0x100) as u8);
            },
        }
        buffer.push(((self.chunk / 0x100) % 0x100) as u8);
        buffer.push((self.chunk % 0x100) as u8);
        buffer.push(((self.next / 0x1_0000) % 0x100) as u8);
        buffer.push(((self.next / 0x100) % 0x100) as u8);
        buffer.push((self.next % 0x100) as u8);
        buffer.push(self.index_id);
        proof {
            assert(buffer@ =~= spec_encode_header(*self, *header_size));
        }
        buffer
    }

    /// Validates the current `archive_id`, `chunk` and `index_id` against
    /// the expected values, in that fixed order, reporting the first
    /// disagreement.
    pub fn validate(&self, archive_id: u32, chunk: usize, index_id: u8) -> (r: Result<
        (),
        ReadError,
    >)
        ensures
            r == self.spec_validate(archive_id, chunk, index_id),
            r is Ok <==> self.archive_id == archive_id && self.chunk == chunk && self.index_id
                == index_id,
            self.archive_id != archive_id ==> r == Err::<(), ReadError>(
                ReadError::SectorArchiveMismatch(self.archive_id, archive_id),
            ),
            self.archive_id == archive_id && self.chunk != chunk ==> r == Err::<(), ReadError>(
                ReadError::SectorChunkMismatch(self.chunk, chunk),
            ),
            self.archive_id == archive_id && self.chunk == chunk && self.index_id != index_id
                ==> r == Err::<(), ReadError>(ReadError::SectorIndexMismatch(self.index_id, index_id)),
    {
        if self.archive_id != archive_id {
            return Err(ReadError::SectorArchiveMismatch(self.archive_id, archive_id));
        }
        if self.chunk != chunk {
            return Err(ReadError::SectorChunkMismatch(self.chunk, chunk));
        }
        if self.index_id != index_id {
            return Err(ReadError::SectorIndexMismatch(self.index_id, index_id));
        }
        Ok(())
    }
}

impl Default for SectorHeader {
    fn default() -> (r: Self)
        ensures
            r.archive_id == 0 && r.chunk == 0 && r.next == 0 && r.index_id == 0,
    {
        SectorHeader { archive_id: 0, chunk: 0, next: 0, index_id: 0 }
    }
}

/// Round trip: a header whose fields fit its layout decodes, from its own
/// encoding, back to itself — for every valid combination of archive id,
/// chunk, next pointer, index id and layout.
pub proof fn lemma_header_round_trip(h: SectorHeader, layout: SectorHeaderSize)
    requires
        h.fits(layout),
    ensures
        spec_encode_header(h, layout).len() == spec_header_size(layout),
        spec_decode_header(spec_encode_header(h, layout), layout) == h,
{
    let b = spec_encode_header(h, layout);
    match layout {
        SectorHeaderSize::Normal => {
            assert(be_u16_of(b[0], b[1]) == h.archive_id);
            assert(be_u16_of(b[2], b[3]) == h.chunk);
            assert(be_u24_of(b[4], b[5], b[6]) == h.next);
        },
        SectorHeaderSize::Expanded => {
            assert(be_u32_of(b[0], b[1], b[2], b[3]) == h.archive_id);
            assert(be_u16_of(b[4], b[5]) == h.chunk);
            assert(be_u24_of(b[6], b[7], b[8]) == h.next);
        },
    }
}

impl<'a> Sector<'a> {
    /// Decodes the buffer from the reference table into a `Sector`: the
    /// header per the layout, then all remaining bytes as the payload.
    /// The caller fixes the block boundary by the window it hands in.
    pub fn new(buffer: &'a [u8], header_size: &SectorHeaderSize) -> (r: Result<
        Sector<'a>,
        ReadError,
    >)
        ensures
            r is Ok <==> buffer@.len() >= spec_header_size(*header_size),
            r is Ok ==> r->Ok_0.header == spec_decode_header(buffer@, *header_size),
            r is Ok ==> r->Ok_0.data_block@ == buffer@.skip(spec_header_size(*header_size)),
            r is Err ==> r->Err_0 == ReadError::Truncated,
    {
        match SectorHeader::new(buffer, header_size) {
            Ok((data_block, header)) => Ok(Sector { header, data_block }),
            Err(e) => Err(e),
        }
    }

    /// Convenience function to create a `Sector` with a `Normal` header size.
    pub fn from_normal_header(buffer: &'a [u8]) -> (r: Result<Sector<'a>, ReadError>)
        ensures
            r is Ok <==> buffer@.len() >= 8,
            r is Ok ==> r->Ok_0.header == spec_decode_header(buffer@, SectorHeaderSize::Normal),
            r is Ok ==> r->Ok_0.data_block@ == buffer@.skip(8),
            r is Err ==> r->Err_0 == ReadError::Truncated,
    {
        Self::new(buffer, &SectorHeaderSize::Normal)
    }

    /// Convenience function to create a `Sector` with a `Expanded` header size.
    pub fn from_expanded_header(buffer: &'a [u8]) -> (r: Result<Sector<'a>, ReadError>)
        ensures
            r is Ok <==> buffer@.len() >= 10,
            r is Ok ==> r->Ok_0.header == spec_decode_header(buffer@, SectorHeaderSize::Expanded),
            r is Ok ==> r->Ok_0.data_block@ == buffer@.skip(10),
            r is Err ==> r->Err_0 == ReadError::Truncated,
    {
        Self::new(buffer, &SectorHeaderSize::Expanded)
    }
}

} // verus!
