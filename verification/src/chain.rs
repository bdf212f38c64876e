//! Archive reassembly: walking a chain of linked sectors.
//!
//! An archive's bytes lie scattered over fixed-size blocks of the data
//! file, each naming the absolute index of the next. `read_archive` starts
//! at the locator's sector, validates every block against the expected
//! archive id, chunk number and index id, and concatenates payload bytes
//! until the declared length is satisfied. The declared length alone ends
//! the walk: the final block's `next` pointer is never followed, so a
//! stale tail pointer cannot drag in a trailing block.

use vstd::prelude::*;

use crate::arc::Archive;
use crate::cursor::append_slice;
use crate::error::ReadError;
use crate::sec::SECTOR_SIZE;
use crate::sec::Sector;
use crate::sec::SectorHeaderSize;
use crate::sec::spec_data_size;
use crate::sec::spec_decode_header;
use crate::sec::spec_header_size;

verus! {

/// The layout every block of an archive with this id must use.
pub open spec fn spec_layout_of(archive_id: u32) -> SectorHeaderSize {
    if archive_id > 0xFFFF {
        SectorHeaderSize::Expanded
    } else {
        SectorHeaderSize::Normal
    }
}

/// Whether the data file holds a whole block for sector index `sector`.
pub open spec fn sector_in_bounds(data: Seq<u8>, sector: int) -> bool {
    0 <= sector && (sector + 1) * (SECTOR_SIZE as int) <= data.len()
}

/// The 520-byte window of sector `sector` within the data file.
pub open spec fn spec_sector_block(data: Seq<u8>, sector: int) -> Seq<u8> {
    data.subrange(sector * (SECTOR_SIZE as int), (sector + 1) * (SECTOR_SIZE as int))
}

/// How many blocks a read may touch before it is declared corrupt: one
/// more than the block count the declared length can need.
pub open spec fn spec_block_limit(length: int, layout: SectorHeaderSize) -> int {
    length / spec_data_size(layout) + if length % spec_data_size(layout) == 0 {
        1int
    } else {
        2int
    }
}

/// What walking the chain yields from `sector` on: `remaining` payload
/// bytes are still owed, the block at `sector` must carry chunk number
/// `chunk`, and at most `limit` more blocks may be read. Every block is
/// validated before its payload counts; the first failure is the result.
pub open spec fn spec_chain_read(
    data: Seq<u8>,
    layout: SectorHeaderSize,
    archive_id: u32,
    index_id: u8,
    sector: int,
    chunk: int,
    remaining: int,
    limit: int,
) -> Result<Seq<u8>, ReadError>
    decreases remaining,
{
    if remaining <= 0 {
        Ok(Seq::empty())
    } else if limit <= 0 {
        Err(ReadError::ChainLimitExceeded)
    } else if !sector_in_bounds(data, sector) {
        Err(ReadError::SectorNotFound(sector as usize))
    } else {
        let h = spec_decode_header(spec_sector_block(data, sector), layout);
        match h.spec_validate(archive_id, chunk as usize, index_id) {
            Err(e) => Err(e),
            Ok(_) => {
                let take = if spec_data_size(layout) <= remaining {
                    spec_data_size(layout)
                } else {
                    remaining
                };
                let payload = spec_sector_block(data, sector).subrange(
                    spec_header_size(layout),
                    spec_header_size(layout) + take,
                );
                match spec_chain_read(
                    data,
                    layout,
                    archive_id,
                    index_id,
                    h.next as int,
                    chunk + 1,
                    remaining - take,
                    limit - 1,
                ) {
                    Ok(tail) => Ok(payload + tail),
                    Err(e) => Err(e),
                }
            },
        }
    }
}

/// The whole archive the locator names, as the chain walk yields it.
pub open spec fn spec_read_archive(data: Seq<u8>, archive: Archive) -> Result<Seq<u8>, ReadError> {
    spec_chain_read(
        data,
        spec_layout_of(archive.id),
        archive.id,
        archive.index_id,
        archive.sector as int,
        0,
        archive.length as int,
        spec_block_limit(archive.length as int, spec_layout_of(archive.id)),
    )
}

/// The sector indices a chain walk visits and validates, in order. The
/// walk of `spec_chain_read` touches exactly these blocks; whatever ends
/// it — the length satisfied, a failed validation, a missing block or the
/// block limit — cuts the sequence off there.
pub open spec fn spec_chain_sectors(
    data: Seq<u8>,
    layout: SectorHeaderSize,
    archive_id: u32,
    index_id: u8,
    sector: int,
    chunk: int,
    remaining: int,
    limit: int,
) -> Seq<int>
    decreases remaining,
{
    if remaining <= 0 || limit <= 0 || !sector_in_bounds(data, sector) {
        Seq::empty()
    } else {
        let h = spec_decode_header(spec_sector_block(data, sector), layout);
        match h.spec_validate(archive_id, chunk as usize, index_id) {
            Err(_) => Seq::empty(),
            Ok(_) => {
                let take = if spec_data_size(layout) <= remaining {
                    spec_data_size(layout)
                } else {
                    remaining
                };
                seq![sector] + spec_chain_sectors(
                    data,
                    layout,
                    archive_id,
                    index_id,
                    h.next as int,
                    chunk + 1,
                    remaining - take,
                    limit - 1,
                )
            },
        }
    }
}

/// On a walk that succeeds, the k-th visited block lies in bounds and
/// carries chunk number `chunk + k`: validation forces the chunk numbers
/// to count up along the chain.
proof fn lemma_chain_chunk_numbers(
    data: Seq<u8>,
    layout: SectorHeaderSize,
    archive_id: u32,
    index_id: u8,
    sector: int,
    chunk: int,
    remaining: int,
    limit: int,
)
    requires
        spec_chain_read(data, layout, archive_id, index_id, sector, chunk, remaining, limit) is Ok,
        0 <= chunk,
        0 <= remaining,
        chunk + remaining <= usize::MAX,
    ensures
        ({
            let v = spec_chain_sectors(data, layout, archive_id, index_id, sector, chunk, remaining, limit);
            &&& v.len() <= remaining
            &&& forall|k: int|
                #![trigger v[k]]
                0 <= k < v.len() ==> sector_in_bounds(data, v[k]) && spec_decode_header(
                    spec_sector_block(data, v[k]),
                    layout,
                ).chunk == chunk + k
        }),
    decreases remaining,
{
    if remaining <= 0 {
    } else {
        let h = spec_decode_header(spec_sector_block(data, sector), layout);
        let take = if spec_data_size(layout) <= remaining {
            spec_data_size(layout)
        } else {
            remaining
        };
        lemma_chain_chunk_numbers(
            data,
            layout,
            archive_id,
            index_id,
            h.next as int,
            chunk + 1,
            remaining - take,
            limit - 1,
        );
        let v = spec_chain_sectors(data, layout, archive_id, index_id, sector, chunk, remaining, limit);
        let tail = spec_chain_sectors(
            data,
            layout,
            archive_id,
            index_id,
            h.next as int,
            chunk + 1,
            remaining - take,
            limit - 1,
        );
        assert(v =~= seq![sector] + tail);
        assert forall|k: int| 0 <= k < v.len() implies sector_in_bounds(data, v[k])
            && spec_decode_header(spec_sector_block(data, v[k]), layout).chunk == chunk + k by {
            if k == 0 {
                assert(h.spec_validate(archive_id, chunk as usize, index_id) is Ok);
                assert(h.chunk == chunk);
            } else {
                assert(v[k] == tail[k - 1]);
            }
        }
    }
}

/// A successful archive read visits no sector twice. Along a valid chain
/// the k-th block must carry chunk number k, so a `next` pointer that
/// turned back into an already-visited block could not validate, and the
/// read would have reported the mismatch instead. A cyclic chain can
/// therefore never satisfy a read: the walk, itself bounded by the block
/// limit, ends in an error.
pub proof fn lemma_read_archive_no_revisit(data: Seq<u8>, archive: Archive)
    requires
        spec_read_archive(data, archive) is Ok,
    ensures
        spec_chain_sectors(
            data,
            spec_layout_of(archive.id),
            archive.id,
            archive.index_id,
            archive.sector as int,
            0,
            archive.length as int,
            spec_block_limit(archive.length as int, spec_layout_of(archive.id)),
        ).no_duplicates(),
{
    let layout = spec_layout_of(archive.id);
    let limit = spec_block_limit(archive.length as int, layout);
    lemma_chain_chunk_numbers(
        data,
        layout,
        archive.id,
        archive.index_id,
        archive.sector as int,
        0,
        archive.length as int,
        limit,
    );
    let v = spec_chain_sectors(
        data,
        layout,
        archive.id,
        archive.index_id,
        archive.sector as int,
        0,
        archive.length as int,
        limit,
    );
    assert forall|i: int, j: int|
        0 <= i < v.len() && 0 <= j < v.len() && i != j implies v[i] != v[j] by {
        if v[i] == v[j] {
            assert(spec_decode_header(spec_sector_block(data, v[i]), layout).chunk == i);
            assert(spec_decode_header(spec_sector_block(data, v[j]), layout).chunk == j);
        }
    }
}

/// How many blocks the declared length needs at all.
pub open spec fn spec_blocks_needed(length: int, layout: SectorHeaderSize) -> int {
    if length <= 0 {
        0
    } else {
        (length - 1) / spec_data_size(layout) + 1
    }
}

/// On a walk that succeeds, the number of visited blocks is exactly what
/// the declared length needs.
proof fn lemma_chain_block_count(
    data: Seq<u8>,
    layout: SectorHeaderSize,
    archive_id: u32,
    index_id: u8,
    sector: int,
    chunk: int,
    remaining: int,
    limit: int,
)
    requires
        spec_chain_read(data, layout, archive_id, index_id, sector, chunk, remaining, limit) is Ok,
        0 <= remaining,
    ensures
        spec_chain_sectors(data, layout, archive_id, index_id, sector, chunk, remaining, limit).len()
            == spec_blocks_needed(remaining, layout),
    decreases remaining,
{
    if remaining <= 0 {
    } else {
        let h = spec_decode_header(spec_sector_block(data, sector), layout);
        let ds = spec_data_size(layout);
        let take = if ds <= remaining {
            ds
        } else {
            remaining
        };
        lemma_chain_block_count(
            data,
            layout,
            archive_id,
            index_id,
            h.next as int,
            chunk + 1,
            remaining - take,
            limit - 1,
        );
        let v = spec_chain_sectors(data, layout, archive_id, index_id, sector, chunk, remaining, limit);
        let tail = spec_chain_sectors(
            data,
            layout,
            archive_id,
            index_id,
            h.next as int,
            chunk + 1,
            remaining - take,
            limit - 1,
        );
        assert(v =~= seq![sector] + tail);
        if ds < remaining {
            match layout {
                SectorHeaderSize::Normal => {
                    assert((remaining - 1) / 512 == (remaining - 512 - 1) / 512 + 1);
                },
                SectorHeaderSize::Expanded => {
                    assert((remaining - 1) / 510 == (remaining - 510 - 1) / 510 + 1);
                },
            }
        }
    }
}

/// The over-read guard as a law: a successful read visits exactly the
/// blocks its declared length needs, so a trailing block that the last
/// needed block still links to is never consumed.
pub proof fn lemma_read_archive_block_count(data: Seq<u8>, archive: Archive)
    requires
        spec_read_archive(data, archive) is Ok,
    ensures
        spec_chain_sectors(
            data,
            spec_layout_of(archive.id),
            archive.id,
            archive.index_id,
            archive.sector as int,
            0,
            archive.length as int,
            spec_block_limit(archive.length as int, spec_layout_of(archive.id)),
        ).len() == spec_blocks_needed(archive.length as int, spec_layout_of(archive.id)),
{
    lemma_chain_block_count(
        data,
        spec_layout_of(archive.id),
        archive.id,
        archive.index_id,
        archive.sector as int,
        0,
        archive.length as int,
        spec_block_limit(archive.length as int, spec_layout_of(archive.id)),
    );
}

/// `r` with `acc` put in front of its payload, errors unchanged.
pub open spec fn spec_prefixed(acc: Seq<u8>, r: Result<Seq<u8>, ReadError>) -> Result<
    Seq<u8>,
    ReadError,
> {
    match r {
        Ok(tail) => Ok(acc + tail),
        Err(e) => Err(e),
    }
}

/// Reads the archive the locator names out of the flat data file.
///
/// The header layout is selected once, from the locator's id, and applied
/// to every block. Each block is validated against the locator's id and
/// index and the running chunk number before its payload is taken; on
/// success the result holds exactly `archive.length` bytes, in chunk
/// order. The walk reads no block past the declared length, and gives up
/// with an error rather than follow a chain longer than that length can
/// need.
pub fn read_archive(data: &[u8], archive: &Archive) -> (r: Result<Vec<u8>, ReadError>)
    ensures
        r is Ok <==> spec_read_archive(data@, *archive) is Ok,
        r is Ok ==> r->Ok_0@ == spec_read_archive(data@, *archive)->Ok_0,
        r is Err ==> r->Err_0 == spec_read_archive(data@, *archive)->Err_0,
        r is Ok ==> r->Ok_0@.len() == archive.length,
{
    let layout = SectorHeaderSize::from_archive(archive);
    let header_size: usize = layout.header_size();
    let data_size: usize = layout.data_size();
    let mut out: Vec<u8> = Vec::new();
    let mut sector: usize = archive.sector;
    let mut chunk: usize = 0;
    let mut remaining: usize = archive.length;
    let spare: usize = if archive.length % data_size == 0 {
        1
    } else {
        2
    };
    let mut limit: usize = archive.length / data_size + spare;
    proof {
        assert(out@ =~= Seq::<u8>::empty());
        assert(Seq::<u8>::empty() + spec_read_archive(data@, *archive)->Ok_0
            =~= spec_read_archive(data@, *archive)->Ok_0);
    }
    while remaining > 0
        invariant
            layout == spec_layout_of(archive.id),
            header_size == spec_header_size(layout),
            data_size == spec_data_size(layout),
            remaining <= archive.length,
            out@.len() == archive.length - remaining,
            chunk <= archive.length - remaining,
            spec_read_archive(data@, *archive) == spec_prefixed(
                out@,
                spec_chain_read(
                    data@,
                    layout,
                    archive.id,
                    archive.index_id,
                    sector as int,
                    chunk as int,
                    remaining as int,
                    limit as int,
                ),
            ),
        decreases remaining,
    {
        let ghost state0 = spec_chain_read(
            data@,
            layout,
            archive.id,
            archive.index_id,
            sector as int,
            chunk as int,
            remaining as int,
            limit as int,
        );
        if limit == 0 {
            return Err(ReadError::ChainLimitExceeded);
        }
        if sector >= data.len() / SECTOR_SIZE {
            proof {
                vstd::arithmetic::div_mod::lemma_fundamental_div_mod(
                    data@.len() as int,
                    SECTOR_SIZE as int,
                );
                if sector_in_bounds(data@, sector as int) {
                    vstd::arithmetic::div_mod::lemma_div_is_ordered(
                        (sector + 1) * (SECTOR_SIZE as int),
                        data@.len() as int,
                        SECTOR_SIZE as int,
                    );
                    assert((sector + 1) * (SECTOR_SIZE as int) / (SECTOR_SIZE as int) == sector
                        + 1) by (nonlinear_arith);
                }
            }
            return Err(ReadError::SectorNotFound(sector));
        }
        proof {
            vstd::arithmetic::div_mod::lemma_fundamental_div_mod(
                data@.len() as int,
                SECTOR_SIZE as int,
            );
            vstd::arithmetic::mul::lemma_mul_inequality(
                sector + 1,
                data@.len() as int / (SECTOR_SIZE as int),
                SECTOR_SIZE as int,
            );
            assert(sector_in_bounds(data@, sector as int));
        }
        let start: usize = sector * SECTOR_SIZE;
        let block: &[u8] = vstd::slice::slice_subrange(data, start, start + SECTOR_SIZE);
        proof {
            assert(block@ =~= spec_sector_block(data@, sector as int));
        }
        let sec = match Sector::new(block, &layout) {
            Ok(s) => s,
            Err(e) => {
                proof {
                    assert(false);
                }
                return Err(e);
            },
        };
        match sec.header.validate(archive.id, chunk, archive.index_id) {
            Ok(_) => {},
            Err(e) => {
                return Err(e);
            },
        }
        let take: usize = if data_size <= remaining {
            data_size
        } else {
            remaining
        };
        let piece: &[u8] = vstd::slice::slice_subrange(sec.data_block, 0, take);
        let ghost out0 = out@;
        append_slice(&mut out, piece);
        proof {
            let b = spec_sector_block(data@, sector as int);
            assert(piece@ =~= b.subrange(
                spec_header_size(layout),
                spec_header_size(layout) + take as int,
            ));
            let tail_state = spec_chain_read(
                data@,
                layout,
                archive.id,
                archive.index_id,
                sec.header.next as int,
                chunk + 1,
                remaining - take,
                limit - 1,
            );
            assert(state0 == spec_prefixed(piece@, tail_state));
            match tail_state {
                Ok(tail) => {
                    assert(out0 + (piece@ + tail) =~= (out0 + piece@) + tail);
                },
                Err(_) => {},
            }
            assert(spec_prefixed(out0, state0) == spec_prefixed(out@, tail_state));
        }
        sector = sec.header.next;
        chunk = chunk + 1;
        remaining = remaining - take;
        limit = limit - 1;
    }
    proof {
        assert(out@ + Seq::<u8>::empty() =~= out@);
    }
    Ok(out)
}

} // verus!
