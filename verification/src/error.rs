//! The error values that cache reads report.
//!
//! Every failure is reported as the first error met and aborts the current
//! operation; nothing here retries. The variants keep the categories apart
//! that callers must distinguish: a truncated buffer, a sector whose header
//! names the wrong identity, a broken or over-long chain, and a payload the
//! codec cannot unwrap.

use vstd::prelude::*;

verus! {

/// The ways a cache read can fail.
#[derive(Clone, Copy, Debug, PartialEq, Eq, Structural)]
pub enum ReadError {
    /// A buffer ended before a fixed-width field could be read.
    Truncated,
    /// A sector header named another archive: (found, expected).
    SectorArchiveMismatch(u32, u32),
    /// A sector header named another chunk: (found, expected).
    SectorChunkMismatch(usize, usize),
    /// A sector header named another index: (found, expected).
    SectorIndexMismatch(u8, u8),
    /// A chain pointed at a sector the source does not hold.
    SectorNotFound(usize),
    /// A chain read more blocks than its declared length can need.
    ChainLimitExceeded,
    /// An envelope carried a compression tag this library does not know.
    UnsupportedCompression(u8),
    /// The compression library rejected the payload.
    CompressionFailure,
    /// A payload was too long for the envelope's 32-bit length field.
    PayloadTooLarge,
}

} // verus!
