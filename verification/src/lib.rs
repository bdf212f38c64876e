//! Read engine for a legacy game-client asset cache.
//!
//! The cache is one flat container holding many independently addressable
//! archives, each split across fixed-size linked sectors. This crate
//! reassembles an archive's bytes from its sector chain while validating
//! every block against its expected identity, unwraps the compression
//! envelope around stored payloads, and builds the per-index checksum
//! table a client uses to decide whether its cached copies are current.

pub mod arc;
pub mod chain;
pub mod checksum;
pub mod codec;
pub mod cursor;
pub mod error;
pub mod sec;
