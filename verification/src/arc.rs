//! The archive locator: where an archive starts and how long it is.

use vstd::prelude::*;

verus! {

/// Identifies one archive inside the cache: which index owns it, the
/// sector its chain starts at, and how many logical bytes it occupies.
/// The index bookkeeping that produces these values lives outside this
/// crate; the read engine only consumes them.
#[derive(Clone, Copy, Debug, PartialEq, Eq, Structural)]
pub struct Archive {
    pub id: u32,
    pub index_id: u8,
    pub sector: usize,
    pub length: usize,
}

} // verus!
