//! A sequential big-endian reader over a borrowed byte slice.
//!
//! Every component of the cache decodes its fixed-width fields through a
//! `ByteCursor`: unsigned integers of one to four bytes, zero-terminated
//! byte strings, and the two-width "smart" integers of the cache's wire
//! format. A read past the end of the slice reports `Truncated` and leaves
//! the cursor where it stood.

use vstd::prelude::*;

use crate::error::ReadError;

verus! {

/// The value of two bytes read big-endian.
pub open spec fn be_u16_of(b0: u8, b1: u8) -> int {
    b0 * 0x100 + b1
}

/// The value of three bytes read big-endian.
pub open spec fn be_u24_of(b0: u8, b1: u8, b2: u8) -> int {
    b0 * 0x1_0000 + b1 * 0x100 + b2
}

/// The value of four bytes read big-endian.
pub open spec fn be_u32_of(b0: u8, b1: u8, b2: u8, b3: u8) -> int {
    b0 * 0x100_0000 + b1 * 0x1_0000 + b2 * 0x100 + b3
}

/// Appends every byte of `piece` to `out`.
pub fn append_slice(out: &mut Vec<u8>, piece: &[u8])
    ensures
        final(out)@ == old(out)@ + piece@,
{
    let mut i: usize = 0;
    while i < piece.len()
        invariant
            i <= piece@.len(),
            out@ == old(out)@ + piece@.subrange(0, i as int),
        decreases piece@.len() - i,
    {
        let b: u8 = *vstd::slice::slice_index_get(piece, i);
        out.push(b);
        i = i + 1;
        proof {
            assert(out@ =~= old(out)@ + piece@.subrange(0, i as int));
        }
    }
    proof {
        assert(piece@.subrange(0, piece@.len() as int) =~= piece@);
    }
}

/// Appends the four big-endian bytes of `v` to `out`.
pub fn push_u32_be(out: &mut Vec<u8>, v: u32)
    ensures
        final(out)@ == old(out)@ + seq![
            ((v / 0x100_0000) % 0x100) as u8,
            ((v / 0x1_0000) % 0x100) as u8,
            ((v / 0x100) % 0x100) as u8,
            (v % 0x100) as u8,
        ],
        final(out)@.len() == old(out)@.len() + 4,
{
    out.push(((v / 0x100_0000) % 0x100) as u8);
    out.push(((v / 0x1_0000) % 0x100) as u8);
    out.push(((v / 0x100) % 0x100) as u8);
    out.push((v % 0x100) as u8);
    proof {
        assert(out@ =~= old(out)@ + seq![
            ((v / 0x100_0000) % 0x100) as u8,
            ((v / 0x1_0000) % 0x100) as u8,
            ((v / 0x100) % 0x100) as u8,
            (v % 0x100) as u8,
        ]);
    }
}

/// Sequential reader: a borrowed slice and the position of the next
/// unread byte. Reads advance the position; a failed read leaves it.
pub struct ByteCursor<'a> {
    pub data: &'a [u8],
    pub pos: usize,
}

impl<'a> ByteCursor<'a> {
    /// A cursor standing at the first byte of `data`.
    pub fn new(data: &'a [u8]) -> (r: ByteCursor<'a>)
        ensures
            r.data@ == data@,
            r.pos == 0,
    {
        ByteCursor { data, pos: 0 }
    }

    /// How many bytes are left to read.
    pub fn remaining(&self) -> (r: usize)
        ensures
            r == if self.pos <= self.data@.len() {
                self.data@.len() - self.pos
            } else {
                0
            },
    {
        if self.pos <= self.data.len() {
            self.data.len() - self.pos
        } else {
            0
        }
    }

    /// Reads one byte.
    pub fn read_u8(&mut self) -> (r: Result<u8, ReadError>)
        ensures
            final(self).data@ == old(self).data@,
            r is Ok <==> old(self).pos + 1 <= old(self).data@.len(),
            r is Ok ==> final(self).pos == old(self).pos + 1
                && r->Ok_0 == old(self).data@[old(self).pos as int],
            r is Err ==> final(self).pos == old(self).pos
                && r->Err_0 == ReadError::Truncated,
    {
        if self.pos < self.data.len() {
            let b: u8 = *vstd::slice::slice_index_get(self.data, self.pos);
            self.pos = self.pos + 1;
            Ok(b)
        } else {
            Err(ReadError::Truncated)
        }
    }

    /// Reads a two-byte big-endian unsigned integer.
    pub fn read_u16(&mut self) -> (r: Result<u16, ReadError>)
        ensures
            final(self).data@ == old(self).data@,
            r is Ok <==> old(self).pos + 2 <= old(self).data@.len(),
            r is Ok ==> final(self).pos == old(self).pos + 2
                && r->Ok_0 == be_u16_of(
                    old(self).data@[old(self).pos as int],
                    old(self).data@[old(self).pos + 1],
                ),
            r is Err ==> final(self).pos == old(self).pos
                && r->Err_0 == ReadError::Truncated,
    {
        if self.pos < self.data.len() && self.data.len() - self.pos >= 2 {
            let b0: u8 = *vstd::slice::slice_index_get(self.data, self.pos);
            let b1: u8 = *vstd::slice::slice_index_get(self.data, self.pos + 1);
            self.pos = self.pos + 2;
            Ok((b0 as u16) * 0x100 + (b1 as u16))
        } else {
            Err(ReadError::Truncated)
        }
    }

    /// Reads a three-byte big-endian unsigned integer.
    pub fn read_u24(&mut self) -> (r: Result<u32, ReadError>)
        ensures
            final(self).data@ == old(self).data@,
            r is Ok <==> old(self).pos + 3 <= old(self).data@.len(),
            r is Ok ==> final(self).pos == old(self).pos + 3
                && r->Ok_0 == be_u24_of(
                    old(self).data@[old(self).pos as int],
                    old(self).data@[old(self).pos + 1],
                    old(self).data@[old(self).pos + 2],
                ),
            r is Err ==> final(self).pos == old(self).pos
                && r->Err_0 == ReadError::Truncated,
    {
        if self.pos < self.data.len() && self.data.len() - self.pos >= 3 {
            let b0: u8 = *vstd::slice::slice_index_get(self.data, self.pos);
            let b1: u8 = *vstd::slice::slice_index_get(self.data, self.pos + 1);
            let b2: u8 = *vstd::slice::slice_index_get(self.data, self.pos + 2);
            self.pos = self.pos + 3;
            Ok((b0 as u32) * 0x1_0000 + (b1 as u32) * 0x100 + (b2 as u32))
        } else {
            Err(ReadError::Truncated)
        }
    }

    /// Reads a four-byte big-endian unsigned integer.
    pub fn read_u32(&mut self) -> (r: Result<u32, ReadError>)
        ensures
            final(self).data@ == old(self).data@,
            r is Ok <==> old(self).pos + 4 <= old(self).data@.len(),
            r is Ok ==> final(self).pos == old(self).pos + 4
                && r->Ok_0 == be_u32_of(
                    old(self).data@[old(self).pos as int],
                    old(self).data@[old(self).pos + 1],
                    old(self).data@[old(self).pos + 2],
                    old(self).data@[old(self).pos + 3],
                ),
            r is Err ==> final(self).pos == old(self).pos
                && r->Err_0 == ReadError::Truncated,
    {
        if self.pos < self.data.len() && self.data.len() - self.pos >= 4 {
            let b0: u8 = *vstd::slice::slice_index_get(self.data, self.pos);
            let b1: u8 = *vstd::slice::slice_index_get(self.data, self.pos + 1);
            let b2: u8 = *vstd::slice::slice_index_get(self.data, self.pos + 2);
            let b3: u8 = *vstd::slice::slice_index_get(self.data, self.pos + 3);
            self.pos = self.pos + 4;
            Ok((b0 as u32) * 0x100_0000 + (b1 as u32) * 0x1_0000 + (b2 as u32) * 0x100
                + (b3 as u32))
        } else {
            Err(ReadError::Truncated)
        }
    }

    /// Borrows the next `n` bytes and steps over them.
    pub fn take(&mut self, n: usize) -> (r: Result<&'a [u8], ReadError>)
        ensures
            final(self).data@ == old(self).data@,
            r is Ok <==> old(self).pos + n <= old(self).data@.len(),
            r is Ok ==> final(self).pos == old(self).pos + n
                && r->Ok_0@ == old(self).data@.subrange(
                    old(self).pos as int,
                    old(self).pos + n,
                ),
            r is Err ==> final(self).pos == old(self).pos
                && r->Err_0 == ReadError::Truncated,
    {
        if self.pos <= self.data.len() && self.data.len() - self.pos >= n {
            let r: &'a [u8] = vstd::slice::slice_subrange(self.data, self.pos, self.pos + n);
            self.pos = self.pos + n;
            Ok(r)
        } else {
            Err(ReadError::Truncated)
        }
    }

    /// Reads a zero-terminated byte string: the bytes before the first
    /// zero, stepping past the terminator. Without a terminator in the
    /// remaining bytes nothing is consumed and the read is truncated.
    pub fn read_terminated(&mut self) -> (r: Result<Vec<u8>, ReadError>)
        ensures
            final(self).data@ == old(self).data@,
            r is Ok <==> exists|k: int|
                old(self).pos <= k < old(self).data@.len() && old(self).data@[k] == 0,
            r is Ok ==> ({
                let n = r->Ok_0@.len() as int;
                &&& old(self).pos + n < old(self).data@.len()
                &&& final(self).pos == old(self).pos + n + 1
                &&& r->Ok_0@ == old(self).data@.subrange(old(self).pos as int, old(self).pos + n)
                &&& old(self).data@[old(self).pos + n] == 0
                &&& forall|k: int|
                    old(self).pos <= k < old(self).pos + n ==> old(self).data@[k] != 0
            }),
            r is Err ==> final(self).pos == old(self).pos && r->Err_0 == ReadError::Truncated,
    {
        if self.pos >= self.data.len() {
            return Err(ReadError::Truncated);
        }
        let mut out: Vec<u8> = Vec::new();
        let mut j: usize = self.pos;
        proof {
            assert(out@ =~= self.data@.subrange(self.pos as int, self.pos as int));
        }
        while j < self.data.len()
            invariant
                self.data@ == old(self).data@,
                self.pos == old(self).pos,
                old(self).pos <= j <= old(self).data@.len(),
                out@ == old(self).data@.subrange(old(self).pos as int, j as int),
                forall|k: int| old(self).pos <= k < j ==> old(self).data@[k] != 0,
            decreases old(self).data@.len() - j,
        {
            let b: u8 = *vstd::slice::slice_index_get(self.data, j);
            if b == 0 {
                self.pos = j + 1;
                proof {
                    assert(old(self).data@[j as int] == 0);
                }
                return Ok(out);
            }
            out.push(b);
            j = j + 1;
            proof {
                assert(out@ =~= old(self).data@.subrange(old(self).pos as int, j as int));
            }
        }
        Err(ReadError::Truncated)
    }

    /// Reads a "smart" unsigned integer: one byte below 128 stands for
    /// itself, anything else opens a two-byte big-endian value offset by
    /// 0x8000, giving the range 0 to 32767 in two widths.
    pub fn read_smart(&mut self) -> (r: Result<u16, ReadError>)
        ensures
            final(self).data@ == old(self).data@,
            ({
                let b = old(self).data@;
                let p = old(self).pos as int;
                &&& (p < b.len() && b[p] < 128 ==> r is Ok && r->Ok_0 == b[p] && final(self).pos
                    == p + 1)
                &&& (p + 2 <= b.len() && b[p] >= 128 ==> r is Ok && r->Ok_0 == be_u16_of(
                    b[p],
                    b[p + 1],
                ) - 0x8000 && final(self).pos == p + 2)
                &&& (r is Err <==> (p >= b.len() || (b[p] >= 128 && p + 2 > b.len())))
                &&& (r is Err ==> r->Err_0 == ReadError::Truncated && final(self).pos == p)
            }),
    {
        if self.pos >= self.data.len() {
            return Err(ReadError::Truncated);
        }
        let b0: u8 = *vstd::slice::slice_index_get(self.data, self.pos);
        if b0 < 128 {
            self.pos = self.pos + 1;
            Ok(b0 as u16)
        } else if self.data.len() - self.pos >= 2 {
            let b1: u8 = *vstd::slice::slice_index_get(self.data, self.pos + 1);
            let v: u16 = (b0 as u16) * 0x100 + (b1 as u16);
            self.pos = self.pos + 2;
            Ok(v - 0x8000)
        } else {
            Err(ReadError::Truncated)
        }
    }

    /// Borrows everything that is left, leaving the cursor at the end.
    pub fn rest(&mut self) -> (r: &'a [u8])
        ensures
            final(self).data@ == old(self).data@,
            final(self).pos == final(self).data@.len(),
            old(self).pos <= old(self).data@.len() ==> r@ == old(self).data@.subrange(
                old(self).pos as int,
                old(self).data@.len() as int,
            ),
            old(self).pos > old(self).data@.len() ==> r@ == Seq::<u8>::empty(),
    {
        let start: usize = if self.pos <= self.data.len() {
            self.pos
        } else {
            self.data.len()
        };
        let r: &'a [u8] = vstd::slice::slice_subrange(self.data, start, self.data.len());
        self.pos = self.data.len();
        proof {
            if old(self).pos > old(self).data@.len() {
                assert(r@ =~= Seq::<u8>::empty());
            }
        }
        r
    }
}

} // verus!
