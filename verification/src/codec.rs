//! The compression envelope around stored payloads.
//!
//! Every payload in the cache travels inside an envelope: a one-byte
//! compression tag, the four-byte big-endian length of the stored payload,
//! the payload itself — compressed under the tagged scheme, or raw — and,
//! in contexts that define one, a two-byte revision trailer. Decoding
//! reads exactly the declared number of payload bytes; a buffer shorter
//! than that is a truncation error, never a silent short read.

use vstd::prelude::*;

use crate::cursor::ByteCursor;
use crate::cursor::append_slice;
use crate::cursor::be_u16_of;
use crate::cursor::be_u32_of;
use crate::cursor::push_u32_be;
use crate::error::ReadError;

verus! {

/// The compression schemes an envelope can name, by rising tag value:
/// raw bytes, then the two stream compressors.
#[derive(Clone, Copy, Debug, PartialEq, Eq, Structural)]
pub enum Compression {
    /// Tag 0: the payload is stored raw.
    Uncompressed,
    /// Tag 1: the payload is a bzip2 stream.
    Bzip2,
    /// Tag 2: the payload is a gzip stream.
    Gzip,
}

/// The one-byte tag of each scheme.
pub open spec fn spec_tag_of(c: Compression) -> int {
    match c {
        Compression::Uncompressed => 0,
        Compression::Bzip2 => 1,
        Compression::Gzip => 2,
    }
}

/// What the bzip2 compressor emits for `data`: a function of the input
/// bytes alone.
pub uninterp spec fn bzip2_compressed(data: Seq<u8>) -> Seq<u8>;

/// What the bzip2 decompressor yields for `data`, or `None` where it
/// rejects the stream: a function of the input bytes alone.
pub uninterp spec fn bzip2_decompressed(data: Seq<u8>) -> Option<Seq<u8>>;

/// What the gzip compressor emits for `data`: a function of the input
/// bytes alone.
pub uninterp spec fn gzip_compressed(data: Seq<u8>) -> Seq<u8>;

/// What the gzip decompressor yields for `data`, or `None` where it
/// rejects the stream: a function of the input bytes alone.
pub uninterp spec fn gzip_decompressed(data: Seq<u8>) -> Option<Seq<u8>>;

/// Relies on bzip2's `BzEncoder` writing into an in-memory buffer at
/// the default level; a bzip2 stream carries no timestamp or platform
/// field, so the output depends on the input bytes alone. Decompressing
/// it gives the input back.
#[verifier::external_body]
fn bzip2_deflate(data: &[u8]) -> (r: Result<Vec<u8>, ReadError>)
    ensures
        r is Ok ==> r->Ok_0@ == bzip2_compressed(data@),
        r is Ok ==> bzip2_decompressed(r->Ok_0@) == Some(data@),
        r is Err ==> r->Err_0 == ReadError::CompressionFailure,
{
    let mut enc = bzip2::write::BzEncoder::new(Vec::new(), bzip2::Compression::default());
    let res = std::io::Write::write_all(&mut enc, data).and_then(|_| enc.finish());
    match res {
        Ok(v) => Ok(v),
        Err(_) => Err(ReadError::CompressionFailure),
    }
}

/// Relies on bzip2's `BzDecoder`: whether a stream unpacks, and to what,
/// depends on the stream bytes alone.
#[verifier::external_body]
fn bzip2_inflate(data: &[u8]) -> (r: Result<Vec<u8>, ReadError>)
    ensures
        r is Ok <==> bzip2_decompressed(data@) is Some,
        r is Ok ==> Some(r->Ok_0@) == bzip2_decompressed(data@),
        r is Err ==> r->Err_0 == ReadError::CompressionFailure,
{
    let mut dec = bzip2::read::BzDecoder::new(data);
    let mut out = Vec::new();
    match std::io::Read::read_to_end(&mut dec, &mut out) {
        Ok(_) => Ok(out),
        Err(_) => Err(ReadError::CompressionFailure),
    }
}

/// Relies on flate2's `GzEncoder` writing into an in-memory buffer at
/// the default level. The header it writes is fixed (no timestamp, the
/// portable operating-system byte), so the output depends on the input
/// bytes alone; decompressing it gives the input back.
#[verifier::external_body]
fn gzip_deflate(data: &[u8]) -> (r: Result<Vec<u8>, ReadError>)
    ensures
        r is Ok ==> r->Ok_0@ == gzip_compressed(data@),
        r is Ok ==> gzip_decompressed(r->Ok_0@) == Some(data@),
        r is Err ==> r->Err_0 == ReadError::CompressionFailure,
{
    let mut enc = flate2::write::GzEncoder::new(Vec::new(), flate2::Compression::default());
    let res = std::io::Write::write_all(&mut enc, data).and_then(|_| enc.finish());
    match res {
        Ok(v) => Ok(v),
        Err(_) => Err(ReadError::CompressionFailure),
    }
}

/// Relies on flate2's `GzDecoder`: whether a stream unpacks, and to
/// what, depends on the stream bytes alone.
#[verifier::external_body]
fn gzip_inflate(data: &[u8]) -> (r: Result<Vec<u8>, ReadError>)
    ensures
        r is Ok <==> gzip_decompressed(data@) is Some,
        r is Ok ==> Some(r->Ok_0@) == gzip_decompressed(data@),
        r is Err ==> r->Err_0 == ReadError::CompressionFailure,
{
    let mut dec = flate2::read::GzDecoder::new(data);
    let mut out = Vec::new();
    match std::io::Read::read_to_end(&mut dec, &mut out) {
        Ok(_) => Ok(out),
        Err(_) => Err(ReadError::CompressionFailure),
    }
}

/// The payload as the envelope stores it for `data` under scheme `c`.
pub open spec fn spec_stored_payload(c: Compression, data: Seq<u8>) -> Seq<u8> {
    match c {
        Compression::Uncompressed => data,
        Compression::Bzip2 => bzip2_compressed(data),
        Compression::Gzip => gzip_compressed(data),
    }
}

/// The envelope bytes: tag, four-byte big-endian length of the stored
/// payload, the payload, then the revision trailer if one is given.
pub open spec fn spec_envelope(c: Compression, payload: Seq<u8>, revision: Option<u16>) -> Seq<
    u8,
> {
    let head = seq![spec_tag_of(c) as u8]
        + seq![
        ((payload.len() / 0x100_0000) % 0x100) as u8,
        ((payload.len() / 0x1_0000) % 0x100) as u8,
        ((payload.len() / 0x100) % 0x100) as u8,
        (payload.len() % 0x100) as u8,
    ] + payload;
    match revision {
        Option::Some(rev) => head + seq![(rev / 0x100) as u8, (rev % 0x100) as u8],
        Option::None => head,
    }
}

/// A decoded envelope: the scheme it named, the unpacked payload, and
/// the revision trailer where the context defines one.
#[derive(Clone, Debug)]
pub struct Decoded {
    pub compression: Compression,
    pub buffer: Vec<u8>,
    pub revision: Option<u16>,
}

/// What decoding owes for the bytes `b`, a revision trailer expected
/// exactly when `with_revision`: the checks run in the order the fields
/// lie in the buffer — tag, length, payload presence, trailer presence —
/// and the payload is unpacked last.
pub open spec fn spec_decode_envelope(b: Seq<u8>, with_revision: bool) -> Result<
    (Compression, Seq<u8>, Option<u16>),
    ReadError,
> {
    if b.len() < 5 {
        Err(ReadError::Truncated)
    } else {
        let tag = b[0];
        let len = be_u32_of(b[1], b[2], b[3], b[4]);
        if tag != 0 && tag != 1 && tag != 2 {
            Err(ReadError::UnsupportedCompression(tag))
        } else if b.len() < 5 + len {
            Err(ReadError::Truncated)
        } else if with_revision && b.len() < 5 + len + 2 {
            Err(ReadError::Truncated)
        } else {
            let stored = b.subrange(5, 5 + len);
            let revision: Option<u16> = if with_revision {
                Some(be_u16_of(b[5 + len], b[5 + len + 1]) as u16)
            } else {
                Option::None
            };
            if tag == 0 {
                Ok((Compression::Uncompressed, stored, revision))
            } else if tag == 1 {
                match bzip2_decompressed(stored) {
                    Some(d) => Ok((Compression::Bzip2, d, revision)),
                    Option::None => Err(ReadError::CompressionFailure),
                }
            } else {
                match gzip_decompressed(stored) {
                    Some(d) => Ok((Compression::Gzip, d, revision)),
                    Option::None => Err(ReadError::CompressionFailure),
                }
            }
        }
    }
}

impl Compression {
    /// The tag byte this scheme writes.
    pub fn tag(&self) -> (r: u8)
        ensures
            r == spec_tag_of(*self),
    {
        match self {
            Compression::Uncompressed => 0,
            Compression::Bzip2 => 1,
            Compression::Gzip => 2,
        }
    }
}

/// Wraps `data` in an envelope under scheme `compression`, appending the
/// revision trailer when one is given. The stored payload is `data`
/// itself for the raw scheme, else the compressor's output; either way
/// its length must fit the envelope's four-byte field.
pub fn encode(compression: Compression, data: &[u8], revision: Option<u16>) -> (r: Result<
    Vec<u8>,
    ReadError,
>)
    ensures
        r is Ok ==> r->Ok_0@ == spec_envelope(
            compression,
            spec_stored_payload(compression, data@),
            revision,
        ),
        compression == Compression::Uncompressed ==> (r is Ok <==> data@.len() <= u32::MAX),
        r is Err ==> r->Err_0 == ReadError::PayloadTooLarge || r->Err_0
            == ReadError::CompressionFailure,
        compression == Compression::Uncompressed && r is Err ==> r->Err_0
            == ReadError::PayloadTooLarge,
{
    let payload: Vec<u8> = match compression {
        Compression::Uncompressed => vstd::slice::slice_to_vec(data),
        Compression::Bzip2 => match bzip2_deflate(data) {
            Ok(v) => v,
            Err(e) => {
                return Err(e);
            },
        },
        Compression::Gzip => match gzip_deflate(data) {
            Ok(v) => v,
            Err(e) => {
                return Err(e);
            },
        },
    };
    if payload.len() > 0xFFFF_FFFFusize {
        return Err(ReadError::PayloadTooLarge);
    }
    let mut buffer: Vec<u8> = Vec::new();
    buffer.push(compression.tag());
    push_u32_be(&mut buffer, payload.len() as u32);
    append_slice(&mut buffer, payload.as_slice());
    match revision {
        Some(rev) => {
            buffer.push((rev / 0x100) as u8);
            buffer.push((rev % 0x100) as u8);
        },
        None => {},
    }
    proof {
        assert(buffer@ =~= spec_envelope(
            compression,
            spec_stored_payload(compression, data@),
            revision,
        ));
    }
    Ok(buffer)
}

/// Unwraps an envelope: reads the tag and the declared length, takes
/// exactly that many payload bytes, reads the revision trailer when the
/// caller says the context defines one, and unpacks the payload under
/// the tagged scheme.
pub fn decode(buffer: &[u8], with_revision: bool) -> (r: Result<Decoded, ReadError>)
    ensures
        r is Ok <==> spec_decode_envelope(buffer@, with_revision) is Ok,
        r is Ok ==> ({
            let (c, d, rev) = spec_decode_envelope(buffer@, with_revision)->Ok_0;
            &&& r->Ok_0.compression == c
            &&& r->Ok_0.buffer@ == d
            &&& r->Ok_0.revision == rev
        }),
        r is Err ==> r->Err_0 == spec_decode_envelope(buffer@, with_revision)->Err_0,
{
    let mut cursor = ByteCursor::new(buffer);
    let tag: u8 = match cursor.read_u8() {
        Ok(v) => v,
        Err(e) => {
            return Err(e);
        },
    };
    let len: u32 = match cursor.read_u32() {
        Ok(v) => v,
        Err(e) => {
            return Err(e);
        },
    };
    if tag > 2 {
        return Err(ReadError::UnsupportedCompression(tag));
    }
    let stored: &[u8] = match cursor.take(len as usize) {
        Ok(s) => s,
        Err(e) => {
            return Err(e);
        },
    };
    let revision: Option<u16> = if with_revision {
        match cursor.read_u16() {
            Ok(v) => Some(v),
            Err(e) => {
                return Err(e);
            },
        }
    } else {
        None
    };
    if tag == 0 {
        Ok(Decoded {
            compression: Compression::Uncompressed,
            buffer: vstd::slice::slice_to_vec(stored),
            revision,
        })
    } else if tag == 1 {
        match bzip2_inflate(stored) {
            Ok(d) => Ok(Decoded { compression: Compression::Bzip2, buffer: d, revision }),
            Err(e) => Err(e),
        }
    } else {
        match gzip_inflate(stored) {
            Ok(d) => Ok(Decoded { compression: Compression::Gzip, buffer: d, revision }),
            Err(e) => Err(e),
        }
    }
}

/// Truncation as a law: an envelope that declares more payload bytes
/// than the buffer actually holds never decodes to a short read — for
/// every known tag, and whether or not a trailer is expected, the result
/// is the truncation error.
pub proof fn lemma_declared_length_beyond_buffer_truncates(b: Seq<u8>, with_revision: bool)
    requires
        b.len() >= 5,
        b[0] == 0 || b[0] == 1 || b[0] == 2,
        b.len() < 5 + be_u32_of(b[1], b[2], b[3], b[4]),
    ensures
        spec_decode_envelope(b, with_revision) == Err::<(Compression, Seq<u8>, Option<u16>),
            ReadError,
        >(ReadError::Truncated),
{
}

/// Round trip for raw envelopes: an envelope written with the raw scheme
/// decodes back to that scheme, the very payload it wrapped, and the
/// same revision trailer.
pub proof fn lemma_envelope_round_trip_raw(data: Seq<u8>, revision: Option<u16>)
    requires
        data.len() <= u32::MAX,
    ensures
        spec_decode_envelope(
            spec_envelope(Compression::Uncompressed, data, revision),
            revision is Some,
        ) == Ok::<_, ReadError>((Compression::Uncompressed, data, revision)),
{
    let b = spec_envelope(Compression::Uncompressed, data, revision);
    assert(b[0] == 0);
    assert(be_u32_of(b[1], b[2], b[3], b[4]) == data.len());
    assert(b.subrange(5, 5 + data.len() as int) =~= data);
    match revision {
        Some(rev) => {
            assert(be_u16_of(b[5 + data.len() as int], b[6 + data.len() as int]) == rev);
        },
        Option::None => {},
    }
}

} // verus!
