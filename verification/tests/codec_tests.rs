use rscache::codec;
use rscache::codec::Compression;
use rscache::error::ReadError;

#[test]
fn raw_envelope_exact_bytes() {
    let encoded = codec::encode(Compression::Uncompressed, &[1, 2, 3], None).unwrap();

    assert_eq!(encoded, vec![0, 0, 0, 0, 3, 1, 2, 3]);
}

#[test]
fn raw_envelope_with_revision_trailer() {
    let encoded = codec::encode(Compression::Uncompressed, &[9], Some(0x0102)).unwrap();

    assert_eq!(encoded, vec![0, 0, 0, 0, 1, 9, 1, 2]);
}

#[test]
fn raw_envelope_round_trip() {
    let payload: Vec<u8> = (0u16..300).map(|v| (v % 256) as u8).collect();
    let encoded = codec::encode(Compression::Uncompressed, &payload, Some(7)).unwrap();

    let decoded = codec::decode(&encoded, true).unwrap();

    assert_eq!(decoded.compression, Compression::Uncompressed);
    assert_eq!(decoded.buffer, payload);
    assert_eq!(decoded.revision, Some(7));
}

#[test]
fn gzip_envelope_round_trip() {
    let payload = b"a highly repetitive payload payload payload payload".to_vec();
    let encoded = codec::encode(Compression::Gzip, &payload, None).unwrap();

    // The stored payload is a gzip stream, not the raw input.
    assert_eq!(encoded[0], 2);
    let declared = u32::from_be_bytes([encoded[1], encoded[2], encoded[3], encoded[4]]) as usize;
    assert_eq!(encoded.len(), 5 + declared);
    assert_ne!(&encoded[5..], &payload[..]);

    let decoded = codec::decode(&encoded, false).unwrap();
    assert_eq!(decoded.compression, Compression::Gzip);
    assert_eq!(decoded.buffer, payload);
    assert_eq!(decoded.revision, None);
}

#[test]
fn bzip2_envelope_round_trip() {
    let payload = b"another repetitive payload payload payload payload".to_vec();
    let encoded = codec::encode(Compression::Bzip2, &payload, Some(42)).unwrap();

    assert_eq!(encoded[0], 1);
    assert_ne!(&encoded[5..encoded.len() - 2], &payload[..]);

    let decoded = codec::decode(&encoded, true).unwrap();
    assert_eq!(decoded.compression, Compression::Bzip2);
    assert_eq!(decoded.buffer, payload);
    assert_eq!(decoded.revision, Some(42));
}

#[test]
fn declared_length_beyond_buffer_is_truncation() {
    // Declared length 10, but only 2 payload bytes present.
    let buffer = [0u8, 0, 0, 0, 10, 1, 2];

    let result = codec::decode(&buffer, false);

    assert_eq!(result.unwrap_err(), ReadError::Truncated);
}

#[test]
fn envelope_shorter_than_header_is_truncation() {
    let result = codec::decode(&[0u8, 0, 0], false);

    assert_eq!(result.unwrap_err(), ReadError::Truncated);
}

#[test]
fn missing_revision_trailer_is_truncation() {
    // A complete raw envelope, but the caller expects a trailer too.
    let buffer = [0u8, 0, 0, 0, 2, 5, 6];

    assert!(codec::decode(&buffer, false).is_ok());
    assert_eq!(codec::decode(&buffer, true).unwrap_err(), ReadError::Truncated);
}

#[test]
fn unknown_tag_is_rejected() {
    let buffer = [3u8, 0, 0, 0, 0];

    let result = codec::decode(&buffer, false);

    assert_eq!(result.unwrap_err(), ReadError::UnsupportedCompression(3));
}

#[test]
fn corrupt_gzip_stream_is_rejected() {
    // Tag says gzip but the stored bytes are no gzip stream.
    let buffer = [2u8, 0, 0, 0, 3, 1, 2, 3];

    let result = codec::decode(&buffer, false);

    assert_eq!(result.unwrap_err(), ReadError::CompressionFailure);
}

#[test]
fn corrupt_bzip2_stream_is_rejected() {
    let buffer = [1u8, 0, 0, 0, 3, 1, 2, 3];

    let result = codec::decode(&buffer, false);

    assert_eq!(result.unwrap_err(), ReadError::CompressionFailure);
}
