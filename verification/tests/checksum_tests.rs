use rscache::checksum::Checksum;
use rscache::checksum::Entry;

#[test]
fn encode_two_entries_exact_bytes() {
    let mut checksum = Checksum::new();
    checksum.push(Entry { crc: 1234, revision: 1 });
    checksum.push(Entry { crc: 5678, revision: 2 });

    let buffer = checksum.encode().unwrap();

    let expected_payload = [
        0x00, 0x00, 0x04, 0xD2, 0x00, 0x00, 0x00, 0x01, //
        0x00, 0x00, 0x16, 0x2E, 0x00, 0x00, 0x00, 0x02,
    ];
    assert_eq!(&buffer[..5], &[0, 0, 0, 0, 16]);
    assert_eq!(&buffer[5..], &expected_payload);
}

#[test]
fn encode_empty_table() {
    let checksum = Checksum::new();

    let buffer = checksum.encode().unwrap();

    assert_eq!(buffer, vec![0, 0, 0, 0, 0]);
}

#[test]
fn validate_matching_crcs() {
    let mut checksum = Checksum::new();
    checksum.push(Entry { crc: 10, revision: 1 });
    checksum.push(Entry { crc: 20, revision: 2 });
    checksum.push(Entry { crc: 30, revision: 3 });

    assert!(checksum.validate_crcs(&[10, 20, 30]));
}

#[test]
fn validate_rejects_single_differing_crc() {
    let mut checksum = Checksum::new();
    checksum.push(Entry { crc: 10, revision: 1 });
    checksum.push(Entry { crc: 20, revision: 2 });
    checksum.push(Entry { crc: 30, revision: 3 });

    assert!(!checksum.validate_crcs(&[10, 21, 30]));
}

#[test]
fn validate_rejects_length_mismatch() {
    let mut checksum = Checksum::new();
    checksum.push(Entry { crc: 10, revision: 1 });
    checksum.push(Entry { crc: 20, revision: 2 });

    assert!(!checksum.validate_crcs(&[10, 20, 0]));
    assert!(!checksum.validate_crcs(&[10]));
    assert!(!checksum.validate_crcs(&[]));
}

#[test]
fn validate_rejects_reordered_crcs() {
    let mut checksum = Checksum::new();
    checksum.push(Entry { crc: 10, revision: 1 });
    checksum.push(Entry { crc: 20, revision: 2 });

    assert!(!checksum.validate_crcs(&[20, 10]));
}

#[test]
fn validate_empty_table_accepts_only_empty() {
    let checksum = Checksum::new();

    assert!(checksum.validate_crcs(&[]));
    assert!(!checksum.validate_crcs(&[0]));
}

#[test]
fn encoded_table_decodes_as_raw_envelope() {
    let mut checksum = Checksum::new();
    checksum.push(Entry { crc: 0xDEAD_BEEF, revision: 0x0102_0304 });

    let buffer = checksum.encode().unwrap();
    let decoded = rscache::codec::decode(&buffer, false).unwrap();

    assert_eq!(decoded.compression, rscache::codec::Compression::Uncompressed);
    assert_eq!(decoded.buffer, vec![0xDE, 0xAD, 0xBE, 0xEF, 0x01, 0x02, 0x03, 0x04]);
    assert_eq!(decoded.revision, None);
}
