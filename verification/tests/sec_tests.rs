use rscache::arc::Archive;
use rscache::error::ReadError;
use rscache::sec::Sector;
use rscache::sec::SectorHeader;
use rscache::sec::SectorHeaderSize;

#[test]
fn test_header_size_normal() {
    let archive = Archive { id: u16::MAX as u32, index_id: 0, sector: 0, length: 0 };

    let header_size = SectorHeaderSize::from_archive(&archive);
    let expected = SectorHeaderSize::Normal;

    assert_eq!(header_size, expected);
}

#[test]
fn test_header_size_expanded() {
    let archive = Archive { id: (u16::MAX as u32) + 1, index_id: 0, sector: 0, length: 0 };

    let header_size = SectorHeaderSize::from_archive(&archive);
    let expected = SectorHeaderSize::Expanded;

    assert_eq!(header_size, expected);
}

#[test]
fn test_parse_header() {
    let buffer = &[0, 0, 0, 0, 0, 0, 2, 255];

    let expected = SectorHeader { archive_id: 0, chunk: 0, next: 2, index_id: 255 };
    let (_, actual) = SectorHeader::new(buffer, &SectorHeaderSize::Normal).unwrap();

    assert_eq!(actual, expected);
}

#[test]
fn test_header_validation() {
    let header = SectorHeader { archive_id: 0, chunk: 0, next: 2, index_id: 255 };

    assert_eq!(
        header.validate(1, 0, 255),
        Err(ReadError::SectorArchiveMismatch(header.archive_id, 1))
    );
    assert_eq!(
        header.validate(0, 1, 255),
        Err(ReadError::SectorChunkMismatch(header.chunk, 1))
    );
    assert_eq!(
        header.validate(0, 0, 0),
        Err(ReadError::SectorIndexMismatch(header.index_id, 0))
    );
}

#[test]
fn test_header_size_boundary() {
    assert_eq!(SectorHeaderSize::select(65535), SectorHeaderSize::Normal);
    assert_eq!(SectorHeaderSize::select(65536), SectorHeaderSize::Expanded);
    assert_eq!(SectorHeaderSize::select(0), SectorHeaderSize::Normal);
}

#[test]
fn test_header_sizes() {
    assert_eq!(SectorHeaderSize::Normal.header_size(), 8);
    assert_eq!(SectorHeaderSize::Normal.data_size(), 512);
    assert_eq!(SectorHeaderSize::Expanded.header_size(), 10);
    assert_eq!(SectorHeaderSize::Expanded.data_size(), 510);
}

#[test]
fn test_parse_expanded_header() {
    let buffer = &[0, 1, 0, 1, 0, 3, 0, 0, 9, 7];

    let expected = SectorHeader { archive_id: 65537, chunk: 3, next: 9, index_id: 7 };
    let (rest, actual) = SectorHeader::new(buffer, &SectorHeaderSize::Expanded).unwrap();

    assert_eq!(actual, expected);
    assert!(rest.is_empty());
}

#[test]
fn test_header_truncated() {
    let buffer = &[0, 0, 0, 0, 0, 0, 2];

    let result = SectorHeader::new(buffer, &SectorHeaderSize::Normal);

    assert!(matches!(result, Err(ReadError::Truncated)));
}

#[test]
fn test_header_encode_round_trip() {
    let header = SectorHeader { archive_id: 513, chunk: 7, next: 70000, index_id: 255 };
    let bytes = header.encode(&SectorHeaderSize::Normal);
    assert_eq!(bytes, vec![2, 1, 0, 7, 1, 17, 112, 255]);
    let (rest, decoded) = SectorHeader::new(&bytes, &SectorHeaderSize::Normal).unwrap();
    assert_eq!(decoded, header);
    assert!(rest.is_empty());

    let wide = SectorHeader { archive_id: 16_777_217, chunk: 65535, next: 1, index_id: 0 };
    let bytes = wide.encode(&SectorHeaderSize::Expanded);
    assert_eq!(bytes.len(), 10);
    let (_, decoded) = SectorHeader::new(&bytes, &SectorHeaderSize::Expanded).unwrap();
    assert_eq!(decoded, wide);
}

#[test]
fn test_sector_payload_split() {
    let mut buffer = vec![0, 5, 0, 0, 0, 0, 2, 1];
    buffer.extend_from_slice(&[9, 8, 7, 6]);

    let sector = Sector::from_normal_header(&buffer).unwrap();

    assert_eq!(
        sector.header,
        SectorHeader { archive_id: 5, chunk: 0, next: 2, index_id: 1 }
    );
    assert_eq!(sector.data_block, &[9, 8, 7, 6]);
}

#[test]
fn test_sector_expanded_payload_split() {
    let mut buffer = vec![0, 1, 0, 0, 0, 2, 0, 0, 3, 4];
    buffer.extend_from_slice(&[1, 1, 2]);

    let sector = Sector::from_expanded_header(&buffer).unwrap();

    assert_eq!(
        sector.header,
        SectorHeader { archive_id: 65536, chunk: 2, next: 3, index_id: 4 }
    );
    assert_eq!(sector.data_block, &[1, 1, 2]);
}
