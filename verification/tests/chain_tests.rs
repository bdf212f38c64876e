use rscache::arc::Archive;
use rscache::chain::read_archive;
use rscache::error::ReadError;

fn normal_block(archive_id: u16, chunk: u16, next: u32, index_id: u8, fill: u8) -> Vec<u8> {
    let mut b = Vec::new();
    b.extend_from_slice(&archive_id.to_be_bytes());
    b.extend_from_slice(&chunk.to_be_bytes());
    b.extend_from_slice(&next.to_be_bytes()[1..]);
    b.push(index_id);
    b.extend_from_slice(&[fill; 512]);
    b
}

fn expanded_block(archive_id: u32, chunk: u16, next: u32, index_id: u8, fill: u8) -> Vec<u8> {
    let mut b = Vec::new();
    b.extend_from_slice(&archive_id.to_be_bytes());
    b.extend_from_slice(&chunk.to_be_bytes());
    b.extend_from_slice(&next.to_be_bytes()[1..]);
    b.push(index_id);
    b.extend_from_slice(&[fill; 510]);
    b
}

#[test]
fn three_block_archive_reassembles_exactly() {
    let mut data = Vec::new();
    data.extend_from_slice(&normal_block(9, 0, 1, 3, 0xAA));
    data.extend_from_slice(&normal_block(9, 1, 2, 3, 0xBB));
    // The last needed block still links onward; the link must be ignored.
    data.extend_from_slice(&normal_block(9, 2, 3, 3, 0xCC));
    // A linked trailing block full of garbage that must never be read.
    data.extend_from_slice(&[0xFF; 520]);

    let archive = Archive { id: 9, index_id: 3, sector: 0, length: 1124 };
    let buffer = read_archive(&data, &archive).unwrap();

    assert_eq!(buffer.len(), 1124);
    assert!(buffer[..512].iter().all(|&b| b == 0xAA));
    assert!(buffer[512..1024].iter().all(|&b| b == 0xBB));
    assert!(buffer[1024..].iter().all(|&b| b == 0xCC));
}

#[test]
fn chain_starting_mid_file() {
    let mut data = Vec::new();
    data.extend_from_slice(&[0u8; 520]);
    data.extend_from_slice(&normal_block(4, 1, 0, 0, 2));
    data.extend_from_slice(&normal_block(4, 0, 1, 0, 1));

    let archive = Archive { id: 4, index_id: 0, sector: 2, length: 600 };
    let buffer = read_archive(&data, &archive).unwrap();

    assert_eq!(buffer.len(), 600);
    assert!(buffer[..512].iter().all(|&b| b == 1));
    assert!(buffer[512..].iter().all(|&b| b == 2));
}

#[test]
fn cyclic_chain_terminates_with_error() {
    let mut data = Vec::new();
    // Sector 0 links to 1, sector 1 links back to 0: a cycle.
    data.extend_from_slice(&normal_block(2, 0, 1, 0, 0x11));
    data.extend_from_slice(&normal_block(2, 1, 0, 0, 0x22));

    let archive = Archive { id: 2, index_id: 0, sector: 0, length: 1500 };
    let result = read_archive(&data, &archive);

    // The revisited block still says chunk 0 where chunk 2 is expected.
    assert_eq!(result.unwrap_err(), ReadError::SectorChunkMismatch(0, 2));
}

#[test]
fn self_linked_sector_terminates_with_error() {
    let data = normal_block(1, 0, 0, 0, 0x33);

    let archive = Archive { id: 1, index_id: 0, sector: 0, length: 5000 };
    let result = read_archive(&data, &archive);

    assert_eq!(result.unwrap_err(), ReadError::SectorChunkMismatch(0, 1));
}

#[test]
fn missing_next_sector_is_reported() {
    let data = normal_block(6, 0, 9, 1, 0);

    let archive = Archive { id: 6, index_id: 1, sector: 0, length: 600 };
    let result = read_archive(&data, &archive);

    assert_eq!(result.unwrap_err(), ReadError::SectorNotFound(9));
}

#[test]
fn start_sector_out_of_range_is_reported() {
    let data = normal_block(6, 0, 0, 1, 0);

    let archive = Archive { id: 6, index_id: 1, sector: 5, length: 10 };
    let result = read_archive(&data, &archive);

    assert_eq!(result.unwrap_err(), ReadError::SectorNotFound(5));
}

#[test]
fn wrong_archive_id_is_reported_before_all_else() {
    // The stored block disagrees on every field; the archive id wins.
    let data = normal_block(7, 4, 0, 9, 0);

    let archive = Archive { id: 5, index_id: 1, sector: 0, length: 10 };
    let result = read_archive(&data, &archive);

    assert_eq!(result.unwrap_err(), ReadError::SectorArchiveMismatch(7, 5));
}

#[test]
fn wrong_index_id_is_reported() {
    let data = normal_block(5, 0, 0, 9, 0);

    let archive = Archive { id: 5, index_id: 1, sector: 0, length: 10 };
    let result = read_archive(&data, &archive);

    assert_eq!(result.unwrap_err(), ReadError::SectorIndexMismatch(9, 1));
}

#[test]
fn expanded_layout_archive_reassembles() {
    let mut data = Vec::new();
    data.extend_from_slice(&expanded_block(70000, 0, 1, 2, 0x01));
    data.extend_from_slice(&expanded_block(70000, 1, 0, 2, 0x02));

    let archive = Archive { id: 70000, index_id: 2, sector: 0, length: 700 };
    let buffer = read_archive(&data, &archive).unwrap();

    assert_eq!(buffer.len(), 700);
    assert!(buffer[..510].iter().all(|&b| b == 0x01));
    assert!(buffer[510..].iter().all(|&b| b == 0x02));
}

#[test]
fn empty_archive_yields_empty_buffer() {
    let data = [0u8; 520];

    let archive = Archive { id: 1, index_id: 0, sector: 0, length: 0 };
    let buffer = read_archive(&data, &archive).unwrap();

    assert!(buffer.is_empty());
}
