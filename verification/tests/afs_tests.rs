use adx_tools::afs_file::AfsFile;
use adx_tools::AdxError;

fn build_archive(entries: &[(u32, u32)], total_len: usize) -> Vec<u8> {
    let mut data: Vec<u8> = vec![0u8; total_len];
    data[4..8].copy_from_slice(&(entries.len() as u32).to_le_bytes());
    for (i, (offset, size)) in entries.iter().enumerate() {
        data[8 + 8 * i..12 + 8 * i].copy_from_slice(&offset.to_le_bytes());
        data[12 + 8 * i..16 + 8 * i].copy_from_slice(&size.to_le_bytes());
    }
    data
}

#[test]
fn read_u32_little_endian() {
    assert_eq!(AfsFile::read_u32(&[0x78, 0x56, 0x34, 0x12], 0), 0x12345678);
    assert_eq!(AfsFile::read_u32(&[0xFF, 0x01, 0x00, 0x00, 0x00], 1), 1);
}

#[test]
fn parse_entry_table() {
    let data: Vec<u8> = build_archive(&[(64, 100), (200, 0)], 170);
    let afs: AfsFile = AfsFile::new(&data).unwrap();
    assert_eq!(afs.entries.len(), 2);
    assert_eq!(afs.entries[0].offset, 64);
    assert_eq!(afs.entries[0].size, 100);
    assert_eq!(afs.entries[1].offset, 200);
    assert_eq!(afs.entries[1].size, 0);
    assert_eq!(afs.current_entry, 0);
}

#[test]
fn scenario_container_lookup() {
    let mut data: Vec<u8> = build_archive(&[(64, 100), (200, 0)], 170);
    for i in 64..164 {
        data[i] = (i - 64) as u8;
    }
    let afs: AfsFile = AfsFile::new(&data).unwrap();
    // Entry 0 is the full 100-byte range.
    let first: Vec<u8> = afs.entry(&data, 0).unwrap();
    assert_eq!(first.len(), 100);
    assert_eq!(first[0], 0);
    assert_eq!(first[99], 99);
    // Entry 1 has size zero: an empty segment, not an error.
    let second: Vec<u8> = afs.entry(&data, 1).unwrap();
    assert_eq!(second.len(), 0);
    // Entry 2 does not exist: no result.
    assert!(afs.entry(&data, 2).is_none());
}

#[test]
fn segment_is_clipped_to_source() {
    // The entry claims 100 bytes at 64 but only 80 bytes exist.
    let data: Vec<u8> = build_archive(&[(64, 100)], 80);
    let afs: AfsFile = AfsFile::new(&data).unwrap();
    let segment: Vec<u8> = afs.entry(&data, 0).unwrap();
    assert_eq!(segment.len(), 16);
    // An offset wholly past the end yields an empty segment.
    let data2: Vec<u8> = build_archive(&[(500, 10)], 80);
    let afs2: AfsFile = AfsFile::new(&data2).unwrap();
    assert_eq!(afs2.entry(&data2, 0).unwrap().len(), 0);
}

#[test]
fn next_entry_walks_in_order() {
    let mut data: Vec<u8> = build_archive(&[(24, 2), (26, 3)], 32);
    data[24] = 0x80;
    data[25] = 0x00;
    data[26] = 0xAA;
    data[27] = 0xBB;
    data[28] = 0xCC;
    let mut afs: AfsFile = AfsFile::new(&data).unwrap();
    assert_eq!(afs.next_entry(&data).unwrap(), vec![0x80, 0x00]);
    assert_eq!(afs.next_entry(&data).unwrap(), vec![0xAA, 0xBB, 0xCC]);
    assert!(afs.next_entry(&data).is_none());
    assert!(afs.next_entry(&data).is_none());
}

#[test]
fn truncated_archive_fails() {
    assert!(matches!(AfsFile::new(&[0u8; 7]), Err(AdxError::TruncatedInput)));
    // The header announces 3 entries but only room for 2 exists.
    let data: Vec<u8> = build_archive(&[(0, 0), (0, 0)], 24);
    let mut bad: Vec<u8> = data.clone();
    bad[4] = 3;
    assert!(matches!(AfsFile::new(&bad), Err(AdxError::TruncatedInput)));
    assert!(AfsFile::new(&data).is_ok());
}
