use adx_tools::adx_file::AdxFile;
use adx_tools::{get_u16, get_u32, AdxError};

fn base_header(version: u8, data_offset: u16, total_len: usize) -> Vec<u8> {
    let mut data: Vec<u8> = vec![0u8; total_len];
    data[0] = 0x80;
    data[1] = 0x00;
    data[2..4].copy_from_slice(&data_offset.to_be_bytes());
    data[4] = 3;
    data[5] = 18;
    data[6] = 4;
    data[7] = 2;
    data[8..12].copy_from_slice(&48000u32.to_be_bytes());
    data[12..16].copy_from_slice(&1234u32.to_be_bytes());
    data[16..18].copy_from_slice(&500u16.to_be_bytes());
    data[18] = version;
    data
}

#[test]
fn endian_helpers() {
    assert_eq!(get_u16(&[0x12, 0x34]), 0x1234);
    assert_eq!(get_u32(&[0x12, 0x34, 0x56, 0x78]), 0x12345678);
    assert_eq!(get_u16(&[0xFF, 0xFF]), 0xFFFF);
    assert_eq!(get_u32(&[0x00, 0x00, 0x00, 0x01]), 1);
}

#[test]
fn parse_v3_fields() {
    let mut data: Vec<u8> = base_header(3, 60, 80);
    data[24..28].copy_from_slice(&1u32.to_be_bytes());
    data[28..32].copy_from_slice(&16u32.to_be_bytes());
    data[36..40].copy_from_slice(&32u32.to_be_bytes());
    data[58..64].copy_from_slice(b"(c)CRI");
    let f: AdxFile = AdxFile::new(&data).unwrap();
    assert_eq!(f.file_code, 0x8000);
    assert_eq!(f.offset, 60);
    assert_eq!(f.encoding_type, 3);
    assert_eq!(f.block_size, 18);
    assert_eq!(f.sample_bit_depth, 4);
    assert_eq!(f.channel_count, 2);
    assert_eq!(f.sample_rate, 48000);
    assert_eq!(f.sample_count, 1234);
    assert_eq!(f.highpass_frequency, 500);
    assert_eq!(f.version, 3);
    assert!(f.has_loop);
    assert_eq!(f.loop_start_sample, 16);
    assert_eq!(f.loop_end_sample, 32);
    assert_eq!(f.cri_text, b"(c)CRI".to_vec());
    assert_eq!(f.encoded_buffer.len(), 80 - 64);
}

#[test]
fn parse_v4_loop_offsets() {
    let mut data: Vec<u8> = base_header(4, 60, 80);
    data[0x24..0x28].copy_from_slice(&1u32.to_be_bytes());
    data[0x28..0x2C].copy_from_slice(&100u32.to_be_bytes());
    data[0x30..0x34].copy_from_slice(&200u32.to_be_bytes());
    let f: AdxFile = AdxFile::new(&data).unwrap();
    assert!(f.has_loop);
    assert_eq!(f.loop_start_sample, 100);
    assert_eq!(f.loop_end_sample, 200);
}

#[test]
fn parse_v4_zero_loop_end_disables_loop() {
    let mut data: Vec<u8> = base_header(4, 60, 80);
    data[0x24..0x28].copy_from_slice(&1u32.to_be_bytes());
    data[0x28..0x2C].copy_from_slice(&100u32.to_be_bytes());
    // loop_end stays 0: the defensive override forces has_loop off.
    let f: AdxFile = AdxFile::new(&data).unwrap();
    assert!(!f.has_loop);
    assert_eq!(f.loop_start_sample, 100);
    assert_eq!(f.loop_end_sample, 0);
}

#[test]
fn parse_unknown_version_has_no_loop() {
    let data: Vec<u8> = base_header(5, 30, 60);
    let f: AdxFile = AdxFile::new(&data).unwrap();
    assert!(!f.has_loop);
    assert_eq!(f.loop_start_sample, 0);
    assert_eq!(f.loop_end_sample, 0);
    assert_eq!(f.version, 5);
}

#[test]
fn file_code_mismatch_is_not_fatal() {
    let mut data: Vec<u8> = base_header(5, 30, 60);
    data[0] = 0x12;
    data[1] = 0x34;
    let f: AdxFile = AdxFile::new(&data).unwrap();
    assert_eq!(f.file_code, 0x1234);
}

#[test]
fn truncated_header_fails() {
    assert!(matches!(AdxFile::new(&[]), Err(AdxError::TruncatedInput)));
    assert!(matches!(AdxFile::new(&[0x80u8; 18]), Err(AdxError::TruncatedInput)));
}

#[test]
fn truncated_loop_block_fails() {
    // Version 3 demands 44 bytes, version 4 demands 56.
    let data3: Vec<u8> = base_header(3, 30, 40);
    assert!(matches!(AdxFile::new(&data3), Err(AdxError::TruncatedInput)));
    let data4: Vec<u8> = base_header(4, 30, 50);
    assert!(matches!(AdxFile::new(&data4), Err(AdxError::TruncatedInput)));
}

#[test]
fn truncated_marker_fails() {
    // The marker ends 4 bytes past data_offset; 60 + 4 > 62.
    let data: Vec<u8> = base_header(5, 60, 62);
    assert!(matches!(AdxFile::new(&data), Err(AdxError::TruncatedInput)));
    // An offset before 2 would place the marker before the file starts.
    let data2: Vec<u8> = base_header(5, 1, 62);
    assert!(matches!(AdxFile::new(&data2), Err(AdxError::TruncatedInput)));
}

#[test]
fn payload_follows_marker() {
    let mut data: Vec<u8> = base_header(5, 30, 52);
    for i in 34..52 {
        data[i] = (i - 34) as u8;
    }
    let f: AdxFile = AdxFile::new(&data).unwrap();
    assert_eq!(f.encoded_buffer.len(), 18);
    for i in 0..18 {
        assert_eq!(f.encoded_buffer[i], i as u8);
    }
}
