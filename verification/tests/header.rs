use palworld_save::error::FormatError;
use palworld_save::header::{parse_header, ContainerHeader, SaveType, HEADER_LEN};

fn header_bytes(uncompressed: [u8; 4], compressed: [u8; 4], magic: [u8; 3], save_type: u8) -> Vec<u8> {
    let mut raw = Vec::new();
    raw.extend_from_slice(&uncompressed);
    raw.extend_from_slice(&compressed);
    raw.extend_from_slice(&magic);
    raw.push(save_type);
    raw
}

#[test]
fn save_type_bytes() {
    assert_eq!(SaveType::from_byte(0x30), Some(SaveType::Stored));
    assert_eq!(SaveType::from_byte(0x31), Some(SaveType::Zlib));
    assert_eq!(SaveType::from_byte(0x32), Some(SaveType::DoubleZlib));
    assert_eq!(SaveType::from_byte(0x2f), None);
    assert_eq!(SaveType::from_byte(0x33), None);
    assert_eq!(SaveType::from_byte(0x00), None);
    assert_eq!(SaveType::from_byte(0xff), None);
    assert_eq!(SaveType::Stored.to_byte(), 0x30);
    assert_eq!(SaveType::Zlib.to_byte(), 0x31);
    assert_eq!(SaveType::DoubleZlib.to_byte(), 0x32);
}

#[test]
fn save_type_round_trip_for_every_byte() {
    for byte in 0..=255u8 {
        match SaveType::from_byte(byte) {
            Some(save_type) => assert_eq!(save_type.to_byte(), byte),
            None => assert!(byte != 0x30 && byte != 0x31 && byte != 0x32),
        }
    }
}

#[test]
fn header_len_is_twelve() {
    assert_eq!(HEADER_LEN, 12);
}

#[test]
fn parses_little_endian_lengths() {
    let raw = header_bytes([0x78, 0x56, 0x34, 0x12], [0x01, 0x02, 0x03, 0x04], *b"PlZ", 0x32);
    let (header, offset) = parse_header(&raw).unwrap();
    assert_eq!(offset, 12);
    assert_eq!(header.uncompressed_len, 0x1234_5678);
    assert_eq!(header.compressed_len, 0x0403_0201);
    assert_eq!(header.magic, *b"PlZ");
    assert_eq!(header.save_type, SaveType::DoubleZlib);
}

#[test]
fn parses_extreme_lengths() {
    let raw = header_bytes([0xff; 4], [0; 4], *b"PlZ", 0x30);
    let (header, _) = parse_header(&raw).unwrap();
    assert_eq!(header.uncompressed_len, u32::MAX);
    assert_eq!(header.compressed_len, 0);
    assert_eq!(header.save_type, SaveType::Stored);
    let raw = header_bytes([0, 0, 0, 0x80], [0xff, 0, 0, 0], *b"PlZ", 0x31);
    let (header, _) = parse_header(&raw).unwrap();
    assert_eq!(header.uncompressed_len, 0x8000_0000);
    assert_eq!(header.compressed_len, 255);
}

#[test]
fn payload_does_not_change_the_header() {
    let mut raw = header_bytes([100, 0, 0, 0], [50, 0, 0, 0], *b"PlZ", 0x31);
    let bare = parse_header(&raw).unwrap();
    raw.extend_from_slice(&[9, 8, 7, 6, 5]);
    assert_eq!(parse_header(&raw).unwrap(), bare);
    assert_eq!(bare.0, ContainerHeader::new(100, 50, SaveType::Zlib));
}

#[test]
fn fewer_than_twelve_bytes_are_truncated() {
    let full = header_bytes([1, 0, 0, 0], [1, 0, 0, 0], *b"PlZ", 0x31);
    for len in 0..12 {
        assert_eq!(parse_header(&full[..len]), Err(FormatError::Truncated));
    }
    assert!(parse_header(&full).is_ok());
}

#[test]
fn truncated_comes_before_bad_magic() {
    assert_eq!(parse_header(b"xxxxxxxxNOP"), Err(FormatError::Truncated));
}

#[test]
fn each_magic_byte_is_checked() {
    for position in 0..3 {
        for flip in [0x01u8, 0x20, 0x80, 0xff] {
            let mut magic = *b"PlZ";
            magic[position] ^= flip;
            let raw = header_bytes([1, 0, 0, 0], [1, 0, 0, 0], magic, 0x31);
            assert_eq!(parse_header(&raw), Err(FormatError::BadMagic));
        }
    }
}

#[test]
fn magic_is_case_sensitive() {
    let raw = header_bytes([1, 0, 0, 0], [1, 0, 0, 0], *b"plz", 0x31);
    assert_eq!(parse_header(&raw), Err(FormatError::BadMagic));
    let raw = header_bytes([1, 0, 0, 0], [1, 0, 0, 0], *b"PLZ", 0x31);
    assert_eq!(parse_header(&raw), Err(FormatError::BadMagic));
}

#[test]
fn bad_magic_comes_before_unknown_save_type() {
    let raw = header_bytes([1, 0, 0, 0], [1, 0, 0, 0], *b"GVA", 0x33);
    assert_eq!(parse_header(&raw), Err(FormatError::BadMagic));
}

#[test]
fn every_other_save_type_byte_is_unknown() {
    for byte in 0..=255u8 {
        let raw = header_bytes([1, 0, 0, 0], [1, 0, 0, 0], *b"PlZ", byte);
        let parsed = parse_header(&raw);
        if byte == 0x30 || byte == 0x31 || byte == 0x32 {
            assert!(parsed.is_ok());
        } else {
            assert_eq!(parsed, Err(FormatError::UnknownSaveType));
        }
    }
}

#[test]
fn header_is_written_as_twelve_bytes() {
    let header = ContainerHeader::new(0x1234_5678, 0x0403_0201, SaveType::Zlib);
    assert_eq!(
        header.to_bytes(),
        vec![0x78, 0x56, 0x34, 0x12, 0x01, 0x02, 0x03, 0x04, b'P', b'l', b'Z', 0x31]
    );
    let header = ContainerHeader::new(64, 50, SaveType::DoubleZlib);
    assert_eq!(header.to_bytes(), vec![64, 0, 0, 0, 50, 0, 0, 0, 0x50, 0x6c, 0x5a, 0x32]);
}

#[test]
fn written_header_is_parsed_back() {
    for save_type in [SaveType::Stored, SaveType::Zlib, SaveType::DoubleZlib] {
        for (uncompressed_len, compressed_len) in
            [(0, 0), (1, 2), (255, 256), (65_535, 65_536), (0x00ff_ffff, 0x0100_0000), (u32::MAX, u32::MAX - 1)]
        {
            let header = ContainerHeader::new(uncompressed_len, compressed_len, save_type);
            let mut raw = header.to_bytes();
            raw.extend_from_slice(&[1, 2, 3]);
            assert_eq!(parse_header(&raw), Ok((header, 12)));
        }
    }
}
