use palworld_save::compression::{check_declared_len, deflate, inflate, intermediate, pass_outcome};
use palworld_save::error::{ErrorKind, FormatError};
use palworld_save::header::SaveType;

const HELLO: &[u8] = b"hello hello hello hello";

const HELLO_ZLIB: [u8; 16] = [
    120, 156, 203, 72, 205, 201, 201, 87, 200, 64, 39, 1, 104, 3, 8, 177,
];

fn twice(data: &[u8]) -> Vec<u8> {
    let once = deflate(data, SaveType::Zlib).unwrap();
    deflate(&once, SaveType::Zlib).unwrap()
}

#[test]
fn declared_len_must_be_the_len_found() {
    assert_eq!(check_declared_len(0, 0), Ok(()));
    assert_eq!(check_declared_len(50, 50), Ok(()));
    assert_eq!(check_declared_len(49, 50), Err(FormatError::LengthMismatch));
    assert_eq!(check_declared_len(51, 50), Err(FormatError::LengthMismatch));
    assert_eq!(check_declared_len(u32::MAX as usize, u32::MAX), Ok(()));
    assert_eq!(check_declared_len(0, u32::MAX), Err(FormatError::LengthMismatch));
}

#[test]
fn a_len_beyond_u32_is_never_the_declared_len() {
    let found = (u32::MAX as u64 + 1) as usize;
    if found as u64 == u32::MAX as u64 + 1 {
        assert_eq!(check_declared_len(found, 0), Err(FormatError::LengthMismatch));
        assert_eq!(
            check_declared_len(found + 50, 50),
            Err(FormatError::LengthMismatch)
        );
    }
}

#[test]
fn pass_outcome_keeps_data_and_wraps_the_message() {
    assert_eq!(pass_outcome(Ok(vec![1, 2, 3])), Ok(vec![1, 2, 3]));
    assert_eq!(
        pass_outcome(Err("corrupt deflate stream".to_string())),
        Err(FormatError::CompressionFailure("corrupt deflate stream".to_string()))
    );
}

#[test]
fn intermediate_checks_the_first_pass() {
    assert_eq!(intermediate(Ok(vec![7; 5]), 5), Ok(vec![7; 5]));
    assert_eq!(intermediate(Ok(vec![7; 5]), 4), Err(FormatError::LengthMismatch));
    assert_eq!(intermediate(Ok(vec![7; 5]), 6), Err(FormatError::LengthMismatch));
    assert_eq!(intermediate(Ok(vec![]), 0), Ok(vec![]));
    assert_eq!(
        intermediate(Err("no".to_string()), 5),
        Err(FormatError::CompressionFailure("no".to_string()))
    );
}

#[test]
fn stored_payload_is_the_data() {
    assert_eq!(inflate(HELLO, SaveType::Stored, 0), Ok(HELLO.to_vec()));
    assert_eq!(inflate(HELLO, SaveType::Stored, 999), Ok(HELLO.to_vec()));
    assert_eq!(inflate(&[], SaveType::Stored, 5), Ok(vec![]));
    assert_eq!(inflate(&HELLO_ZLIB, SaveType::Stored, 16), Ok(HELLO_ZLIB.to_vec()));
}

#[test]
fn single_pass_inflates_once() {
    assert_eq!(inflate(&HELLO_ZLIB, SaveType::Zlib, 16), Ok(HELLO.to_vec()));
}

#[test]
fn single_pass_checks_the_len_before_inflating() {
    assert_eq!(inflate(&HELLO_ZLIB, SaveType::Zlib, 15), Err(FormatError::LengthMismatch));
    assert_eq!(inflate(&HELLO_ZLIB, SaveType::Zlib, 17), Err(FormatError::LengthMismatch));
    assert_eq!(inflate(&HELLO_ZLIB, SaveType::Zlib, 23), Err(FormatError::LengthMismatch));
    assert_eq!(inflate(b"not zlib", SaveType::Zlib, 7), Err(FormatError::LengthMismatch));
}

#[test]
fn single_pass_reports_corrupt_streams() {
    let failure = inflate(b"not zlib", SaveType::Zlib, 8).unwrap_err();
    assert_eq!(failure.kind(), ErrorKind::CompressionFailure);
    assert!(matches!(&failure, FormatError::CompressionFailure(cause) if !cause.is_empty()));
}

#[test]
fn single_pass_reports_cut_streams() {
    let cut = &HELLO_ZLIB[..10];
    let failure = inflate(cut, SaveType::Zlib, 10).unwrap_err();
    assert_eq!(failure.kind(), ErrorKind::CompressionFailure);
    let failure = inflate(&[], SaveType::Zlib, 0).unwrap_err();
    assert_eq!(failure.kind(), ErrorKind::CompressionFailure);
}

#[test]
fn double_pass_inflates_twice() {
    let payload = twice(HELLO);
    assert_eq!(inflate(&payload, SaveType::DoubleZlib, 16), Ok(HELLO.to_vec()));
}

#[test]
fn double_pass_checks_the_first_pass() {
    let payload = twice(HELLO);
    assert_eq!(inflate(&payload, SaveType::DoubleZlib, 15), Err(FormatError::LengthMismatch));
    assert_eq!(inflate(&payload, SaveType::DoubleZlib, 17), Err(FormatError::LengthMismatch));
    assert_eq!(
        inflate(&payload, SaveType::DoubleZlib, payload.len() as u32),
        Err(FormatError::LengthMismatch)
    );
    assert_eq!(inflate(&payload, SaveType::DoubleZlib, 23), Err(FormatError::LengthMismatch));
}

#[test]
fn double_pass_reports_a_corrupt_first_pass() {
    let failure = inflate(b"not zlib", SaveType::DoubleZlib, 8).unwrap_err();
    assert_eq!(failure.kind(), ErrorKind::CompressionFailure);
}

#[test]
fn double_pass_reports_a_corrupt_second_pass() {
    let payload = deflate(b"not zlib", SaveType::Zlib).unwrap();
    let failure = inflate(&payload, SaveType::DoubleZlib, 8).unwrap_err();
    assert_eq!(failure.kind(), ErrorKind::CompressionFailure);
    assert_eq!(inflate(&payload, SaveType::DoubleZlib, 9), Err(FormatError::LengthMismatch));
}

#[test]
fn deflate_writes_a_zlib_stream() {
    let payload = deflate(HELLO, SaveType::Zlib).unwrap();
    assert_ne!(payload, HELLO.to_vec());
    assert_eq!(&payload[..2], &[0x78, 0x9c]);
    assert!(payload.len() < HELLO.len());
    assert_eq!(inflate(&payload, SaveType::Zlib, payload.len() as u32), Ok(HELLO.to_vec()));
}

#[test]
fn deflate_of_nothing_is_a_stream_of_nothing() {
    let payload = deflate(&[], SaveType::Zlib).unwrap();
    assert!(!payload.is_empty());
    assert_eq!(inflate(&payload, SaveType::Zlib, payload.len() as u32), Ok(vec![]));
}

#[test]
fn inflate_undoes_deflate() {
    let mut data = Vec::new();
    for i in 0..5000u32 {
        data.push((i * 7 % 251) as u8);
        if i % 617 == 0 {
            let payload = deflate(&data, SaveType::Zlib).unwrap();
            assert_eq!(inflate(&payload, SaveType::Zlib, payload.len() as u32), Ok(data.clone()));
        }
    }
}

#[test]
fn only_single_pass_is_written() {
    assert_eq!(deflate(HELLO, SaveType::Stored), Err(FormatError::UnsupportedSaveType));
    assert_eq!(deflate(HELLO, SaveType::DoubleZlib), Err(FormatError::UnsupportedSaveType));
    assert!(deflate(HELLO, SaveType::Zlib).is_ok());
}
