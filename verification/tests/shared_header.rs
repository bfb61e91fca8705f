use memio::{
    read_header, read_length, read_u64_le, read_version, validate_magic, validate_magic_result,
    write_header, write_header_unchecked, write_u64_le, MemioError, SHARED_STATE_HEADER_SIZE,
    SHARED_STATE_MAGIC,
};

#[test]
fn test_header_roundtrip() {
    let mut buf = vec![0u8; SHARED_STATE_HEADER_SIZE + 100];
    assert!(write_header_unchecked(&mut buf, 42, 50));
    assert!(validate_magic(&buf));
    let (version, length) = read_header(&buf, 100).unwrap();
    assert_eq!(version, 42);
    assert_eq!(length, 50);
}

#[test]
fn test_invalid_magic() {
    let buf = vec![0u8; SHARED_STATE_HEADER_SIZE];
    assert!(!validate_magic(&buf));
    assert!(read_header(&buf, 100).is_none());
}

#[test]
fn test_read_version() {
    let mut buf = vec![0u8; SHARED_STATE_HEADER_SIZE];
    write_header_unchecked(&mut buf, 123, 0);
    assert_eq!(read_version(&buf), Some(123));
}

#[test]
fn header_bytes_are_little_endian() {
    let mut buf = vec![0u8; SHARED_STATE_HEADER_SIZE];
    assert!(write_header(&mut buf, 0x0102_0304_0506_0708, 0x1122).is_ok());
    assert_eq!(&buf[0..8], &[0x52, 0x48, 0x53, 0x4F, 0x42, 0x52, 0x55, 0x54]);
    assert_eq!(&buf[0..8], &SHARED_STATE_MAGIC.to_le_bytes());
    assert_eq!(&buf[8..16], &[8, 7, 6, 5, 4, 3, 2, 1]);
    assert_eq!(&buf[16..24], &[0x22, 0x11, 0, 0, 0, 0, 0, 0]);
    assert!(buf[24..].iter().all(|b| *b == 0));
}

#[test]
fn write_header_refuses_short_buffer_untouched() {
    let mut buf = vec![0xABu8; SHARED_STATE_HEADER_SIZE - 1];
    let err = write_header(&mut buf, 1, 1).unwrap_err();
    assert_eq!(err, MemioError::Internal("Shared state header too small.".to_string()));
    assert!(buf.iter().all(|b| *b == 0xAB));
    assert!(!write_header_unchecked(&mut buf, 1, 1));
    assert!(buf.iter().all(|b| *b == 0xAB));
}

#[test]
fn read_header_rejects_length_over_capacity() {
    let mut buf = vec![0u8; SHARED_STATE_HEADER_SIZE + 8];
    assert!(write_header_unchecked(&mut buf, 9, 8));
    assert_eq!(read_header(&buf, 8), Some((9, 8)));
    assert_eq!(read_header(&buf, 7), None);
    assert_eq!(read_length(&buf), Some(8));
}

#[test]
fn read_header_rejects_short_buffer() {
    let buf = vec![0u8; SHARED_STATE_HEADER_SIZE - 1];
    assert_eq!(read_header(&buf, 100), None);
    assert_eq!(read_version(&buf), None);
    assert_eq!(read_length(&buf), None);
    assert!(!validate_magic(&buf));
}

#[test]
fn validate_magic_result_names_the_reason() {
    let short = vec![0u8; 10];
    assert_eq!(
        validate_magic_result(&short),
        Err(MemioError::Internal("Shared state header too small.".to_string()))
    );
    let mut buf = vec![0u8; SHARED_STATE_HEADER_SIZE];
    assert_eq!(
        validate_magic_result(&buf),
        Err(MemioError::Internal("Invalid shared state magic.".to_string()))
    );
    write_header_unchecked(&mut buf, 0, 0);
    assert_eq!(validate_magic_result(&buf), Ok(()));
}

#[test]
fn u64_fields_round_trip_at_any_offset() {
    let mut buf = vec![0u8; 32];
    write_u64_le(&mut buf, 3, u64::MAX - 1);
    assert_eq!(read_u64_le(&buf, 3), u64::MAX - 1);
    assert_eq!(buf[2], 0);
    assert_eq!(buf[3], 0xFE);
    assert_eq!(buf[10], 0xFF);
    assert_eq!(buf[11], 0);
}
