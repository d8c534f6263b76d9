use classvm::class::simple_loader::class_reader::ClassReader;
use classvm::error::DecodeError;

#[test]
fn reads_big_endian_primitives() {
    let mut r = ClassReader::new(vec![
        0x12, 0x34, 0x56, 0x78, 0x9A, 0xBC, 0xDE, 0xF0, 0x01, 0x02, 0xFF, 0xFE, 0xFD, 0xFC, 0x03,
    ]);
    assert_eq!(r.read_u64(), Ok(0x1234_5678_9ABC_DEF0));
    assert_eq!(r.read_u16(), Ok(0x0102));
    assert_eq!(r.read_u32(), Ok(0xFFFE_FDFC));
    assert_eq!(r.offset(), 14);
    assert_eq!(r.remaining(), 1);
    assert_eq!(r.read_u8(), Ok(3));
    assert_eq!(r.read_u8(), Err(DecodeError::TruncatedInput));
}

#[test]
fn failed_read_leaves_cursor_in_place() {
    let mut r = ClassReader::new(vec![1, 2, 3]);
    assert_eq!(r.read_u32(), Err(DecodeError::TruncatedInput));
    assert_eq!(r.read_u64(), Err(DecodeError::TruncatedInput));
    assert_eq!(r.read_data(4), Err(DecodeError::TruncatedInput));
    assert_eq!(r.read_reversed_data(4), Err(DecodeError::TruncatedInput));
    assert_eq!(r.offset(), 0);
    assert_eq!(r.read_u16(), Ok(0x0102));
    assert_eq!(r.read_u16(), Err(DecodeError::TruncatedInput));
    assert_eq!(r.offset(), 2);
}

#[test]
fn reads_raw_and_reversed_bytes() {
    let mut r = ClassReader::new(vec![1, 2, 3, 4, 5, 6]);
    assert_eq!(r.read_data(2), Ok(vec![1, 2]));
    assert_eq!(r.read_reversed_data(3), Ok(vec![5, 4, 3]));
    assert_eq!(r.read_data(0), Ok(vec![]));
    assert_eq!(r.read_data(1), Ok(vec![6]));
    assert_eq!(r.read_data(0), Ok(vec![]));
}

#[test]
fn reads_counted_u16_sequence() {
    let mut r = ClassReader::new(vec![0, 3, 0, 1, 1, 0, 0xFF, 0xFF, 9]);
    assert_eq!(r.read_u16s(), Ok(vec![1, 256, 65535]));
    assert_eq!(r.offset(), 8);
    let mut empty = ClassReader::new(vec![0, 0]);
    assert_eq!(empty.read_u16s(), Ok(vec![]));
    let mut short = ClassReader::new(vec![0, 2, 0, 1, 0]);
    assert_eq!(short.read_u16s(), Err(DecodeError::TruncatedInput));
    let mut no_count = ClassReader::new(vec![0]);
    assert_eq!(no_count.read_u16s(), Err(DecodeError::TruncatedInput));
}
