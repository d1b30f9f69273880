use patina_performance::error::Error;
use patina_performance::writer::{
    ensure_space, write_bytes, write_u16_le, write_u32_le, write_u64_le, write_u8, write_uint, IntoLeBytes,
};

#[test]
fn test_ensure_space() {
    let buffer = [0u8; 8];
    assert!(ensure_space(&buffer, 0, 8).is_ok());
    assert!(ensure_space(&buffer, 8, 0).is_ok());
    assert!(ensure_space(&buffer, 3, 5).is_ok());
    assert!(matches!(ensure_space(&buffer, 0, 9), Err(Error::Serialization)));
    assert!(matches!(ensure_space(&buffer, 4, 5), Err(Error::Serialization)));
    assert!(matches!(ensure_space(&buffer, 9, 0), Err(Error::Serialization)));
    assert!(matches!(ensure_space(&buffer, usize::MAX, 1), Err(Error::Serialization)));
    assert!(matches!(ensure_space(&buffer, 1, usize::MAX), Err(Error::Serialization)));
    assert!(matches!(ensure_space(&buffer, usize::MAX, usize::MAX), Err(Error::Serialization)));
    assert!(ensure_space(&[], 0, 0).is_ok());
}

#[test]
fn test_write_bytes() {
    let mut buffer = [0xEEu8; 8];
    let mut offset = 2usize;
    assert!(write_bytes(&mut buffer, &mut offset, &[1, 2, 3]).is_ok());
    assert_eq!(offset, 5);
    assert_eq!(buffer, [0xEE, 0xEE, 1, 2, 3, 0xEE, 0xEE, 0xEE]);

    assert!(write_bytes(&mut buffer, &mut offset, &[]).is_ok());
    assert_eq!(offset, 5);

    assert!(matches!(write_bytes(&mut buffer, &mut offset, &[9, 9, 9, 9]), Err(Error::Serialization)));
    assert_eq!(offset, 5);
    assert_eq!(buffer, [0xEE, 0xEE, 1, 2, 3, 0xEE, 0xEE, 0xEE]);

    assert!(write_bytes(&mut buffer, &mut offset, &[7, 8, 9]).is_ok());
    assert_eq!(offset, 8);
    assert_eq!(buffer, [0xEE, 0xEE, 1, 2, 3, 7, 8, 9]);
    assert!(matches!(write_bytes(&mut buffer, &mut offset, &[1]), Err(Error::Serialization)));
    assert!(write_bytes(&mut buffer, &mut offset, &[]).is_ok());
}

#[test]
fn test_write_integers_little_endian() {
    let mut buffer = [0u8; 15];
    let mut offset = 0usize;
    assert!(write_u8(&mut buffer, &mut offset, 0xab).is_ok());
    assert_eq!(offset, 1);
    assert!(write_u16_le(&mut buffer, &mut offset, 0x1234).is_ok());
    assert_eq!(offset, 3);
    assert!(write_u32_le(&mut buffer, &mut offset, 0x89abcdef).is_ok());
    assert_eq!(offset, 7);
    assert!(write_u64_le(&mut buffer, &mut offset, 0x0102030405060708).is_ok());
    assert_eq!(offset, 15);
    assert_eq!(
        buffer,
        [0xab, 0x34, 0x12, 0xef, 0xcd, 0xab, 0x89, 0x08, 0x07, 0x06, 0x05, 0x04, 0x03, 0x02, 0x01]
    );
}

#[test]
fn test_write_integers_without_room() {
    let mut buffer = [0xEEu8; 7];
    let mut offset = 0usize;
    assert!(matches!(write_u64_le(&mut buffer, &mut offset, 1), Err(Error::Serialization)));
    assert_eq!(offset, 0);
    let mut offset = 4usize;
    assert!(matches!(write_u32_le(&mut buffer, &mut offset, 1), Err(Error::Serialization)));
    assert_eq!(offset, 4);
    let mut offset = 6usize;
    assert!(matches!(write_u16_le(&mut buffer, &mut offset, 1), Err(Error::Serialization)));
    assert_eq!(offset, 6);
    let mut offset = 7usize;
    assert!(matches!(write_u8(&mut buffer, &mut offset, 1), Err(Error::Serialization)));
    assert_eq!(offset, 7);
    assert_eq!(buffer, [0xEEu8; 7]);
    let mut offset = 6usize;
    assert!(write_u8(&mut buffer, &mut offset, 1).is_ok());
    assert_eq!(buffer, [0xEE, 0xEE, 0xEE, 0xEE, 0xEE, 0xEE, 1]);
}

#[test]
fn test_write_uint() {
    let mut buffer = [0u8; 4];
    let mut offset = 0usize;
    assert!(write_uint(&mut buffer, &mut offset, 0xa1b2c3d4u32).is_ok());
    assert_eq!(buffer, [0xd4, 0xc3, 0xb2, 0xa1]);
    assert_eq!(offset, 4);
    assert!(matches!(write_uint(&mut buffer, &mut offset, 1u8), Err(Error::Serialization)));
}

#[test]
fn test_to_le_bytes_agrees_with_std() {
    for v in [0u64, 1, 0xff, 0x100, 0x1234, 0xffff, 0x89abcdef, u32::MAX as u64, 0x0102030405060708, u64::MAX] {
        assert_eq!(IntoLeBytes::to_le_bytes(v), u64::to_le_bytes(v));
        assert_eq!(IntoLeBytes::to_le_bytes(v as u32), u32::to_le_bytes(v as u32));
        assert_eq!(IntoLeBytes::to_le_bytes(v as u16), u16::to_le_bytes(v as u16));
        assert_eq!(IntoLeBytes::to_le_bytes(v as u8), u8::to_le_bytes(v as u8));
    }
}
