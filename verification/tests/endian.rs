use dynamixel2::bus::endian::{read_u16_le, read_u32_le, read_u8_le, write_u16_le, write_u32_le, write_u8_le};

#[test]
fn test_write_u16_le() {
    let mut buffer = [0xFF; 4];
    write_u16_le(&mut buffer[0..], 0x0000);
    assert!(buffer == [0x00, 0x00, 0xFF, 0xFF]);

    write_u16_le(&mut buffer[2..], 0x1234);
    assert!(buffer == [0x00, 0x00, 0x34, 0x12]);
}

#[test]
fn test_read_u16_le() {
    assert!(read_u16_le(&[0x00, 0x00, 0x34, 0x12]) == 0);
    assert!(read_u16_le(&[0x34, 0x12]) == 0x1234);
}

#[test]
fn test_read_u32_le() {
    assert!(read_u32_le(&[0x00, 0x00, 0x00, 0x00, 0x78, 0x56, 0x34, 0x12]) == 0);
    assert!(read_u32_le(&[0x78, 0x56, 0x34, 0x12]) == 0x12345678);
}

#[test]
fn u8_values_are_single_bytes() {
    let mut buffer = [0u8; 2];
    write_u8_le(&mut buffer[1..], 0xAB);
    assert_eq!(buffer, [0x00, 0xAB]);
    assert_eq!(read_u8_le(&buffer[1..]), 0xAB);
}

#[test]
fn u32_values_round_trip() {
    let mut buffer = [0u8; 4];
    write_u32_le(&mut buffer, 0x12345678);
    assert_eq!(buffer, [0x78, 0x56, 0x34, 0x12]);
    assert_eq!(read_u32_le(&buffer), 0x12345678);
}
