use dynamixel2::checksum::calculate_checksum;

#[test]
fn checksum_of_a_ping_instruction() {
    assert_eq!(calculate_checksum(0, &[0xFF, 0xFF, 0xFD, 0x00, 0x01, 0x03, 0x00, 0x01]), 0x4E19);
}

#[test]
fn checksum_of_a_read_instruction() {
    let message = [0xFF, 0xFF, 0xFD, 0x00, 0x01, 0x07, 0x00, 0x02, 0x84, 0x00, 0x04, 0x00];
    assert_eq!(calculate_checksum(0, &message), 0x151D);
}

#[test]
fn checksum_of_a_status_packet() {
    let message = [0xFF, 0xFF, 0xFD, 0x00, 0x01, 0x07, 0x00, 0x55, 0x00, 0x06, 0x04, 0x26];
    assert_eq!(calculate_checksum(0, &message), 0x5D65);
}

#[test]
fn checksum_continues_over_pieces() {
    let message = [0xFF, 0xFF, 0xFD, 0x00, 0x01, 0x07, 0x00, 0x02, 0x84, 0x00, 0x04, 0x00];
    let first: u16 = calculate_checksum(0, &message[..5]);
    assert_eq!(calculate_checksum(first, &message[5..]), 0x151D);
}
