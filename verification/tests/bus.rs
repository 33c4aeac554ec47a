use core::time::Duration;

use dynamixel2::bus::endian;
use dynamixel2::bus::{find_header, message_transfer_time, Bus, HEADER_PREFIX, HEADER_SIZE};
use dynamixel2::{ReadError, SerialPort};

#[test]
    fn bus_test_message_transfer_time() {
        // Try a bunch of values to ensure we dealt with overflow correctly.
        assert!(message_transfer_time(100, 1_000) == Duration::from_secs(1));
        assert!(message_transfer_time(1_000, 10_000) == Duration::from_secs(1));
        assert!(message_transfer_time(1_000, 1_000_000) == Duration::from_millis(10));
        assert!(message_transfer_time(1_000, 10_000_000) == Duration::from_millis(1));
        assert!(message_transfer_time(1_000, 100_000_000) == Duration::from_micros(100));
        assert!(message_transfer_time(1_000, 1_000_000_000) == Duration::from_micros(10));
        assert!(message_transfer_time(1_000, 2_000_000_000) == Duration::from_micros(5));
        assert!(message_transfer_time(1_000, 4_000_000_000) == Duration::from_nanos(2500));
        assert!(message_transfer_time(10_000, 4_000_000_000) == Duration::from_micros(25));
        assert!(message_transfer_time(1_000_000, 4_000_000_000) == Duration::from_micros(2500));
        assert!(message_transfer_time(10_000_000, 4_000_000_000) == Duration::from_millis(25));
        assert!(message_transfer_time(100_000_000, 4_000_000_000) == Duration::from_millis(250));
        assert!(message_transfer_time(1_000_000_000, 4_000_000_000) == Duration::from_millis(2500));
        assert!(message_transfer_time(2_000_000_000, 4_000_000_000) == Duration::from_secs(5));
        assert!(message_transfer_time(4_000_000_000, 4_000_000_000) == Duration::from_secs(10));
        assert!(message_transfer_time(4_000_000_000, 2_000_000_000) == Duration::from_secs(20));
        assert!(message_transfer_time(4_000_000_000, 1_000_000_000) == Duration::from_secs(40));
        assert!(message_transfer_time(4_000_000_000, 100_000_000) == Duration::from_secs(400));
        assert!(message_transfer_time(4_000_000_000, 10_000_000) == Duration::from_secs(4_000));
        assert!(message_transfer_time(4_000_000_000, 1_000_000) == Duration::from_secs(40_000));
        assert!(message_transfer_time(4_000_000_000, 100_000) == Duration::from_secs(400_000));
        assert!(message_transfer_time(4_000_000_000, 10_000) == Duration::from_secs(4_000_000));
        assert!(message_transfer_time(4_000_000_000, 1_000) == Duration::from_secs(40_000_000));
        assert!(message_transfer_time(4_000_000_000, 100) == Duration::from_secs(400_000_000));
        assert!(message_transfer_time(4_000_000_000, 10) == Duration::from_secs(4_000_000_000));
        assert!(message_transfer_time(4_000_000_000, 1) == Duration::from_secs(40_000_000_000));

        assert!(message_transfer_time(43, 1) == Duration::from_secs(430));
        assert!(message_transfer_time(43, 10) == Duration::from_secs(43));
        assert!(message_transfer_time(43, 2) == Duration::from_secs(215));
        assert!(message_transfer_time(43, 20) == Duration::from_millis(21_500));
        assert!(message_transfer_time(43, 200) == Duration::from_millis(2_150));
        assert!(message_transfer_time(43, 2_000_000) == Duration::from_micros(215));
        assert!(message_transfer_time(43, 2_000_000_000) == Duration::from_nanos(215));
        assert!(message_transfer_time(43, 4_000_000_000) == Duration::from_nanos(108)); // rounded up
        assert!(message_transfer_time(3, 4_000_000_000) == Duration::from_nanos(8)); // rounded up
        assert!(message_transfer_time(5, 4_000_000_000) == Duration::from_nanos(13)); // rounded up

        let lots: u32 = u32::MAX - 1; // Use MAX - 1 because MAX is not cleanly divisible by 2.
        assert!(message_transfer_time(lots, 1) == Duration::from_secs(u64::from(lots) * 10));
        assert!(message_transfer_time(lots, lots) == Duration::from_secs(10));
        assert!(message_transfer_time(lots / 2, lots) == Duration::from_secs(5));
        assert!(message_transfer_time(lots, lots / 2) == Duration::from_secs(20));
    }

#[test]
    fn mod_test_message_transfer_time() {
        // Try a bunch of values to ensure we dealt with overflow correctly.
        assert!(message_transfer_time(100, 1_000) == Duration::from_secs(1));
        assert!(message_transfer_time(1_000, 10_000) == Duration::from_secs(1));
        assert!(message_transfer_time(1_000, 1_000_000) == Duration::from_millis(10));
        assert!(message_transfer_time(1_000, 10_000_000) == Duration::from_millis(1));
        assert!(message_transfer_time(1_000, 100_000_000) == Duration::from_micros(100));
        assert!(message_transfer_time(1_000, 1_000_000_000) == Duration::from_micros(10));
        assert!(message_transfer_time(1_000, 2_000_000_000) == Duration::from_micros(5));
        assert!(message_transfer_time(1_000, 4_000_000_000) == Duration::from_nanos(2500));
        assert!(message_transfer_time(10_000, 4_000_000_000) == Duration::from_micros(25));
        assert!(message_transfer_time(1_000_000, 4_000_000_000) == Duration::from_micros(2500));
        assert!(message_transfer_time(10_000_000, 4_000_000_000) == Duration::from_millis(25));
        assert!(message_transfer_time(100_000_000, 4_000_000_000) == Duration::from_millis(250));
        assert!(message_transfer_time(1_000_000_000, 4_000_000_000) == Duration::from_millis(2500));
        assert!(message_transfer_time(2_000_000_000, 4_000_000_000) == Duration::from_secs(5));
        assert!(message_transfer_time(4_000_000_000, 4_000_000_000) == Duration::from_secs(10));
        assert!(message_transfer_time(4_000_000_000, 2_000_000_000) == Duration::from_secs(20));
        assert!(message_transfer_time(4_000_000_000, 1_000_000_000) == Duration::from_secs(40));
        assert!(message_transfer_time(4_000_000_000, 100_000_000) == Duration::from_secs(400));
        assert!(message_transfer_time(4_000_000_000, 10_000_000) == Duration::from_secs(4_000));
        assert!(message_transfer_time(4_000_000_000, 1_000_000) == Duration::from_secs(40_000));
        assert!(message_transfer_time(4_000_000_000, 100_000) == Duration::from_secs(400_000));
        assert!(message_transfer_time(4_000_000_000, 10_000) == Duration::from_secs(4_000_000));
        assert!(message_transfer_time(4_000_000_000, 1_000) == Duration::from_secs(40_000_000));
        assert!(message_transfer_time(4_000_000_000, 100) == Duration::from_secs(400_000_000));
        assert!(message_transfer_time(4_000_000_000, 10) == Duration::from_secs(4_000_000_000));
        assert!(message_transfer_time(4_000_000_000, 1) == Duration::from_secs(40_000_000_000));

        assert!(message_transfer_time(43, 1) == Duration::from_secs(430));
        assert!(message_transfer_time(43, 10) == Duration::from_secs(43));
        assert!(message_transfer_time(43, 2) == Duration::from_secs(215));
        assert!(message_transfer_time(43, 20) == Duration::from_millis(21_500));
        assert!(message_transfer_time(43, 200) == Duration::from_millis(2_150));
        assert!(message_transfer_time(43, 2_000_000) == Duration::from_micros(215));
        assert!(message_transfer_time(43, 2_000_000_000) == Duration::from_nanos(215));
        assert!(message_transfer_time(43, 4_000_000_000) == Duration::from_nanos(108)); // rounded up
        assert!(message_transfer_time(3, 4_000_000_000) == Duration::from_nanos(8)); // rounded up
        assert!(message_transfer_time(5, 4_000_000_000) == Duration::from_nanos(13)); // rounded up

        let lots: u32 = u32::MAX - 1; // Use MAX - 1 because MAX is not cleanly divisible by 2.
        assert!(message_transfer_time(lots, 1) == Duration::from_secs(u64::from(lots) * 10));
        assert!(message_transfer_time(lots, lots) == Duration::from_secs(10));
        assert!(message_transfer_time(lots / 2, lots) == Duration::from_secs(5));
        assert!(message_transfer_time(lots, lots / 2) == Duration::from_secs(20));
    }

#[test]
fn test_find_garbage_end() {
    assert!(find_header(&[0xFF]) == 0);
    assert!(find_header(&[0xFF, 0xFF]) == 0);
    assert!(find_header(&[0xFF, 0xFF, 0xFD]) == 0);
    assert!(find_header(&[0xFF, 0xFF, 0xFD, 0x00]) == 0);
    assert!(find_header(&[0xFF, 0xFF, 0xFD, 0x00, 9]) == 0);

    assert!(find_header(&[0, 1, 2, 3, 4, 0xFF]) == 5);
    assert!(find_header(&[0, 1, 2, 3, 4, 0xFF, 0xFF]) == 5);
    assert!(find_header(&[0, 1, 2, 3, 4, 0xFF, 0xFF, 0xFD]) == 5);
    assert!(find_header(&[0, 1, 2, 3, 4, 0xFF, 0xFF, 0xFD, 0x00]) == 5);
    assert!(find_header(&[0, 1, 2, 3, 4, 0xFF, 0xFF, 0xFD, 0x00, 9]) == 5);

    assert!(find_header(&[0xFF, 1]) == 2);
    assert!(find_header(&[0, 1, 2, 3, 4, 0xFF, 6]) == 7);
}

/// Dummy serial port used to feed packages.
/// It does not support writing them etc.
struct DummySerial {}

impl SerialPort for DummySerial {
    type Error = std::io::Error;
    type Instant = std::time::Instant;

    fn baud_rate(&self) -> Result<u32, Self::Error> {
        Ok(115_200)
    }

    fn set_baud_rate(&mut self, _baud_rate: u32) -> Result<(), Self::Error> {
        Err(std::io::Error::other("not used in this test"))
    }

    fn discard_input_buffer(&mut self) -> Result<(), Self::Error> {
        Err(std::io::Error::other("not used in this test"))
    }

    fn read(&mut self, buffer: &mut [u8], _deadline: &Self::Instant) -> Result<usize, Self::Error> {
        // Packet 1
        // Build a package header with a (wrong) length of 10000 in the header
        buffer[..4].copy_from_slice(&HEADER_PREFIX);
        buffer[4] = 0;
        endian::write_u16_le(&mut buffer[5..], 10000);

        // Packet 2
        // Build a normal packet
        let offset: usize = 8;
        let packet_2_length: usize = 10;
        buffer[offset..offset + 4].copy_from_slice(&HEADER_PREFIX);
        buffer[offset + 4] = 0;
        endian::write_u16_le(&mut buffer[offset + 5..], packet_2_length as u16);
        let checksum_len: usize = 2;
        let checksum_index: usize = HEADER_SIZE + packet_2_length - checksum_len;
        let checksum: u16 = dynamixel2::checksum::calculate_checksum(0, &buffer[offset..offset + checksum_index]);
        endian::write_u16_le(&mut buffer[offset + checksum_index..], checksum);
        Ok(50)
    }

    fn write_all(&mut self, _buffer: &[u8]) -> Result<(), Self::Error> {
        Err(std::io::Error::other("not used in this test"))
    }

    fn make_deadline(&self, timeout: Duration) -> Self::Instant {
        std::time::Instant::now() + timeout
    }

    fn is_timeout_error(_error: &Self::Error) -> bool {
        false
    }
}

#[test]
fn test_buffer_too_small() {
    let read_buffer = vec![0u8; 128];
    let write_buffer = vec![0u8; 128];

    // Setup the bus with a dummy serial interface
    let mut bus = Bus::with_buffers(DummySerial {}, read_buffer, write_buffer).unwrap();

    // Read the corrupt package
    let deadline = std::time::Instant::now() + Duration::from_secs(1);
    let result = bus.read_packet_deadline(&deadline);
    assert!(matches!(result.unwrap_err(), ReadError::BufferFull(_)));

    // Check that the next read works normally again (buffer is partially flushed)
    let result = bus.read_packet_deadline(&deadline);
    assert!(result.is_ok());
}
