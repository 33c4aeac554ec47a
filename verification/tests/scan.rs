use dynamixel2::bus::scan::{read_message, scan_message, MessageScan};
use dynamixel2::checksum::calculate_checksum;
use dynamixel2::{BufferTooSmallError, ExpectedCount, InvalidChecksum, InvalidMessage, InvalidParameterCount, ReadError};

/// The ping instruction to motor 1, as the protocol manual shows it.
const PING_1: [u8; 10] = [0xFF, 0xFF, 0xFD, 0x00, 0x01, 0x03, 0x00, 0x01, 0x19, 0x4E];

fn with_checksum(mut message: Vec<u8>) -> Vec<u8> {
    let crc = calculate_checksum(0, &message);
    message.extend_from_slice(&crc.to_le_bytes());
    message
}

#[test]
fn read_message_decodes_after_garbage() {
    let mut received = vec![0x12, 0xFF, 0x34];
    received.extend_from_slice(&PING_1);
    received.extend_from_slice(&[0xFF, 0xFF]);
    let (result, used) = read_message::<()>(&received, 128).unwrap();
    assert_eq!(result.unwrap(), vec![0xFF, 0xFF, 0xFD, 0x00, 0x01, 0x03, 0x00, 0x01]);
    assert_eq!(used, 3 + PING_1.len());
}

#[test]
fn read_message_unstuffs_the_body() {
    let message = with_checksum(vec![0xFF, 0xFF, 0xFD, 0x00, 0x01, 0x08, 0x00, 0x55, 0x00, 0xFF, 0xFF, 0xFD, 0xFD]);
    let (result, used) = read_message::<()>(&message, 128).unwrap();
    assert_eq!(result.unwrap(), vec![0xFF, 0xFF, 0xFD, 0x00, 0x01, 0x08, 0x00, 0x55, 0x00, 0xFF, 0xFF, 0xFD]);
    assert_eq!(used, message.len());
}

#[test]
fn read_message_needs_more_bytes() {
    assert!(read_message::<()>(&PING_1[..9], 128).is_none());
    assert!(read_message::<()>(&PING_1[..7], 128).is_none());
    assert!(read_message::<()>(&[0x00, 0x01, 0x02], 128).is_none());
    assert!(read_message::<()>(&[], 128).is_none());
    assert_eq!(scan_message(&PING_1[..9], 128), MessageScan::Incomplete);
    assert_eq!(scan_message(&PING_1, 128), MessageScan::Complete { len: 10 });
}

#[test]
fn read_message_reports_a_wrong_checksum() {
    let mut message = PING_1.to_vec();
    message[9] = 0x4F;
    let (result, used) = read_message::<()>(&message, 128).unwrap();
    assert!(matches!(
        result,
        Err(ReadError::InvalidMessage(InvalidMessage::InvalidChecksum(InvalidChecksum {
            message: 0x4F19,
            computed: 0x4E19,
        })))
    ));
    assert_eq!(used, 10);
}

#[test]
fn read_message_reports_a_message_too_large_for_the_buffer() {
    let header = [0x00, 0xFF, 0xFF, 0xFD, 0x00, 0x01, 0x10, 0x27, 0x01];
    let (result, used) = read_message::<()>(&header, 128).unwrap();
    assert!(matches!(
        result,
        Err(ReadError::BufferFull(BufferTooSmallError {
            required_size: 10007,
            total_size: 128,
        }))
    ));
    assert_eq!(used, 1 + 7);
    assert_eq!(scan_message(&header[1..], 128), MessageScan::TooLarge { required_size: 10007 });
}

#[test]
fn read_message_rejects_a_length_field_too_small() {
    // The checksum of a message with length field 2 covers the first 7 bytes.
    let message = with_checksum(vec![0xFF, 0xFF, 0xFD, 0x00, 0x01, 0x02, 0x00]);
    let (result, used) = read_message::<()>(&message, 128).unwrap();
    assert!(matches!(
        result,
        Err(ReadError::InvalidMessage(InvalidMessage::InvalidParameterCount(InvalidParameterCount {
            actual: 2,
            expected: ExpectedCount::Min(3),
        })))
    ));
    assert_eq!(used, 9);

    // With a wrong checksum the checksum is reported.
    let message = [0xFF, 0xFF, 0xFD, 0x00, 0x01, 0x02, 0x00, 0x00, 0x00];
    let (result, _) = read_message::<()>(&message, 128).unwrap();
    assert!(matches!(result, Err(ReadError::InvalidMessage(InvalidMessage::InvalidChecksum(_)))));
}

#[test]
fn read_message_rejects_a_status_without_error_field() {
    let message = with_checksum(vec![0xFF, 0xFF, 0xFD, 0x00, 0x01, 0x03, 0x00, 0x55]);
    let (result, used) = read_message::<()>(&message, 128).unwrap();
    assert!(matches!(
        result,
        Err(ReadError::InvalidMessage(InvalidMessage::InvalidParameterCount(InvalidParameterCount {
            actual: 0,
            expected: ExpectedCount::Min(1),
        })))
    ));
    assert_eq!(used, 10);
}

/// A serial port that delivers the given chunks, one per read, and then times out.
struct ChunkPort {
    chunks: Vec<Vec<u8>>,
    reads: usize,
}

impl dynamixel2::SerialPort for ChunkPort {
    type Error = std::io::Error;
    type Instant = ();

    fn baud_rate(&self) -> Result<u32, Self::Error> {
        Ok(57_600)
    }

    fn set_baud_rate(&mut self, _baud_rate: u32) -> Result<(), Self::Error> {
        Ok(())
    }

    fn discard_input_buffer(&mut self) -> Result<(), Self::Error> {
        Ok(())
    }

    fn read(&mut self, buffer: &mut [u8], _deadline: &Self::Instant) -> Result<usize, Self::Error> {
        self.reads += 1;
        if self.chunks.is_empty() {
            return Err(std::io::Error::new(std::io::ErrorKind::TimedOut, "no more data"));
        }
        let chunk = self.chunks.remove(0);
        buffer[..chunk.len()].copy_from_slice(&chunk);
        Ok(chunk.len())
    }

    fn write_all(&mut self, _buffer: &[u8]) -> Result<(), Self::Error> {
        Ok(())
    }

    fn make_deadline(&self, _timeout: core::time::Duration) -> Self::Instant {}

    fn is_timeout_error(error: &Self::Error) -> bool {
        error.kind() == std::io::ErrorKind::TimedOut
    }
}

#[test]
fn bus_read_follows_the_received_bytes() {
    let mut corrupt = PING_1.to_vec();
    corrupt[9] = 0x4F;
    // The corrupt message arrives in two pieces, the valid one after some garbage.
    let chunks = vec![corrupt[..4].to_vec(), corrupt[4..].to_vec(), vec![0x01, 0x02], PING_1.to_vec()];
    let port = ChunkPort { chunks, reads: 0 };
    let mut bus = dynamixel2::bus::Bus::with_buffers(port, vec![0; 64], vec![0; 64]).unwrap();

    let result = bus.read_packet_deadline(&());
    assert!(matches!(
        result,
        Err(ReadError::InvalidMessage(InvalidMessage::InvalidChecksum(InvalidChecksum {
            message: 0x4F19,
            computed: 0x4E19,
        })))
    ));
    assert_eq!(bus.serial_port().reads, 2);

    let packet = bus.read_packet_deadline(&()).unwrap();
    assert_eq!(packet.data, &[0xFF, 0xFF, 0xFD, 0x00, 0x01, 0x03, 0x00, 0x01]);
    assert_eq!(bus.serial_port().reads, 4);

    // Nothing more arrives: the read fails with the error of the serial port.
    assert!(matches!(bus.read_packet_deadline(&()), Err(ReadError::Io(_))));
}

/// A fast read response for two motors with two data bytes each, whose blocks each end in the checksum of
/// everything before them.
fn fast_read_response() -> (Vec<u8>, usize) {
    let block_len = 4 + 2;
    let length = (1 + 2 * block_len) as u16;
    let mut response = vec![0xFF, 0xFF, 0xFD, 0x00, 0xFE, length as u8, (length >> 8) as u8, 0x55];
    response.extend_from_slice(&[0x00, 0x01, 0x11, 0x12]);
    let crc = calculate_checksum(0, &response);
    response.extend_from_slice(&crc.to_le_bytes());
    let first_block_end = response.len();
    response.extend_from_slice(&[0x00, 0x02, 0x21, 0x22]);
    let crc = calculate_checksum(0, &response);
    response.extend_from_slice(&crc.to_le_bytes());
    (response, first_block_end)
}

#[test]
fn fast_read_salvages_the_complete_blocks_after_a_timeout() {
    let (response, first_block_end) = fast_read_response();
    // The second motor does not reply: only the first block arrives.
    let port = ChunkPort { chunks: vec![response[..first_block_end].to_vec()], reads: 0 };
    let mut bus = dynamixel2::bus::Bus::with_buffers(port, vec![0; 64], vec![0; 64]).unwrap();
    let packet = bus.read_fast_read_response_deadline(&(), &[2, 2]).unwrap();
    assert_eq!(packet.data, &response[..first_block_end - 2]);
}

#[test]
fn fast_read_reads_a_complete_response_whole() {
    let (response, _) = fast_read_response();
    let port = ChunkPort { chunks: vec![response.clone()], reads: 0 };
    let mut bus = dynamixel2::bus::Bus::with_buffers(port, vec![0; 64], vec![0; 64]).unwrap();
    let packet = bus.read_fast_read_response_deadline(&(), &[2, 2]).unwrap();
    assert_eq!(packet.data, &response[..response.len() - 2]);
}

#[test]
fn fast_read_fails_without_a_complete_block() {
    let (response, first_block_end) = fast_read_response();
    let port = ChunkPort { chunks: vec![response[..first_block_end - 1].to_vec()], reads: 0 };
    let mut bus = dynamixel2::bus::Bus::with_buffers(port, vec![0; 64], vec![0; 64]).unwrap();
    assert!(matches!(bus.read_fast_read_response_deadline(&(), &[2, 2]), Err(ReadError::Io(_))));
    assert_eq!(dynamixel2::bus::bus::salvaged_message_len(first_block_end, &[2, 2]), Some(first_block_end));
    assert_eq!(dynamixel2::bus::bus::salvaged_message_len(first_block_end - 1, &[2, 2]), None);
}
