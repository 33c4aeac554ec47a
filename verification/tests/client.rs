use core::time::Duration;
use std::io::ErrorKind;

use dynamixel2::bus::{instruction_id, packet_id};
use dynamixel2::checksum::calculate_checksum;
use dynamixel2::client::{BulkReadData, BulkWriteData, FactoryResetKind, Ping, SyncWriteData};
use dynamixel2::{
    BufferTooSmallError, Client, InvalidChecksum, InvalidInstruction, InvalidMessage, InvalidPacketId, ReadError,
    Response, SerialPort, TransferError, WriteError,
};

/// A serial port that delivers queued bytes and records what is written to it.
struct MockPort {
    incoming: Vec<u8>,
    position: usize,
    written: Vec<u8>,
    baud_rate: u32,
    fail_discard: bool,
    fail_write: bool,
}

impl MockPort {
    fn new(incoming: Vec<u8>) -> Self {
        Self {
            incoming,
            position: 0,
            written: Vec::new(),
            baud_rate: 57_600,
            fail_discard: false,
            fail_write: false,
        }
    }
}

impl SerialPort for MockPort {
    type Error = std::io::Error;
    type Instant = std::time::Instant;

    fn baud_rate(&self) -> Result<u32, Self::Error> {
        Ok(self.baud_rate)
    }

    fn set_baud_rate(&mut self, baud_rate: u32) -> Result<(), Self::Error> {
        self.baud_rate = baud_rate;
        Ok(())
    }

    fn discard_input_buffer(&mut self) -> Result<(), Self::Error> {
        if self.fail_discard {
            return Err(std::io::Error::other("discard failed"));
        }
        Ok(())
    }

    fn read(&mut self, buffer: &mut [u8], _deadline: &Self::Instant) -> Result<usize, Self::Error> {
        if self.position >= self.incoming.len() {
            return Err(std::io::Error::new(ErrorKind::TimedOut, "no more data"));
        }
        let n: usize = buffer.len().min(self.incoming.len() - self.position);
        buffer[..n].copy_from_slice(&self.incoming[self.position..self.position + n]);
        self.position += n;
        Ok(n)
    }

    fn write_all(&mut self, buffer: &[u8]) -> Result<(), Self::Error> {
        if self.fail_write {
            return Err(std::io::Error::other("write failed"));
        }
        self.written.extend_from_slice(buffer);
        Ok(())
    }

    fn make_deadline(&self, timeout: Duration) -> Self::Instant {
        std::time::Instant::now() + timeout
    }

    fn is_timeout_error(error: &Self::Error) -> bool {
        error.kind() == ErrorKind::TimedOut
    }
}

/// A message without byte stuffing: the body must not hold `[0xFF, 0xFF, 0xFD]`.
fn message(packet_id: u8, instruction: u8, parameters: &[u8]) -> Vec<u8> {
    let length: u16 = (parameters.len() + 3) as u16;
    let mut data = vec![0xFF, 0xFF, 0xFD, 0x00, packet_id, length as u8, (length >> 8) as u8, instruction];
    data.extend_from_slice(parameters);
    let crc: u16 = calculate_checksum(0, &data);
    data.push(crc as u8);
    data.push((crc >> 8) as u8);
    data
}

fn status(packet_id: u8, error: u8, parameters: &[u8]) -> Vec<u8> {
    let mut body = vec![error];
    body.extend_from_slice(parameters);
    message(packet_id, instruction_id::STATUS, &body)
}

fn client(incoming: Vec<u8>) -> Client<MockPort> {
    Client::new(MockPort::new(incoming)).unwrap()
}

#[test]
fn ping_sends_the_ping_instruction_and_reads_the_model() {
    let mut client = client(status(1, 0, &[0x06, 0x04, 0x26]));
    let response = client.ping(1).unwrap();
    assert_eq!(
        response,
        Response {
            motor_id: 1,
            alert: false,
            data: Ping {
                model: 0x0406,
                firmware: 0x26
            }
        }
    );
    assert_eq!(client.serial_port().written, [0xFF, 0xFF, 0xFD, 0x00, 0x01, 0x03, 0x00, 0x01, 0x19, 0x4E]);
}

#[test]
fn ping_rejects_a_reply_from_another_motor() {
    let mut client = client(status(2, 0, &[0x06, 0x04, 0x26]));
    let result = client.ping(1);
    assert!(matches!(
        result,
        Err(TransferError::ReadError(ReadError::InvalidMessage(InvalidMessage::InvalidPacketId(InvalidPacketId {
            actual: 2,
            expected: Some(1)
        }))))
    ));
}

#[test]
fn ping_rejects_a_reply_with_the_wrong_parameter_count() {
    let mut client = client(status(1, 0, &[0x06, 0x04]));
    let result = client.ping(1);
    assert!(matches!(
        result,
        Err(TransferError::ReadError(ReadError::InvalidMessage(InvalidMessage::InvalidParameterCount(_))))
    ));
}

#[test]
fn read_sends_the_address_and_count() {
    let mut client = client(status(1, 0, &[0x34, 0x12]));
    let response = client.read::<u16>(1, 0x84).unwrap();
    assert_eq!(response.motor_id, 1);
    assert_eq!(response.data, 0x1234);
    assert_eq!(client.serial_port().written, message(1, instruction_id::READ, &[0x84, 0x00, 0x02, 0x00]));
}

#[test]
fn read_of_the_robotis_example_has_its_checksum() {
    let mut client = client(status(1, 0, &[0xA6, 0x00, 0x00, 0x00]));
    let response = client.read_bytes(1, 0x84, 4).unwrap();
    assert_eq!(response.data, vec![0xA6, 0x00, 0x00, 0x00]);
    assert_eq!(
        client.serial_port().written,
        [0xFF, 0xFF, 0xFD, 0x00, 0x01, 0x07, 0x00, 0x02, 0x84, 0x00, 0x04, 0x00, 0x1D, 0x15]
    );
}

#[test]
fn read_rejects_a_short_reply() {
    let mut client = client(status(1, 0, &[0x34]));
    let result = client.read::<u16>(1, 0x84);
    assert!(matches!(
        result,
        Err(TransferError::ReadError(ReadError::InvalidMessage(InvalidMessage::InvalidParameterCount(_))))
    ));
}

#[test]
fn a_motor_error_fails_the_instruction() {
    let mut client = client(status(1, 0x82, &[]));
    let result = client.write_bytes(1, 116, &[1, 2]);
    match result {
        Err(TransferError::ReadError(ReadError::MotorError(e))) => {
            assert_eq!(e.raw, 0x82);
            assert_eq!(e.error_number(), 0x02);
            assert!(e.alert());
        },
        _ => panic!("expected a motor error"),
    }
}

#[test]
fn the_alert_bit_alone_is_no_error() {
    let mut client = client(status(1, 0x80, &[]));
    let response = client.write_bytes(1, 116, &[1, 2]).unwrap();
    assert!(response.alert);
}

#[test]
fn a_corrupt_checksum_is_reported() {
    let mut reply = status(1, 0, &[]);
    let last: usize = reply.len() - 1;
    reply[last] ^= 0x01;
    let mut client = client(reply);
    let result = client.action(1);
    assert!(matches!(
        result,
        Err(TransferError::ReadError(ReadError::InvalidMessage(InvalidMessage::InvalidChecksum(InvalidChecksum {
            ..
        }))))
    ));
}

#[test]
fn a_reply_that_is_no_status_packet_is_reported() {
    let mut client = client(message(1, instruction_id::WRITE, &[0x00]));
    let result = client.reboot(1);
    assert!(matches!(
        result,
        Err(TransferError::ReadError(ReadError::InvalidMessage(InvalidMessage::InvalidInstruction(
            InvalidInstruction {
                actual: instruction_id::WRITE,
                expected: instruction_id::STATUS
            }
        ))))
    ));
}

#[test]
fn a_missing_reply_times_out() {
    let mut client = client(Vec::new());
    match client.action(1) {
        Err(TransferError::ReadError(ReadError::Io(e))) => assert_eq!(e.kind(), ErrorKind::TimedOut),
        _ => panic!("expected a time out"),
    }
}

#[test]
fn broadcast_write_does_not_wait_for_a_reply() {
    let mut client = client(Vec::new());
    let response = client.write_bytes(packet_id::BROADCAST, 116, &[1, 2]).unwrap();
    assert_eq!(
        response,
        Response {
            motor_id: packet_id::BROADCAST,
            alert: false,
            data: ()
        }
    );
    assert_eq!(client.serial_port().written, message(packet_id::BROADCAST, instruction_id::WRITE, &[116, 0, 1, 2]));
}

#[test]
fn write_of_a_value_sends_its_encoding() {
    let mut client = client(status(3, 0, &[]));
    client.write::<u32>(3, 116, &2000).unwrap();
    assert_eq!(client.serial_port().written, message(3, instruction_id::WRITE, &[116, 0, 0xD0, 0x07, 0x00, 0x00]));
}

#[test]
fn reg_write_of_a_value_sends_its_encoding() {
    let mut client = client(status(3, 0, &[]));
    client.reg_write::<u16>(3, 104, &300).unwrap();
    assert_eq!(client.serial_port().written, message(3, instruction_id::REG_WRITE, &[104, 0, 0x2C, 0x01]));
}

#[test]
fn a_message_larger_than_the_write_buffer_is_refused() {
    let port = MockPort::new(Vec::new());
    let mut client = Client::with_buffers(port, vec![0; 128], vec![0; 14]).unwrap();
    let result = client.write_bytes(packet_id::BROADCAST, 116, &[1, 2, 3, 4, 5]);
    match result {
        Err(TransferError::WriteError(WriteError::BufferTooSmall(e))) => {
            assert_eq!(
                e,
                BufferTooSmallError {
                    required_size: 17,
                    total_size: 14
                }
            );
        },
        _ => panic!("expected a buffer that is too small"),
    }
    assert!(client.serial_port().written.is_empty());
}

#[test]
fn stuffing_that_does_not_fit_is_refused() {
    let port = MockPort::new(Vec::new());
    let mut client = Client::with_buffers(port, vec![0; 128], vec![0; 15]).unwrap();
    // The unstuffed message fits exactly, the stuffing byte does not.
    let result = client.write_bytes(packet_id::BROADCAST, 0, &[0xFF, 0xFF, 0xFD]);
    assert!(matches!(
        result,
        Err(TransferError::WriteError(WriteError::BufferTooSmall(BufferTooSmallError {
            required_size: 16,
            total_size: 15
        })))
    ));
}

#[test]
fn stuffing_is_applied_to_the_parameters() {
    let mut client = client(Vec::new());
    client.write_bytes(packet_id::BROADCAST, 0, &[0xFF, 0xFF, 0xFD]).unwrap();
    let written = &client.serial_port().written;
    assert_eq!(&written[..7], &[0xFF, 0xFF, 0xFD, 0x00, packet_id::BROADCAST, 0x09, 0x00]);
    assert_eq!(&written[7..14], &[instruction_id::WRITE, 0x00, 0x00, 0xFF, 0xFF, 0xFD, 0xFD]);
    let crc: u16 = calculate_checksum(0, &written[..14]);
    assert_eq!(&written[14..], &[crc as u8, (crc >> 8) as u8]);
}

#[test]
fn simple_instructions_send_their_parameters() {
    let mut client = client(Vec::new());
    client.broadcast_action().unwrap();
    assert_eq!(client.serial_port().written, message(packet_id::BROADCAST, instruction_id::ACTION, &[]));

    let mut client = self::client(Vec::new());
    client.broadcast_reboot().unwrap();
    assert_eq!(client.serial_port().written, message(packet_id::BROADCAST, instruction_id::REBOOT, &[]));

    let mut client = self::client(Vec::new());
    client.broadcast_clear_revolution_counter().unwrap();
    assert_eq!(
        client.serial_port().written,
        message(packet_id::BROADCAST, instruction_id::CLEAR, &[0x01, 0x44, 0x58, 0x4C, 0x22])
    );

    let mut client = self::client(Vec::new());
    client.broadcast_clear_error().unwrap();
    assert_eq!(
        client.serial_port().written,
        message(packet_id::BROADCAST, instruction_id::CLEAR, &[0x01, 0x45, 0x52, 0x43, 0x4C])
    );

    let mut client = self::client(Vec::new());
    client.broadcast_factory_reset(FactoryResetKind::KeepId).unwrap();
    assert_eq!(client.serial_port().written, message(packet_id::BROADCAST, instruction_id::FACTORY_RESET, &[0x01]));
}

#[test]
fn factory_reset_reads_the_reply() {
    let mut client = client(status(5, 0, &[]));
    let response = client.factory_reset(5, FactoryResetKind::ResetAll).unwrap();
    assert_eq!(response.motor_id, 5);
    assert_eq!(client.serial_port().written, message(5, instruction_id::FACTORY_RESET, &[0xFF]));
}

#[test]
fn sync_write_sends_each_motor_block() {
    let mut client = client(Vec::new());
    let data = [
        SyncWriteData { motor_id: 1, data: 1000u16 },
        SyncWriteData { motor_id: 2, data: 2000u16 },
    ];
    client.sync_write(116, &data).unwrap();
    assert_eq!(
        client.serial_port().written,
        message(
            packet_id::BROADCAST,
            instruction_id::SYNC_WRITE,
            &[116, 0, 2, 0, 1, 0xE8, 0x03, 2, 0xD0, 0x07]
        )
    );
}

#[test]
fn sync_write_bytes_sends_each_motor_block() {
    let mut client = client(Vec::new());
    let data = vec![
        SyncWriteData { motor_id: 1, data: vec![1, 2, 3] },
        SyncWriteData { motor_id: 4, data: vec![4, 5, 6] },
    ];
    assert!(dynamixel2::client::instructions::sync_write::sync_write_counts_match(3, &data));
    assert!(!dynamixel2::client::instructions::sync_write::sync_write_counts_match(2, &data));
    client.sync_write_bytes(10, 3, &data).unwrap();
    assert_eq!(
        client.serial_port().written,
        message(packet_id::BROADCAST, instruction_id::SYNC_WRITE, &[10, 0, 3, 0, 1, 1, 2, 3, 4, 4, 5, 6])
    );
}

#[test]
fn bulk_write_sends_each_motor_block() {
    let mut client = client(Vec::new());
    let writes = vec![
        BulkWriteData {
            motor_id: 1,
            address: 116,
            data: 2000u32.to_le_bytes().to_vec(),
        },
        BulkWriteData {
            motor_id: 2,
            address: 102,
            data: 300u16.to_le_bytes().to_vec(),
        },
    ];
    assert!(dynamixel2::client::instructions::bulk_write::bulk_write_lengths_fit(&writes));
    assert!(dynamixel2::client::instructions::bulk_write::unique_write_motor_ids(&writes));
    client.bulk_write(&writes).unwrap();
    assert_eq!(
        client.serial_port().written,
        message(
            packet_id::BROADCAST,
            instruction_id::BULK_WRITE,
            &[1, 116, 0, 4, 0, 0xD0, 0x07, 0, 0, 2, 102, 0, 2, 0, 0x2C, 0x01]
        )
    );
}

#[test]
fn bulk_write_repeated_motor_id_is_detected() {
    let block = |motor_id: u8| BulkWriteData {
        motor_id,
        address: 116,
        data: vec![1, 2],
    };
    let writes = vec![block(1), block(2), block(1)];
    assert!(!dynamixel2::client::instructions::bulk_write::unique_write_motor_ids(&writes));
    let writes = vec![block(1), block(2), block(3)];
    assert!(dynamixel2::client::instructions::bulk_write::unique_write_motor_ids(&writes));
}

#[test]
fn sync_read_yields_each_reply() {
    let mut replies = status(1, 0, &[0x10, 0x00]);
    replies.extend(status(2, 0, &[0x20, 0x00]));
    let mut client = client(replies);
    let motor_ids = [1, 2];
    {
        let mut reader = client.sync_read::<u16>(&motor_ids, 132).unwrap();
        assert_eq!(reader.remaining(), 2);
        let first = reader.read_next().unwrap().unwrap();
        assert_eq!((first.motor_id, first.data), (1, 0x10));
        let second = reader.read_next().unwrap().unwrap();
        assert_eq!((second.motor_id, second.data), (2, 0x20));
        assert!(reader.read_next().is_none());
        assert_eq!(reader.remaining(), 0);
    }
    assert_eq!(
        client.serial_port().written,
        message(packet_id::BROADCAST, instruction_id::SYNC_READ, &[132, 0, 2, 0, 1, 2])
    );
}

#[test]
fn sync_read_bytes_yields_each_reply() {
    let mut replies = status(1, 0, &[0xAA]);
    replies.extend(status(2, 0, &[0xBB]));
    let mut client = client(replies);
    let motor_ids = [1, 2];
    let mut reader = client.sync_read_bytes(&motor_ids, 10, 1).unwrap();
    let first = reader.read_next().unwrap().unwrap();
    assert_eq!(first.data, vec![0xAA]);
    let second = reader.read_next_borrow().unwrap().unwrap();
    assert_eq!(second.data, &[0xBB]);
    assert!(reader.read_next().is_none());
}

#[test]
fn sync_read_rejects_a_reply_out_of_order() {
    let mut client = client(status(2, 0, &[0xAA]));
    let motor_ids = [1, 2];
    let mut reader = client.sync_read_bytes(&motor_ids, 10, 1).unwrap();
    assert!(matches!(
        reader.read_next(),
        Some(Err(ReadError::InvalidMessage(InvalidMessage::InvalidPacketId(_))))
    ));
}

#[test]
fn bulk_read_yields_each_reply() {
    let mut replies = status(1, 0, &[0xAA, 0xBB]);
    replies.extend(status(2, 0, &[0xCC]));
    let mut client = client(replies);
    let reads = [
        BulkReadData {
            motor_id: 1,
            address: 10,
            count: 2,
        },
        BulkReadData {
            motor_id: 2,
            address: 20,
            count: 1,
        },
    ];
    assert!(dynamixel2::client::instructions::bulk_read::unique_motor_ids(&reads));
    {
        let mut reader = client.bulk_read_bytes(&reads).unwrap();
        let first = reader.read_next().unwrap().unwrap();
        assert_eq!(first.data, vec![0xAA, 0xBB]);
        let second = reader.read_next().unwrap().unwrap();
        assert_eq!(second.data, vec![0xCC]);
        assert!(reader.read_next().is_none());
    }
    assert_eq!(
        client.serial_port().written,
        message(packet_id::BROADCAST, instruction_id::BULK_READ, &[1, 10, 0, 2, 0, 2, 20, 0, 1, 0])
    );
}

#[test]
fn duplicate_motor_ids_are_detected() {
    let reads = [
        BulkReadData {
            motor_id: 1,
            address: 10,
            count: 2,
        },
        BulkReadData {
            motor_id: 1,
            address: 20,
            count: 1,
        },
    ];
    assert!(!dynamixel2::client::instructions::bulk_read::unique_motor_ids(&reads));
}

#[test]
fn scan_yields_each_motor_until_the_timeout() {
    let mut replies = status(1, 0, &[0x06, 0x04, 0x26]);
    replies.extend(status(7, 0, &[0x24, 0x04, 0x2B]));
    let mut client = client(replies);
    {
        let mut scan = client.scan().unwrap();
        let first = scan.scan_next().unwrap().unwrap();
        assert_eq!(first.motor_id, 1);
        assert_eq!(first.data.model, 0x0406);
        let second = scan.scan_next().unwrap().unwrap();
        assert_eq!(second.motor_id, 7);
        assert_eq!(second.data.firmware, 0x2B);
        assert!(scan.scan_next().is_none());
    }
    assert_eq!(client.serial_port().written, message(packet_id::BROADCAST, instruction_id::PING, &[]));
}

#[test]
fn fast_sync_read_splits_the_combined_reply() {
    // Error byte of the first motor is the error field of the status packet.
    let parameters = [0x01, 0x34, 0x12, 0xAA, 0xBB, 0x00, 0x02, 0x78, 0x56];
    let reply = status(packet_id::BROADCAST, 0x00, &parameters);
    let mut client = client(reply);
    let motor_ids = [1, 2];
    let mut reader = client.fast_sync_read::<u16>(&motor_ids, 132).unwrap();
    let first = reader.read_next().unwrap().unwrap();
    assert_eq!((first.motor_id, first.data), (1, 0x1234));
    let second = reader.read_next().unwrap().unwrap();
    assert_eq!((second.motor_id, second.data), (2, 0x5678));
    assert!(reader.read_next().is_none());
}

#[test]
fn fast_bulk_read_splits_the_combined_reply() {
    let parameters = [0x01, 0xAA, 0xBB, 0x11, 0x22, 0x00, 0x02, 0xCC];
    let reply = status(packet_id::BROADCAST, 0x00, &parameters);
    let mut client = client(reply);
    let reads = [
        BulkReadData {
            motor_id: 1,
            address: 10,
            count: 2,
        },
        BulkReadData {
            motor_id: 2,
            address: 20,
            count: 1,
        },
    ];
    assert!(dynamixel2::client::instructions::fast_bulk_read::fast_bulk_response_fits(&reads));
    let mut reader = client.fast_bulk_read_bytes(&reads).unwrap();
    let first = reader.read_next().unwrap().unwrap();
    assert_eq!(first.data, vec![0xAA, 0xBB]);
    let second = reader.read_next().unwrap().unwrap();
    assert_eq!(second.data, vec![0xCC]);
    assert!(reader.read_next().is_none());
}

#[test]
fn set_baud_rate_is_remembered() {
    let mut client = client(Vec::new());
    assert_eq!(client.baud_rate(), 57_600);
    client.set_baud_rate(1_000_000).unwrap();
    assert_eq!(client.baud_rate(), 1_000_000);
    assert_eq!(client.into_serial_port().baud_rate, 1_000_000);
}

#[test]
fn a_new_instruction_discards_buffered_replies() {
    // Two replies arrive in one read; only the first one is used before the next instruction is sent.
    let mut replies = status(9, 0, &[]);
    replies.extend(status(1, 0, &[0x06, 0x04, 0x26]));
    let mut client = client(replies);
    let stale = client.read_status_response_timeout(Duration::from_millis(10)).unwrap();
    assert_eq!(stale.packet_id(), 9);
    match client.ping(1) {
        Err(TransferError::ReadError(ReadError::Io(e))) => assert_eq!(e.kind(), ErrorKind::TimedOut),
        _ => panic!("the buffered reply should have been discarded"),
    }
}

#[test]
fn a_failing_discard_is_reported() {
    let mut port = MockPort::new(Vec::new());
    port.fail_discard = true;
    let mut client = Client::new(port).unwrap();
    assert!(matches!(client.broadcast_action(), Err(WriteError::DiscardBuffer(_))));
}

#[test]
fn a_failing_write_is_reported() {
    let mut port = MockPort::new(Vec::new());
    port.fail_write = true;
    let mut client = Client::new(port).unwrap();
    assert!(matches!(client.ping(1), Err(TransferError::WriteError(WriteError::Write(_)))));
}

#[test]
fn a_read_buffer_too_small_for_any_message_is_reported() {
    let port = MockPort::new(status(1, 0, &[0x06, 0x04, 0x26]));
    let mut client = Client::with_buffers(port, vec![0; 5], vec![0; 128]).unwrap();
    assert!(matches!(
        client.ping(1),
        Err(TransferError::ReadError(ReadError::BufferFull(BufferTooSmallError {
            required_size: 10,
            total_size: 5
        })))
    ));
    let mut scan = client.scan().unwrap();
    assert!(matches!(scan.scan_next(), Some(Err(ReadError::BufferFull(_)))));
}

#[test]
fn write_instruction_sends_the_encoded_parameters() {
    let mut ping = client(Vec::new());
    let mut calls = 0;
    ping
        .write_instruction(1, instruction_id::PING, 0, |buffer: &mut [u8]| {
            calls += 1;
            assert!(buffer.is_empty());
            Ok(())
        })
        .unwrap();
    assert_eq!(calls, 1);
    assert_eq!(ping.serial_port().written, vec![0xFF, 0xFF, 0xFD, 0x00, 0x01, 0x03, 0x00, 0x01, 0x19, 0x4E]);

    let mut other = client(Vec::new());
    other
        .write_instruction(1, instruction_id::WRITE, 3, |buffer: &mut [u8]| {
            assert_eq!(buffer, &[0, 0, 0]);
            buffer.copy_from_slice(&[0x74, 0x00, 0x01]);
            Ok(())
        })
        .unwrap();
    assert_eq!(other.serial_port().written, message(1, instruction_id::WRITE, &[0x74, 0x00, 0x01]));
}

#[test]
fn write_instruction_returns_the_encoder_error() {
    let mut writer = client(Vec::new());
    let error = BufferTooSmallError { required_size: 5, total_size: 3 };
    let result = writer.write_instruction(1, instruction_id::WRITE, 3, |_buffer: &mut [u8]| Err(error));
    assert!(matches!(result, Err(WriteError::BufferTooSmall(e)) if e == error));
    assert!(writer.serial_port().written.is_empty());
}

#[test]
fn sync_read_bytes_remaining_counts_down_to_none() {
    let mut replies = status(1, 0, &[0xA1]);
    replies.extend(status(2, 0, &[0xA2]));
    replies.extend(status(3, 0, &[0xA3]));
    let mut client = client(replies);
    let motor_ids = [1, 2, 3];
    let mut reader = client.sync_read_bytes(&motor_ids, 132, 1).unwrap();
    for k in 0..3 {
        assert_eq!(reader.remaining(), 3 - k);
        let reply = if k % 2 == 0 {
            reader.read_next().unwrap().unwrap().data
        } else {
            reader.read_next_borrow().unwrap().unwrap().data.to_vec()
        };
        assert_eq!(reply, vec![0xA1 + k as u8]);
    }
    assert_eq!(reader.remaining(), 0);
    assert!(reader.read_next().is_none());
    assert!(reader.read_next_borrow().is_none());
}
