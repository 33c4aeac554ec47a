use core::time::Duration;
use std::io::ErrorKind;

use dynamixel2::bus::packet::Packet;
use dynamixel2::bus::{instruction_id, packet_id, InstructionPacket};
use dynamixel2::checksum::calculate_checksum;
use dynamixel2::client::{BulkReadData, FactoryResetKind, SyncWriteData};
use dynamixel2::device::{Clear, FactoryReset, Instruction, Instructions};
use dynamixel2::{Client, Device, ExpectedCount, InvalidParameterCount, SerialPort};

/// A serial port that delivers queued bytes and records what is written to it.
struct MockPort {
    incoming: Vec<u8>,
    position: usize,
    written: Vec<u8>,
}

impl MockPort {
    fn new(incoming: Vec<u8>) -> Self {
        Self {
            incoming,
            position: 0,
            written: Vec::new(),
        }
    }
}

impl SerialPort for MockPort {
    type Error = std::io::Error;
    type Instant = std::time::Instant;

    fn baud_rate(&self) -> Result<u32, Self::Error> {
        Ok(1_000_000)
    }

    fn set_baud_rate(&mut self, _baud_rate: u32) -> Result<(), Self::Error> {
        Ok(())
    }

    fn discard_input_buffer(&mut self) -> Result<(), Self::Error> {
        Ok(())
    }

    fn read(&mut self, buffer: &mut [u8], _deadline: &Self::Instant) -> Result<usize, Self::Error> {
        if self.position >= self.incoming.len() {
            return Err(std::io::Error::new(ErrorKind::TimedOut, "no more data"));
        }
        let n: usize = buffer.len().min(self.incoming.len() - self.position);
        buffer[..n].copy_from_slice(&self.incoming[self.position..self.position + n]);
        self.position += n;
        Ok(n)
    }

    fn write_all(&mut self, buffer: &[u8]) -> Result<(), Self::Error> {
        self.written.extend_from_slice(buffer);
        Ok(())
    }

    fn make_deadline(&self, timeout: Duration) -> Self::Instant {
        std::time::Instant::now() + timeout
    }

    fn is_timeout_error(error: &Self::Error) -> bool {
        error.kind() == ErrorKind::TimedOut
    }
}

/// The bytes that a client writes for an instruction, taken from a client on a mock port.
fn sent_by_client(send: impl FnOnce(&mut Client<MockPort>)) -> Vec<u8> {
    let mut client = Client::new(MockPort::new(Vec::new())).unwrap();
    send(&mut client);
    client.into_serial_port().written
}

fn device(incoming: Vec<u8>) -> Device<MockPort> {
    Device::new(MockPort::new(incoming)).unwrap()
}

fn parse(data: &[u8]) -> Result<Instruction<&[u8]>, InvalidParameterCount> {
    Instruction::<&[u8]>::try_from_packet(InstructionPacket { packet: Packet { data } })
}

#[test]
fn a_device_reads_back_a_write_of_a_client() {
    let sent = sent_by_client(|client| {
        client.write_bytes(packet_id::BROADCAST, 116, &[0xFF, 0xFF, 0xFD, 0x07]).unwrap();
    });
    let mut device = device(sent);
    let instruction = device.read(Duration::from_millis(10)).unwrap();
    assert_eq!(instruction.id, packet_id::BROADCAST);
    match instruction.instruction {
        Instructions::Write { address, parameters } => {
            assert_eq!(address, 116);
            assert_eq!(parameters, &[0xFF, 0xFF, 0xFD, 0x07]);
        },
        other => panic!("unexpected instruction {other:?}"),
    }
}

#[test]
fn a_device_reads_back_a_sync_write_of_a_client() {
    let sent = sent_by_client(|client| {
        let data = [SyncWriteData { motor_id: 1, data: 7u8 }, SyncWriteData { motor_id: 2, data: 9u8 }];
        client.sync_write(64, &data).unwrap();
    });
    let mut device = device(sent);
    let instruction = device.read_owned(Duration::from_millis(10)).unwrap();
    match instruction.instruction {
        Instructions::SyncWrite { address, length, parameters } => {
            assert_eq!((address, length), (64, 1));
            assert_eq!(parameters, vec![1, 7, 2, 9]);
        },
        other => panic!("unexpected instruction {other:?}"),
    }
}

#[test]
fn a_device_reads_back_a_bulk_read_of_a_client() {
    let sent = sent_by_client(|client| {
        let reads = [BulkReadData {
            motor_id: 3,
            address: 132,
            count: 4,
        }];
        let _ = client.bulk_read_bytes(&reads).unwrap();
    });
    let mut device = device(sent);
    let instruction = device.read(Duration::from_millis(10)).unwrap();
    match instruction.instruction {
        Instructions::BulkRead { parameters } => assert_eq!(parameters, &[3, 132, 0, 4, 0]),
        other => panic!("unexpected instruction {other:?}"),
    }
}

#[test]
fn a_device_reads_back_a_factory_reset_of_a_client() {
    let sent = sent_by_client(|client| {
        client.broadcast_factory_reset(FactoryResetKind::KeepIdAndBaudRate).unwrap();
    });
    let mut device = device(sent);
    let instruction = device.read(Duration::from_millis(10)).unwrap();
    assert!(matches!(instruction.instruction, Instructions::FactoryReset(FactoryReset::ExceptIdBaudRate)));
}

#[test]
fn a_client_reads_back_a_status_of_a_device() {
    let mut device = device(Vec::new());
    device.write_status_ok(4).unwrap();
    device.write_status_error(4, 0x81).unwrap();
    let written = device.into_serial_port().written;
    let mut client = Client::new(MockPort::new(written)).unwrap();
    let first = client.read_status_response_timeout(Duration::from_millis(10)).unwrap();
    assert_eq!(first.packet_id(), 4);
    assert_eq!(first.error(), 0);
    let second = client.read_status_response_timeout(Duration::from_millis(10));
    assert!(matches!(second, Err(dynamixel2::ReadError::MotorError(e)) if e.raw == 0x81));
}

#[test]
fn write_status_ok_sends_an_empty_status() {
    let mut device = device(Vec::new());
    device.write_status_ok(1).unwrap();
    let mut expected = vec![0xFF, 0xFF, 0xFD, 0x00, 0x01, 0x04, 0x00, instruction_id::STATUS, 0x00];
    let crc: u16 = calculate_checksum(0, &expected);
    expected.push(crc as u8);
    expected.push((crc >> 8) as u8);
    assert_eq!(device.into_serial_port().written, expected);
}

#[test]
fn write_status_encodes_the_parameters() {
    let mut device = device(Vec::new());
    device
        .write_status(2, 0, 2, |buffer| {
            buffer[0] = 0xAB;
            buffer[1] = 0xCD;
            Ok(())
        })
        .unwrap();
    let written = device.into_serial_port().written;
    assert_eq!(&written[..11], &[0xFF, 0xFF, 0xFD, 0x00, 0x02, 0x06, 0x00, instruction_id::STATUS, 0x00, 0xAB, 0xCD]);
}

#[test]
fn a_device_times_out_without_instructions() {
    let mut device = device(Vec::new());
    assert!(matches!(device.read(Duration::from_millis(1)), Err(dynamixel2::ReadError::Io(_))));
}

#[test]
fn parse_each_instruction() {
    let header = [0xFF, 0xFF, 0xFD, 0x00, 0x05, 0x00, 0x00];
    let with = |instruction: u8, parameters: &[u8]| -> Vec<u8> {
        let mut data = header.to_vec();
        data.push(instruction);
        data.extend_from_slice(parameters);
        data
    };

    assert!(matches!(parse(&with(instruction_id::PING, &[])).unwrap().instruction, Instructions::Ping));
    assert!(matches!(
        parse(&with(instruction_id::READ, &[0x84, 0x00, 0x04, 0x00])).unwrap().instruction,
        Instructions::Read { address: 0x84, length: 4 }
    ));
    assert!(matches!(parse(&with(instruction_id::ACTION, &[])).unwrap().instruction, Instructions::Action));
    assert!(matches!(parse(&with(instruction_id::REBOOT, &[])).unwrap().instruction, Instructions::Reboot));
    assert!(matches!(
        parse(&with(instruction_id::FACTORY_RESET, &[0xFF])).unwrap().instruction,
        Instructions::FactoryReset(FactoryReset::All)
    ));
    assert!(matches!(
        parse(&with(instruction_id::FACTORY_RESET, &[0x07])).unwrap().instruction,
        Instructions::FactoryReset(FactoryReset::Unknown(0x07))
    ));
    assert!(matches!(
        parse(&with(instruction_id::CLEAR, &[0x01, 0x44, 0x58, 0x4C, 0x22])).unwrap().instruction,
        Instructions::Clear(Clear::MultiTurns)
    ));
    assert!(matches!(
        parse(&with(instruction_id::CLEAR, &[0x02])).unwrap().instruction,
        Instructions::Clear(Clear::Errors)
    ));
    assert!(matches!(
        parse(&with(instruction_id::CLEAR, &[0x09])).unwrap().instruction,
        Instructions::Clear(Clear::Reserved(0x09))
    ));
    match parse(&with(instruction_id::SYNC_READ, &[0x84, 0x00, 0x04, 0x00, 1, 2])).unwrap().instruction {
        Instructions::SyncRead { address, length, ids } => {
            assert_eq!((address, length), (0x84, 4));
            assert_eq!(ids, &[1, 2]);
        },
        other => panic!("unexpected instruction {other:?}"),
    }
    match parse(&with(instruction_id::REG_WRITE, &[0x10, 0x00, 9])).unwrap().instruction {
        Instructions::RegWrite { address, parameters } => {
            assert_eq!(address, 0x10);
            assert_eq!(parameters, &[9]);
        },
        other => panic!("unexpected instruction {other:?}"),
    }
    match parse(&with(instruction_id::BULK_WRITE, &[1, 2, 3])).unwrap().instruction {
        Instructions::BulkWrite { parameters } => assert_eq!(parameters, &[1, 2, 3]),
        other => panic!("unexpected instruction {other:?}"),
    }
    match parse(&with(instruction_id::STATUS, &[0x80, 7])).unwrap().instruction {
        Instructions::StatusPacket { error, parameters } => {
            assert_eq!(error, 0x80);
            assert_eq!(parameters, &[7]);
        },
        other => panic!("unexpected instruction {other:?}"),
    }
    match parse(&with(0x42, &[7])).unwrap().instruction {
        Instructions::Unknown { instruction, parameters } => {
            assert_eq!(instruction, 0x42);
            assert_eq!(parameters, &[7]);
        },
        other => panic!("unexpected instruction {other:?}"),
    }
}

#[test]
fn parse_rejects_wrong_parameter_counts() {
    let with = |instruction: u8, parameters: &[u8]| -> Vec<u8> {
        let mut data = vec![0xFF, 0xFF, 0xFD, 0x00, 0x05, 0x00, 0x00, instruction];
        data.extend_from_slice(parameters);
        data
    };
    assert_eq!(
        parse(&with(instruction_id::READ, &[1, 2, 3])).unwrap_err(),
        InvalidParameterCount {
            actual: 3,
            expected: ExpectedCount::Exact(4)
        }
    );
    assert_eq!(
        parse(&with(instruction_id::WRITE, &[1])).unwrap_err(),
        InvalidParameterCount {
            actual: 1,
            expected: ExpectedCount::Min(2)
        }
    );
    assert_eq!(
        parse(&with(instruction_id::FACTORY_RESET, &[])).unwrap_err(),
        InvalidParameterCount {
            actual: 0,
            expected: ExpectedCount::Exact(1)
        }
    );
    assert_eq!(
        parse(&with(instruction_id::SYNC_WRITE, &[1, 2, 3])).unwrap_err(),
        InvalidParameterCount {
            actual: 3,
            expected: ExpectedCount::Min(4)
        }
    );
    assert_eq!(
        parse(&with(instruction_id::STATUS, &[])).unwrap_err(),
        InvalidParameterCount {
            actual: 0,
            expected: ExpectedCount::Min(1)
        }
    );
}

#[test]
fn owned_instructions_copy_the_parameters() {
    let data = [0xFF, 0xFF, 0xFD, 0x00, 0x05, 0x00, 0x00, instruction_id::BULK_WRITE, 1, 2];
    let instruction = Instruction::<Vec<u8>>::try_from_packet(InstructionPacket { packet: Packet { data: &data } }).unwrap();
    assert_eq!(instruction.id, 5);
    match instruction.instruction {
        Instructions::BulkWrite { parameters } => assert_eq!(parameters, vec![1, 2]),
        other => panic!("unexpected instruction {other:?}"),
    }
}

#[test]
fn a_device_skips_garbage_and_reports_a_bad_instruction_before_the_next() {
    // A factory reset instruction carries exactly one parameter.
    let mut bad = vec![0xFF, 0xFF, 0xFD, 0x00, 0x03, 0x05, 0x00, instruction_id::FACTORY_RESET, 0x01, 0x02];
    let crc = calculate_checksum(0, &bad);
    bad.extend_from_slice(&crc.to_le_bytes());
    let mut incoming = vec![0x13, 0x37];
    incoming.extend_from_slice(&bad);
    incoming.extend(sent_by_client(|client| {
        client.ping(2).ok();
    }));
    let mut device = device(incoming);
    assert!(matches!(
        device.read(Duration::from_millis(10)),
        Err(dynamixel2::ReadError::InvalidMessage(dynamixel2::InvalidMessage::InvalidParameterCount(
            InvalidParameterCount { actual: 2, expected: ExpectedCount::Exact(1) }
        )))
    ));
    let instruction = device.read(Duration::from_millis(10)).unwrap();
    assert_eq!(instruction.id, 2);
    assert!(matches!(instruction.instruction, Instructions::Ping));
}

#[test]
fn a_device_with_a_known_baud_rate_keeps_it() {
    let mut device = Device::with_buffers_and_baud_rate(MockPort::new(Vec::new()), vec![0; 32], vec![0; 32], 57_600);
    assert_eq!(device.baud_rate(), 57_600);
    device.set_baud_rate(115_200).unwrap();
    assert_eq!(device.baud_rate(), 115_200);
}
