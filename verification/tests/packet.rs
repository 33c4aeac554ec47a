use dynamixel2::bus::instruction_id;
use dynamixel2::bus::packet::Packet;
use dynamixel2::bus::{InstructionPacket, StatusPacket};

#[test]
fn status_packet() {
    let packet = Packet {
        data: &[0xFF, 0xFF, 0xFD, 0x00, 0x23, 0x04, 0x00, instruction_id::STATUS, 0x89],
    };
    assert!(packet.packet_id() == 0x23);
    assert!(packet.instruction_id() == instruction_id::STATUS);
    let status = packet.as_status();
    assert!(status.is_some());
    let status = status.unwrap();
    assert!(status.packet_id() == 0x23);
    assert!(status.instruction_id() == instruction_id::STATUS);
    assert!(status.error() == 0x89);
    assert!(status.parameters() == &[]);
}

#[test]
fn instruction_packet() {
    let packet = Packet {
        data: &[0xFF, 0xFF, 0xFD, 0x00, 0x23, 0x03, 0x00, instruction_id::WRITE],
    };
    assert!(packet.packet_id() == 0x23);
    assert!(packet.instruction_id() == instruction_id::WRITE);
    let instruction = packet.as_instruction();
    assert!(instruction.packet_id() == 0x23);
    assert!(instruction.instruction_id() == instruction_id::WRITE);
    assert!(instruction.parameters() == &[]);
}

#[test]
fn instruction_packet_is_no_status_packet() {
    let packet = Packet {
        data: &[0xFF, 0xFF, 0xFD, 0x00, 0x23, 0x03, 0x00, instruction_id::WRITE],
    };
    assert!(packet.as_status().is_none());
}

#[test]
fn status_packet_error_bits() {
    let status = StatusPacket {
        packet: Packet {
            data: &[0xFF, 0xFF, 0xFD, 0x00, 0x01, 0x06, 0x00, instruction_id::STATUS, 0x85, 0x10, 0x20],
        },
    };
    assert_eq!(status.error_number(), 0x05);
    assert!(status.alert());
    assert_eq!(status.parameters(), &[0x10, 0x20]);
    assert_eq!(status.error_and_parameters(), &[0x85, 0x10, 0x20]);
    let response = status.as_response();
    assert_eq!(response.motor_id, 1);
    assert!(response.alert);
    assert_eq!(response.data, &[0x10, 0x20]);
    let value = status.try_into_response::<u16>().unwrap();
    assert_eq!(value.data, 0x2010);
    assert!(status.try_into_response::<u32>().is_err());
}

#[test]
fn message_lengths() {
    assert_eq!(InstructionPacket::message_len(0), 10);
    assert_eq!(InstructionPacket::message_len(5), 15);
    assert_eq!(StatusPacket::message_len(0), 11);
    assert_eq!(StatusPacket::message_len(3), 14);
}

#[test]
fn status_packets_decode_into_responses() {
    let status = StatusPacket {
        packet: Packet {
            data: &[0xFF, 0xFF, 0xFD, 0x00, 0x07, 0x06, 0x00, instruction_id::STATUS, 0x00, 0x10, 0x20],
        },
    };
    let value = dynamixel2::bus::data::decode_status_packet::<u16, ()>(status).unwrap();
    assert_eq!((value.motor_id, value.alert, value.data), (7, false, 0x2010));
    let bytes = dynamixel2::bus::data::decode_status_packet_bytes(status).unwrap();
    assert_eq!(bytes.data, vec![0x10, 0x20]);
    let borrowed = dynamixel2::bus::data::decode_status_packet_bytes_borrow(status).unwrap();
    assert_eq!(borrowed.into_owned(), bytes);

    let failed = StatusPacket {
        packet: Packet {
            data: &[0xFF, 0xFF, 0xFD, 0x00, 0x07, 0x04, 0x00, instruction_id::STATUS, 0x03],
        },
    };
    assert!(matches!(
        dynamixel2::bus::data::decode_status_packet::<u16, ()>(failed),
        Err(dynamixel2::ReadError::MotorError(e)) if e.raw == 0x03
    ));
    assert_eq!(dynamixel2::bus::data::decode_status_packet_bytes(failed).unwrap_err().raw, 0x03);
}
