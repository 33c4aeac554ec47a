use dynamixel2::bus::data::Data;
use dynamixel2::bus::{message_transfer_time, packet_id};
use dynamixel2::motor_id::{parse_u8, MotorId};
use dynamixel2::{
    BufferTooSmallError, ExpectedCount, InvalidHeaderPrefix, InvalidInstruction, InvalidPacketId, InvalidParameterCount,
    MotorError,
};

fn roundtrip<T: Data + PartialEq + core::fmt::Debug>(value: T) {
    let mut buffer = vec![0u8; T::ENCODED_SIZE as usize];
    value.encode(&mut buffer).unwrap();
    assert_eq!(T::decode(&buffer).unwrap(), value);
}

#[test]
fn values_decode_to_what_was_encoded() {
    roundtrip(0xABu8);
    roundtrip(0xABCDu16);
    roundtrip(0x89AB_CDEFu32);
    roundtrip(0x0123_4567_89AB_CDEFu64);
    roundtrip(u128::MAX - 5);
    roundtrip(-5i8);
    roundtrip(-1234i16);
    roundtrip(i32::MIN);
    roundtrip(-1i64);
    roundtrip(i128::MIN + 7);
}

#[test]
fn values_are_encoded_little_endian() {
    let mut buffer = [0u8; 5];
    0x12345678u32.encode(&mut buffer).unwrap();
    assert_eq!(buffer, [0x78, 0x56, 0x34, 0x12, 0x00]);
    let mut buffer = [0u8; 2];
    (-2i16).encode(&mut buffer).unwrap();
    assert_eq!(buffer, [0xFE, 0xFF]);
}

#[test]
fn encoding_needs_room() {
    let mut buffer = [0u8; 3];
    assert_eq!(
        0x12345678u32.encode(&mut buffer),
        Err(BufferTooSmallError {
            required_size: 4,
            total_size: 3
        })
    );
    assert_eq!(buffer, [0, 0, 0]);
}

#[test]
fn decoding_needs_the_exact_size() {
    let result = u16::decode(&[1, 2, 3]);
    assert!(matches!(
        result,
        Err(dynamixel2::InvalidMessage::InvalidParameterCount(InvalidParameterCount {
            actual: 3,
            expected: ExpectedCount::Exact(2)
        }))
    ));
}

#[test]
fn motor_ids_parse_numbers_and_broadcast() {
    assert_eq!(MotorId::parse(b"broadcast"), Some(MotorId::Broadcast));
    assert_eq!(MotorId::parse(b"BroadCast"), Some(MotorId::Broadcast));
    assert_eq!(MotorId::parse(b"7"), Some(MotorId::Id(7)));
    assert_eq!(MotorId::parse(b"+07"), Some(MotorId::Id(7)));
    assert_eq!(MotorId::parse(b"254"), Some(MotorId::Broadcast));
    assert_eq!(MotorId::parse(b"255"), Some(MotorId::Id(255)));
    assert_eq!(MotorId::parse(b"256"), None);
    assert_eq!(MotorId::parse(b""), None);
    assert_eq!(MotorId::parse(b"+"), None);
    assert_eq!(MotorId::parse(b"-1"), None);
    assert_eq!(MotorId::parse(b"1x"), None);
    assert_eq!(MotorId::parse(b"broadcasts"), None);
    assert_eq!("12".parse::<MotorId>(), Ok(MotorId::Id(12)));
    assert!("twelve".parse::<MotorId>().is_err());
}

#[test]
fn parse_u8_agrees_with_std() {
    for text in ["0", "9", "10", "99", "199", "255", "256", "1000", "+3", "++3", "", "00000000000000000042", "4 "] {
        assert_eq!(parse_u8(text.as_bytes()), text.parse::<u8>().ok(), "{text}");
    }
}

#[test]
fn motor_ids_give_their_raw_value() {
    assert_eq!(MotorId::Id(3).raw(), 3);
    assert_eq!(MotorId::Broadcast.raw(), packet_id::BROADCAST);
    assert_eq!(MotorId::Id(3).assume_unicast(), Ok(3));
    assert_eq!(MotorId::Broadcast.assume_unicast(), Err(()));
}

#[test]
fn checks_report_the_values() {
    assert_eq!(BufferTooSmallError::check(4, 4), Ok(()));
    assert_eq!(
        BufferTooSmallError::check(5, 4),
        Err(BufferTooSmallError {
            required_size: 5,
            total_size: 4
        })
    );
    assert_eq!(
        InvalidPacketId::check(2, 1),
        Err(InvalidPacketId {
            actual: 2,
            expected: Some(1)
        })
    );
    assert_eq!(InvalidPacketId::check_ignore_broadcast(2, packet_id::BROADCAST), Ok(()));
    assert_eq!(
        InvalidInstruction::check(3, 0x55),
        Err(InvalidInstruction {
            actual: 3,
            expected: 0x55
        })
    );
    assert_eq!(InvalidParameterCount::check_max(3, 2).unwrap_err().expected, ExpectedCount::Max(2));
    assert_eq!(InvalidParameterCount::check_min(1, 2).unwrap_err().expected, ExpectedCount::Min(2));
    assert!(InvalidHeaderPrefix::check(&[0xFF, 0xFF, 0xFD, 0x00], [0xFF, 0xFF, 0xFD, 0x00]).is_ok());
    assert_eq!(
        InvalidHeaderPrefix::check(&[0xFF, 0x00, 0xFD, 0x00], [0xFF, 0xFF, 0xFD, 0x00]),
        Err(InvalidHeaderPrefix {
            actual: [0xFF, 0x00, 0xFD, 0x00],
            expected: [0xFF, 0xFF, 0xFD, 0x00]
        })
    );
}

#[test]
fn motor_errors_ignore_the_alert_bit() {
    assert!(MotorError::check(0x80).is_ok());
    assert_eq!(MotorError::check(0x81), Err(MotorError { raw: 0x81 }));
    let error = MotorError { raw: 0x85 };
    assert_eq!(error.error_number(), 5);
    assert!(error.alert());
}

#[test]
fn transfer_time_rounds_up() {
    assert_eq!(message_transfer_time(1, 3), core::time::Duration::from_nanos(3_333_333_334));
    assert_eq!(message_transfer_time(0, 57_600), core::time::Duration::from_nanos(0));
}
