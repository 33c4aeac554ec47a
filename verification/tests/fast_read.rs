use core::convert::Infallible;

use dynamixel2::client::{BulkReadData, FastBulkRead, FastSyncRead};
use dynamixel2::{InvalidMessage, ReadError, Response};

fn reads() -> [BulkReadData; 2] {
    [
        BulkReadData {
            motor_id: 1,
            address: 0,
            count: 2,
        },
        BulkReadData {
            motor_id: 2,
            address: 0,
            count: 3,
        },
    ]
}

#[test]
fn read_next_borrow_yields_slices() {
    let reads = reads();
    let parameters = [
        0x00, 0x01, 0xAA, 0xBB, 0x11, 0x22, // motor 1: 2 data bytes [0xAA, 0xBB] + skipped CRC.
        0x00, 0x02, 0xCC, 0xDD, 0xEE, // motor 2: 3 data bytes [0xCC, 0xDD, 0xEE], CRC stripped.
    ];
    let mut iter = FastBulkRead::<Infallible>::new(&parameters, &reads);

    let response = iter.read_next_borrow();
    assert!(matches!(response, Some(Ok(_))));
    let response = response.unwrap().unwrap();
    assert!(response.motor_id == 1);
    assert!(response.data == [0xAA, 0xBB].as_slice());

    let response = iter.read_next_borrow();
    assert!(matches!(response, Some(Ok(_))));
    let response = response.unwrap().unwrap();
    assert!(response.motor_id == 2);
    assert!(response.data == [0xCC, 0xDD, 0xEE].as_slice());

    assert!(iter.read_next_borrow().is_none());
}

#[test]
fn parses_variable_length_blocks() {
    let reads = reads();
    // Per-motor block: [error, id, data..., crc, crc]. The final block's CRC is the stripped packet CRC.
    let parameters = [
        0x00, 0x01, 0xAA, 0xBB, 0x11, 0x22, // motor 1: 2 data bytes [0xAA, 0xBB] + skipped CRC.
        0x00, 0x02, 0xCC, 0xDD, 0xEE, // motor 2: 3 data bytes [0xCC, 0xDD, 0xEE], CRC stripped.
    ];
    let mut iter = FastBulkRead::<Infallible>::new(&parameters, &reads);

    let response = iter.read_next();
    assert!(matches!(response, Some(Ok(_))));
    assert!(
        response.unwrap().unwrap()
            == Response {
                motor_id: 1,
                alert: false,
                data: vec![0xAA, 0xBB]
            }
    );

    let response = iter.read_next();
    assert!(matches!(response, Some(Ok(_))));
    assert!(
        response.unwrap().unwrap()
            == Response {
                motor_id: 2,
                alert: false,
                data: vec![0xCC, 0xDD, 0xEE]
            }
    );

    assert!(iter.read_next().is_none());
}

#[test]
fn errors_on_truncated_response() {
    let reads = reads();
    // Two motors expected, but the buffer only holds the first block: the second motor is missing.
    let parameters = [0x00, 0x01, 0xAA, 0xBB];
    let mut iter = FastBulkRead::<Infallible>::new(&parameters, &reads);

    assert!(matches!(iter.read_next(), Some(Ok(_))));
    // The missing motor surfaces as an error rather than a silent end of iteration.
    assert!(matches!(
        iter.read_next(),
        Some(Err(ReadError::InvalidMessage(InvalidMessage::InvalidParameterCount(_))))
    ));
    assert!(iter.read_next().is_none());
}

#[test]
fn parses_each_motor_block() {
    // Two motors, 2 bytes each: [error, id, data_le, crc, crc] per block.
    // The final block's CRC is the packet CRC, which is stripped before parsing, so it is absent here.
    let parameters = [
        0x00, 0x01, 0x34, 0x12, 0xAA, 0xBB, // motor 1: 0x1234, with a (skipped) CRC.
        0x00, 0x02, 0x78, 0x56, // motor 2: 0x5678, CRC stripped as the packet CRC.
    ];
    let mut iter = FastSyncRead::<u16, Infallible>::new(&parameters, 2, 2);

    let response = iter.read_next();
    assert!(matches!(response, Some(Ok(_))));
    assert!(
        response.unwrap().unwrap()
            == Response {
                motor_id: 1,
                alert: false,
                data: 0x1234
            }
    );

    let response = iter.read_next();
    assert!(matches!(response, Some(Ok(_))));
    assert!(
        response.unwrap().unwrap()
            == Response {
                motor_id: 2,
                alert: false,
                data: 0x5678
            }
    );

    assert!(iter.read_next().is_none());
}

#[test]
fn reports_motor_error_and_alert() {
    // Motor 1 reports a hardware error with the alert bit set; motor 2 is fine.
    let parameters = [
        0x81, 0x01, 0x00, 0x00, 0xAA, 0xBB, // error 0x01 + alert bit (0x80).
        0x00, 0x02, 0x07, 0x00,
    ];
    let mut iter = FastSyncRead::<u16, Infallible>::new(&parameters, 2, 2);

    let response = iter.read_next();
    assert!(matches!(response, Some(Err(ReadError::MotorError(_)))));
    if let Some(Err(ReadError::MotorError(error))) = response {
        assert!(error.error_number() == 0x01);
    }

    // Iteration continues with the next motor despite the earlier motor error.
    let response = iter.read_next();
    assert!(matches!(response, Some(Ok(_))));
    assert!(
        response.unwrap().unwrap()
            == Response {
                motor_id: 2,
                alert: false,
                data: 0x0007
            }
    );
}

#[test]
fn fast_sync_read_stops_at_a_short_response() {
    let parameters = [0x00, 0x01, 0x34];
    let mut iter = FastSyncRead::<u16, Infallible>::new(&parameters, 2, 2);
    assert!(iter.read_next().is_none());
}

#[test]
fn fast_bulk_read_remaining_counts_down() {
    let reads = reads();
    let parameters = [0x00, 0x01, 0xAA, 0xBB, 0x11, 0x22, 0x00, 0x02, 0xCC, 0xDD, 0xEE];
    let mut iter = FastBulkRead::<Infallible>::new(&parameters, &reads);
    assert_eq!(iter.remaining(), 2);
    let _ = iter.read_next();
    assert_eq!(iter.remaining(), 1);
    let _ = iter.read_next();
    assert_eq!(iter.remaining(), 0);
}
