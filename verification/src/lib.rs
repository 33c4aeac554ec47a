//! An implementation of the DYNAMIXEL Protocol 2.0.
//!
//! The library gives a low level interface to the protocol: it frames instruction and status packets,
//! applies byte stuffing and the CRC-16 checksum, and decodes the responses of the devices on the bus.
//! The main interface is the [`Client`] struct, which can be used to interact with devices on a serial
//! communication bus, and the [`Device`] struct, which implements the device side of the protocol.
pub mod checksum;
pub mod bus;
pub mod client;
pub use client::Client;
pub mod device;
pub mod motor_id;
pub use device::Device;
mod error;
pub mod time;
mod response;
pub use response::Response;
mod serial_port;
pub use serial_port::SerialPort;
pub use error::{
    BufferTooSmallError, ExpectedCount, InitializeError, InvalidChecksum, InvalidHeaderPrefix, InvalidInstruction,
    InvalidMessage, InvalidPacketId, InvalidParameterCount, MotorError, ReadError, TransferError, WriteError,
};
