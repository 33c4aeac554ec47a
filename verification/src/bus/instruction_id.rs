//! Raw instructions IDs.
use vstd::prelude::*;

verus! {

/// Ping a device.
pub const PING: u8 = 0x01;
/// Read from the control table of a device.
pub const READ: u8 = 0x02;
/// Write to the control table of a device.
pub const WRITE: u8 = 0x03;
/// Register a write, to be performed on a later `ACTION`.
pub const REG_WRITE: u8 = 0x04;
/// Perform the registered write.
pub const ACTION: u8 = 0x05;
/// Reset the control table to the factory defaults.
pub const FACTORY_RESET: u8 = 0x06;
/// Reboot a device.
pub const REBOOT: u8 = 0x08;
/// Clear the multi-turn counter or the error state.
pub const CLEAR: u8 = 0x10;
/// Read the same range from multiple devices.
pub const SYNC_READ: u8 = 0x82;
/// Write the same range on multiple devices.
pub const SYNC_WRITE: u8 = 0x83;
/// Read the same range from multiple devices, answered in a single status packet.
pub const FAST_SYNC_READ: u8 = 0x8A;
/// Read different ranges from multiple devices.
pub const BULK_READ: u8 = 0x92;
/// Write different ranges on multiple devices.
pub const BULK_WRITE: u8 = 0x93;
/// Read different ranges from multiple devices, answered in a single status packet.
pub const FAST_BULK_READ: u8 = 0x9A;
/// A status packet: the reply of a device.
pub const STATUS: u8 = 0x55;

} // verus!
