//! [`Client`] is used to communicate with devices on a bus.
use vstd::prelude::*;

mod client;
pub mod instructions;

pub use client::Client;
pub use instructions::bulk_read::BulkReadBytes;
pub use instructions::fast_bulk_read::FastBulkRead;
pub use instructions::fast_sync_read::FastSyncRead;
pub use instructions::ping::Scan;
pub use instructions::sync_read::{SyncRead, SyncReadBytes};

use crate::bus::endian::{read_u16_le, read_u8_le, spec_le_value};
use crate::bus::packet::StatusPacket;
use crate::error::{spec_alert, ExpectedCount, InvalidParameterCount};
use crate::Response;

verus! {

/// Sync data for a specific motor.
///
/// Used by [`Client::sync_write`] and [`Client::sync_write_bytes`]
#[derive(Debug, Clone, Eq, PartialEq)]
pub struct SyncWriteData<T> {
    /// The ID of the motor.
    pub motor_id: u8,
    /// The data to be written to the motor.
    pub data: T,
}

/// Bulk data for a specific motor.
///
/// This struct is similar to [`SyncWriteData`],
/// but it supports reads and writes of different sizes and to different addresses for each motor.
///
/// Used with [`Client::bulk_write`].
#[derive(Debug, Clone, Eq, PartialEq)]
pub struct BulkWriteData<T> {
    /// The ID of the motor.
    pub motor_id: u8,
    /// The address to be written to
    pub address: u16,
    /// The data to be written
    pub data: T,
}

/// Parameters for a bulk read instruction.
///
/// Use with [`Client::bulk_read_bytes`].
#[derive(Debug, Clone, Copy, Eq, PartialEq)]
pub struct BulkReadData {
    /// The ID of the motor.
    pub motor_id: u8,
    /// The address of the data to be read
    pub address: u16,
    /// The length of the data to be read.
    pub count: u16,
}

/// The kind of factory reset to perform.
#[derive(Debug, Copy, Clone, Eq, PartialEq, Ord, PartialOrd, Hash)]
pub enum FactoryResetKind {
    /// Reset all settings, including the motor ID and baud rate.
    ResetAll,
    /// Reset all settings except for the motor ID.
    KeepId,
    /// Reset all settings except for the motor ID and baud rate.
    KeepIdAndBaudRate,
}

impl FactoryResetKind {
    /// The value of the factory reset parameter for this kind.
    pub open spec fn spec_raw(self) -> u8 {
        match self {
            FactoryResetKind::ResetAll => 0xFF,
            FactoryResetKind::KeepId => 0x01,
            FactoryResetKind::KeepIdAndBaudRate => 0x02,
        }
    }

    /// The value of the factory reset parameter for this kind.
    pub fn raw(self) -> (r: u8)
        ensures
            r == self.spec_raw(),
    {
        match self {
            FactoryResetKind::ResetAll => 0xFF,
            FactoryResetKind::KeepId => 0x01,
            FactoryResetKind::KeepIdAndBaudRate => 0x02,
        }
    }
}

/// A response from a motor to a ping instruction.
#[derive(Debug, Clone, Eq, PartialEq)]
pub struct Ping {
    /// The model of the motor.
    ///
    /// Refer to the online manual to find the codes for each model.
    pub model: u16,
    /// The firmware version of the motor.
    pub firmware: u8,
}

/// `response` is the ping reply carried by the status packet `data`: three parameters,
/// the model number (little endian) and the firmware version.
pub open spec fn spec_ping_response(response: Response<Ping>, data: Seq<u8>) -> bool {
    &&& data.len() == 12
    &&& response.motor_id == data[4]
    &&& response.alert == spec_alert(data[8])
    &&& response.data.model == spec_le_value(data.subrange(9, 11))
    &&& response.data.firmware == data[11]
}

impl Response<Ping> {
    /// Convert the status packet of a ping reply into a response.
    ///
    /// The packet must have exactly three parameters.
    pub fn try_from_status(status_packet: StatusPacket<'_>) -> (r: Result<Self, InvalidParameterCount>)
        requires
            status_packet.wf(),
        ensures
            r is Ok <==> status_packet.spec_data().len() == 12,
            r matches Ok(response) ==> spec_ping_response(response, status_packet.spec_data()),
            r matches Err(e) ==> e == (InvalidParameterCount {
                actual: (status_packet.spec_data().len() - 9) as usize,
                expected: ExpectedCount::Exact(3),
            }),
    {
        let parameters = status_packet.parameters();
        InvalidParameterCount::check(parameters.len(), 3)?;
        let model = read_u16_le(vstd::slice::slice_subrange(parameters, 0, 2));
        let firmware = read_u8_le(vstd::slice::slice_subrange(parameters, 2, 3));
        assert(parameters@.subrange(0, 2).take(2) =~= status_packet.spec_data().subrange(9, 11));
        Ok(Self { motor_id: status_packet.packet_id(), alert: status_packet.alert(), data: Ping { model, firmware } })
    }
}

} // verus!
