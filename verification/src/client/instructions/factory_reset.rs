//! The factory reset instruction: reset the settings of a motor to the factory defaults.
use vstd::prelude::*;

use crate::bus::frame::spec_frame;
use crate::bus::{instruction_id, packet_id};
use crate::client::client::{spec_broadcast_instruction, spec_data_reply_outcome, Client};
use crate::client::FactoryResetKind;
use crate::error::{InvalidMessage, ReadError, TransferError, WriteError};
use crate::response::spec_unit_response;
use crate::serial_port::SerialPort;
use crate::Response;

verus! {

impl<Port: SerialPort> Client<Port> {
    /// Reset the settings of a motor to the factory defaults.
    ///
    /// This will reset all registers to the factory default, including the EEPROM registers.
    /// The only exceptions are the ID and baud rate settings, which may be kept depending on the `kind` argument.
    ///
    /// The `motor_id` parameter must not be set to [`packet_id::BROADCAST`],
    /// Instead use [`Self::broadcast_factory_reset`].
    ///
    /// Starting with version 42 of the firmware for the MX-series and X-series,
    /// motors ignore a broadcast reset command with `FactoryResetKind::ResetAll`.
    /// Motors with older firmware may still execute the command,
    /// which would cause multiple motors on the bus to have the same ID.
    /// At that point, communication with those motors is not possible anymore.
    /// The only way to restore communication is to physically disconnect all but one motor at a time and re-assign unique IDs.
    /// Or use the ID Inspection Tool in the Dynamixel Wizard 2.0
    pub fn factory_reset(&mut self, motor_id: u8, kind: FactoryResetKind) -> (r: Result<
        Response<()>,
        TransferError<Port::Error>,
    >)
        requires
            old(self).wf(),
            old(self).spec_baud_rate() > 0,
        ensures
            final(self).keeps_config(*old(self)),
            (r matches Err(TransferError::WriteError(WriteError::BufferTooSmall(_)))) <==> spec_frame(
                motor_id,
                instruction_id::FACTORY_RESET,
                seq![kind.spec_raw()],
            ).len() > old(self).spec_write_capacity(),
            !(r matches Err(TransferError::WriteError(_))) ==> final(self).spec_sent() == spec_frame(motor_id, instruction_id::FACTORY_RESET, seq![kind.spec_raw()]),
            r matches Ok(response) ==> response.motor_id == motor_id && exists|data: Seq<u8>| #[trigger]
                spec_unit_response(response, data),
            spec_data_reply_outcome(
                *old(self),
                *final(self),
                motor_id,
                0,
                r,
                (|response: Response<()>, data: Seq<u8>| spec_unit_response(response, data)),
            ),
    {
        let parameters = [kind.raw()];
        assert(parameters@ =~= seq![kind.spec_raw()]);
        let status = match self.transfer_single_bytes(motor_id, instruction_id::FACTORY_RESET, parameters.as_slice(), 0) {
            Ok(status) => status,
            Err(e) => return Err(e),
        };
        let response = match Response::<()>::try_from_status(status) {
            Ok(response) => response,
            Err(e) => return Err(TransferError::ReadError(ReadError::InvalidMessage(InvalidMessage::InvalidParameterCount(e)))),
        };
        let r: Result<Response<()>, TransferError<Port::Error>> = Ok(response);
        assert(spec_unit_response(r->Ok_0, status.spec_data()));
        r
    }

    /// Reset the settings of all connected motors to the factory defaults.
    ///
    /// This will reset all registers to the factory default, including the EEPROM registers.
    /// The only exceptions are the ID and baud rate settings, which may be kept depending on the `kind` argument.
    ///
    /// Starting with version 42 of the firmware for the MX-series and X-series,
    /// motors ignore a broadcast reset command with `FactoryResetKind::ResetAll`.
    /// Motors with older firmware may still execute the command,
    /// which would cause multiple motors on the bus to have the same ID.
    /// At that point, communication with those motors is not possible anymore.
    /// The only way to restore communication is to physically disconnect all but one motor at a time and re-assign unique IDs.
    pub fn broadcast_factory_reset(&mut self, kind: FactoryResetKind) -> (r: Result<(), WriteError<Port::Error>>)
        requires
            old(self).wf(),
        ensures
            spec_broadcast_instruction(*old(self), *final(self), instruction_id::FACTORY_RESET, seq![kind.spec_raw()], r),
    {
        let parameters = [kind.raw()];
        assert(parameters@ =~= seq![kind.spec_raw()]);
        self.write_packet(packet_id::BROADCAST, instruction_id::FACTORY_RESET, parameters.as_slice())
    }
}

} // verus!
