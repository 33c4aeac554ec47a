//! The clear instruction: clear the multi-revolution counter or the error state of a motor.
use vstd::prelude::*;

use crate::bus::{instruction_id, packet_id};
use crate::client::client::{spec_broadcast_instruction, spec_unit_instruction, Client};
use crate::error::{TransferError, WriteError};
use crate::serial_port::SerialPort;
use crate::Response;

verus! {

/// The parameters for the CLEAR command to clear the revolution counter.
pub const CLEAR_REVOLUTION_COUNT: [u8; 5] = [0x01, 0x44, 0x58, 0x4C, 0x22];

/// The parameters for the CLEAR command to clear the error state.
///
/// This is only supported on some motors.
pub const CLEAR_ERROR: [u8; 5] = [0x01, 0x45, 0x52, 0x43, 0x4C];

/// The parameters to clear the revolution counter, as a sequence.
pub open spec fn spec_clear_revolution_count() -> Seq<u8> {
    seq![0x01u8, 0x44u8, 0x58u8, 0x4Cu8, 0x22u8]
}

/// The parameters to clear the error state, as a sequence.
pub open spec fn spec_clear_error() -> Seq<u8> {
    seq![0x01u8, 0x45u8, 0x52u8, 0x43u8, 0x4Cu8]
}

impl<Port: SerialPort> Client<Port> {
    /// Clear the multi-revolution counter of a motor.
    ///
    /// This will reset the "present position" register to a value between 0 and a whole revolution.
    /// It is not possible to clear the revolution counter of a motor while it is moving.
    /// Doing so will cause the motor to return an error, and the revolution counter will not be reset.
    ///
    /// You may specify [`packet_id::BROADCAST`] as motor ID.
    /// If you do, none of the devices will reply with a response, and this function will not wait for any.
    ///
    /// If you want to broadcast this instruction, it may be more convenient to use
    /// [`Self::broadcast_clear_revolution_counter()`] instead.
    pub fn clear_revolution_counter(&mut self, motor_id: u8) -> (r: Result<Response<()>, TransferError<Port::Error>>)
        requires
            old(self).wf(),
            motor_id != packet_id::BROADCAST ==> old(self).spec_baud_rate() > 0,
        ensures
            spec_unit_instruction(*old(self), *final(self), motor_id, instruction_id::CLEAR, spec_clear_revolution_count(), r),
    {
        let parameters = CLEAR_REVOLUTION_COUNT;
        assert(parameters@ =~= spec_clear_revolution_count());
        self.write_and_read_unit(motor_id, instruction_id::CLEAR, parameters.as_slice())
    }

    /// Clear the revolution counter of all connected motors.
    ///
    /// This will reset the "present position" register to a value between 0 and a whole revolution.
    /// It is not possible to clear the multi-revolution counter of a motor while it is moving.
    /// Doing so will cause the motor to return an error, and the revolution counter will not be reset.
    pub fn broadcast_clear_revolution_counter(&mut self) -> (r: Result<(), WriteError<Port::Error>>)
        requires
            old(self).wf(),
        ensures
            spec_broadcast_instruction(*old(self), *final(self), instruction_id::CLEAR, spec_clear_revolution_count(), r),
    {
        let parameters = CLEAR_REVOLUTION_COUNT;
        assert(parameters@ =~= spec_clear_revolution_count());
        self.write_packet(packet_id::BROADCAST, instruction_id::CLEAR, parameters.as_slice())
    }

    /// Clear the error of a motor.
    ///
    /// This will reset the "error code" register to 0 if the error can be cleared.
    /// If the error cannot be cleared, the function returns a [`crate::MotorError`] with error code `0x01`.
    ///
    /// This instruction is currently only implemented on the Dynamixel Y series.
    pub fn clear_error(&mut self, motor_id: u8) -> (r: Result<Response<()>, TransferError<Port::Error>>)
        requires
            old(self).wf(),
            motor_id != packet_id::BROADCAST ==> old(self).spec_baud_rate() > 0,
        ensures
            spec_unit_instruction(*old(self), *final(self), motor_id, instruction_id::CLEAR, spec_clear_error(), r),
    {
        let parameters = CLEAR_ERROR;
        assert(parameters@ =~= spec_clear_error());
        self.write_and_read_unit(motor_id, instruction_id::CLEAR, parameters.as_slice())
    }

    /// Try to clear the error of all motors on the bus.
    ///
    /// This will reset the "error code" register to 0 if the error can be cleared
    /// and if the instruction is supported by the motor.
    ///
    /// This instruction is currently only implemented on the Dynamixel Y series.
    pub fn broadcast_clear_error(&mut self) -> (r: Result<(), WriteError<Port::Error>>)
        requires
            old(self).wf(),
        ensures
            spec_broadcast_instruction(*old(self), *final(self), instruction_id::CLEAR, spec_clear_error(), r),
    {
        let parameters = CLEAR_ERROR;
        assert(parameters@ =~= spec_clear_error());
        self.write_packet(packet_id::BROADCAST, instruction_id::CLEAR, parameters.as_slice())
    }
}

} // verus!
