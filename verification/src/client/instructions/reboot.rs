//! The reboot instruction.
use vstd::prelude::*;

use crate::bus::{instruction_id, packet_id};
use crate::client::client::{spec_broadcast_instruction, spec_unit_instruction, Client};
use crate::error::{TransferError, WriteError};
use crate::serial_port::SerialPort;
use crate::Response;

verus! {

impl<Port: SerialPort> Client<Port> {
    /// Send a reboot command to a specific motor.
    ///
    /// Certain error conditions can only be cleared by rebooting a motor.
    /// When a motor reboots, all volatile (non-EEPROM) registers are reset to their initial value.
    /// This also has the effect of disabling motor torque and resetting the multi-revolution information.
    ///
    /// You may specify [`packet_id::BROADCAST`] as motor ID.
    /// If you do, none of the devices will reply with a response, and this function will not wait for any.
    ///
    /// If you want to broadcast this instruction, it may be more convenient to use [`Self::broadcast_reboot()`] instead.
    pub fn reboot(&mut self, motor_id: u8) -> (r: Result<Response<()>, TransferError<Port::Error>>)
        requires
            old(self).wf(),
            motor_id != packet_id::BROADCAST ==> old(self).spec_baud_rate() > 0,
        ensures
            spec_unit_instruction(*old(self), *final(self), motor_id, instruction_id::REBOOT, Seq::empty(), r),
    {
        let parameters: [u8; 0] = [];
        assert(parameters@ =~= Seq::<u8>::empty());
        self.write_and_read_unit(motor_id, instruction_id::REBOOT, parameters.as_slice())
    }

    /// Broadcast a reboot command to all connected motors.
    pub fn broadcast_reboot(&mut self) -> (r: Result<(), WriteError<Port::Error>>)
        requires
            old(self).wf(),
        ensures
            spec_broadcast_instruction(*old(self), *final(self), instruction_id::REBOOT, Seq::empty(), r),
    {
        let parameters: [u8; 0] = [];
        assert(parameters@ =~= Seq::<u8>::empty());
        self.write_packet(packet_id::BROADCAST, instruction_id::REBOOT, parameters.as_slice())
    }
}

} // verus!
