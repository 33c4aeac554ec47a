//! The action instruction: trigger a previously registered write.
use vstd::prelude::*;

use crate::bus::{instruction_id, packet_id};
use crate::client::client::{spec_broadcast_instruction, spec_unit_instruction, Client};
use crate::error::{TransferError, WriteError};
use crate::serial_port::SerialPort;
use crate::Response;

verus! {

impl<Port: SerialPort> Client<Port> {
    /// Send an action command to trigger a previously registered instruction.
    ///
    /// You may specify [`packet_id::BROADCAST`] as motor ID.
    /// If you do, none of the devices will reply with a response, and this function will not wait for any.
    ///
    /// If you want to broadcast this instruction, it may be more convenient to use [`Self::broadcast_action()`] instead.
    pub fn action(&mut self, motor_id: u8) -> (r: Result<Response<()>, TransferError<Port::Error>>)
        requires
            old(self).wf(),
            motor_id != packet_id::BROADCAST ==> old(self).spec_baud_rate() > 0,
        ensures
            spec_unit_instruction(*old(self), *final(self), motor_id, instruction_id::ACTION, Seq::empty(), r),
    {
        let parameters: [u8; 0] = [];
        assert(parameters@ =~= Seq::<u8>::empty());
        self.write_and_read_unit(motor_id, instruction_id::ACTION, parameters.as_slice())
    }

    /// Broadcast an action command to all connected motors to trigger a previously registered instruction.
    pub fn broadcast_action(&mut self) -> (r: Result<(), WriteError<Port::Error>>)
        requires
            old(self).wf(),
        ensures
            spec_broadcast_instruction(*old(self), *final(self), instruction_id::ACTION, Seq::empty(), r),
    {
        let parameters: [u8; 0] = [];
        assert(parameters@ =~= Seq::<u8>::empty());
        self.write_packet(packet_id::BROADCAST, instruction_id::ACTION, parameters.as_slice())
    }
}

} // verus!
