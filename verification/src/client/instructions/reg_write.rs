//! The registered write instruction: write data to the control table of a motor when an action instruction arrives.
use vstd::prelude::*;

use crate::bus::data::Data;
use crate::bus::{instruction_id, packet_id};
use crate::client::client::{spec_unit_instruction, Client};
use crate::client::instructions::write::{spec_write_parameters, write_parameters, write_value_parameters};
use crate::error::TransferError;
use crate::serial_port::SerialPort;
use crate::Response;

verus! {

impl<Port: SerialPort> Client<Port> {
    /// Register a write of an arbitrary number of bytes, to be performed by a specific motor on an action instruction.
    ///
    /// You may specify [`packet_id::BROADCAST`] as motor ID.
    /// If you do, none of the devices will reply with a response, and this function will not wait for any.
    pub fn reg_write_bytes(&mut self, motor_id: u8, address: u16, data: &[u8]) -> (r: Result<
        Response<()>,
        TransferError<Port::Error>,
    >)
        requires
            old(self).wf(),
            motor_id != packet_id::BROADCAST ==> old(self).spec_baud_rate() > 0,
            data@.len() <= isize::MAX,
        ensures
            spec_unit_instruction(*old(self), *final(self), motor_id, instruction_id::REG_WRITE, spec_write_parameters(address, data@), r),
    {
        let parameters = write_parameters(address, data);
        proof {
            crate::bus::endian::lemma_le_bytes_len(address as nat, 2);
        }
        self.write_and_read_unit(motor_id, instruction_id::REG_WRITE, parameters.as_slice())
    }

    /// Register a write of a value, to be performed by a specific motor on an action instruction.
    ///
    /// You may specify [`packet_id::BROADCAST`] as motor ID.
    /// If you do, none of the devices will reply with a response, and this function will not wait for any.
    pub fn reg_write<T: Data>(&mut self, motor_id: u8, address: u16, data: &T) -> (r: Result<Response<()>, TransferError<Port::Error>>)
        requires
            old(self).wf(),
            motor_id != packet_id::BROADCAST ==> old(self).spec_baud_rate() > 0,
        ensures
            spec_unit_instruction(
                *old(self),
                *final(self),
                motor_id,
                instruction_id::REG_WRITE,
                spec_write_parameters(address, data.spec_encode()),
                r,
            ),
    {
        let parameters = write_value_parameters(address, data);
        self.write_and_read_unit(motor_id, instruction_id::REG_WRITE, parameters.as_slice())
    }
}

} // verus!
