//! The write instruction: write data to the control table of a motor.
use vstd::prelude::*;

use crate::bus::data::Data;
use crate::bus::endian::spec_le_bytes;
use crate::bus::{instruction_id, packet_id};
use crate::client::client::{spec_unit_instruction, Client};
use crate::client::instructions::{push_bytes, push_u16_le, push_value};
use crate::error::TransferError;
use crate::serial_port::SerialPort;
use crate::Response;

verus! {

/// The parameters of a write instruction: the address (little endian) followed by the data.
pub open spec fn spec_write_parameters(address: u16, data: Seq<u8>) -> Seq<u8> {
    spec_le_bytes(address as nat, 2) + data
}

/// The parameters of a write instruction.
pub fn write_parameters(address: u16, data: &[u8]) -> (r: Vec<u8>)
    ensures
        r@ == spec_write_parameters(address, data@),
{
    let mut parameters = Vec::new();
    push_u16_le(&mut parameters, address);
    push_bytes(&mut parameters, data);
    parameters
}

/// The parameters of a write instruction for the encoding of a value.
pub fn write_value_parameters<T: Data>(address: u16, value: &T) -> (r: Vec<u8>)
    ensures
        r@ == spec_write_parameters(address, value.spec_encode()),
        r@.len() == 2 + T::ENCODED_SIZE,
{
    proof {
        T::lemma_decode_encode(*value);
        crate::bus::endian::lemma_le_bytes_len(address as nat, 2);
    }
    let mut parameters = Vec::new();
    push_u16_le(&mut parameters, address);
    push_value(&mut parameters, value);
    parameters
}

impl<Port: SerialPort> Client<Port> {
    /// Write an arbitrary number of bytes to a specific motor.
    ///
    /// You may specify [`packet_id::BROADCAST`] as motor ID.
    /// If you do, none of the devices will reply with a response, and this function will not wait for any.
    pub fn write_bytes(&mut self, motor_id: u8, address: u16, data: &[u8]) -> (r: Result<
        Response<()>,
        TransferError<Port::Error>,
    >)
        requires
            old(self).wf(),
            motor_id != packet_id::BROADCAST ==> old(self).spec_baud_rate() > 0,
            data@.len() <= isize::MAX,
        ensures
            spec_unit_instruction(*old(self), *final(self), motor_id, instruction_id::WRITE, spec_write_parameters(address, data@), r),
    {
        let parameters = write_parameters(address, data);
        proof {
            crate::bus::endian::lemma_le_bytes_len(address as nat, 2);
        }
        self.write_and_read_unit(motor_id, instruction_id::WRITE, parameters.as_slice())
    }

    /// Write a value to a specific motor.
    ///
    /// You may specify [`packet_id::BROADCAST`] as motor ID.
    /// If you do, none of the devices will reply with a response, and this function will not wait for any.
    pub fn write<T: Data>(&mut self, motor_id: u8, address: u16, data: &T) -> (r: Result<Response<()>, TransferError<Port::Error>>)
        requires
            old(self).wf(),
            motor_id != packet_id::BROADCAST ==> old(self).spec_baud_rate() > 0,
        ensures
            spec_unit_instruction(
                *old(self),
                *final(self),
                motor_id,
                instruction_id::WRITE,
                spec_write_parameters(address, data.spec_encode()),
                r,
            ),
    {
        let parameters = write_value_parameters(address, data);
        self.write_and_read_unit(motor_id, instruction_id::WRITE, parameters.as_slice())
    }
}

} // verus!
