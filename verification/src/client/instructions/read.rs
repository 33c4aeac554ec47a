//! The read instruction: read data from the control table of a single motor.
use vstd::prelude::*;

use crate::bus::data::Data;
use crate::bus::endian::spec_le_bytes;
use crate::bus::frame::spec_frame;
use crate::bus::instruction_id;
use crate::bus::packet::StatusPacket;
use crate::client::client::{spec_data_reply, spec_data_reply_outcome, Client};
use crate::client::instructions::push_u16_le;
use crate::error::{InvalidMessage, InvalidParameterCount, ReadError, TransferError, WriteError};
use crate::response::spec_reply_header;
use crate::serial_port::SerialPort;
use crate::Response;

verus! {

/// The parameters of a read instruction: the address and the number of bytes, both little endian.
pub open spec fn spec_read_parameters(address: u16, count: u16) -> Seq<u8> {
    spec_le_bytes(address as nat, 2) + spec_le_bytes(count as nat, 2)
}

/// The parameters of a read instruction.
pub fn read_parameters(address: u16, count: u16) -> (r: Vec<u8>)
    ensures
        r@ == spec_read_parameters(address, count),
        r@.len() == 4,
{
    let mut parameters = Vec::new();
    push_u16_le(&mut parameters, address);
    push_u16_le(&mut parameters, count);
    parameters
}

impl<Port: SerialPort> Client<Port> {
    /// Send a read instruction and check that the reply carries the requested number of bytes.
    fn read_raw(&mut self, motor_id: u8, address: u16, count: u16) -> (r: Result<StatusPacket<'_>, TransferError<Port::Error>>)
        requires
            old(self).wf(),
            old(self).spec_baud_rate() > 0,
        ensures
            final(self).keeps_config(*old(self)),
            (r matches Err(TransferError::WriteError(WriteError::BufferTooSmall(_)))) <==> spec_frame(
                motor_id,
                instruction_id::READ,
                spec_read_parameters(address, count),
            ).len() > old(self).spec_write_capacity(),
            !(r matches Err(TransferError::WriteError(_))) ==> final(self).spec_sent() == spec_frame(motor_id, instruction_id::READ, spec_read_parameters(address, count)),
            r matches Ok(s) ==> s.wf() && spec_data_reply(s.spec_data(), motor_id, count as nat),
            spec_data_reply_outcome(
                *old(self),
                *final(self),
                motor_id,
                count as nat,
                r,
                (|s: StatusPacket, data: Seq<u8>| s.spec_data() == data),
            ),
    {
        let parameters = read_parameters(address, count);
        let response = match self.transfer_single_bytes(motor_id, instruction_id::READ, parameters.as_slice(), count) {
            Ok(response) => response,
            Err(e) => return Err(e),
        };
        match InvalidParameterCount::check(response.parameters().len(), count as usize) {
            Ok(()) => Ok(response),
            Err(e) => Err(TransferError::ReadError(ReadError::InvalidMessage(InvalidMessage::InvalidParameterCount(e)))),
        }
    }

    /// Read an arbitrary number of bytes from a specific motor.
    ///
    /// This function will not work correctly if the motor ID is set to [`crate::bus::packet_id::BROADCAST`].
    /// Use [`Self::sync_read`] to read from multiple motors with one command.
    pub fn read_bytes(&mut self, motor_id: u8, address: u16, count: u16) -> (r: Result<
        Response<Vec<u8>>,
        TransferError<Port::Error>,
    >)
        requires
            old(self).wf(),
            old(self).spec_baud_rate() > 0,
        ensures
            final(self).keeps_config(*old(self)),
            (r matches Err(TransferError::WriteError(WriteError::BufferTooSmall(_)))) <==> spec_frame(
                motor_id,
                instruction_id::READ,
                spec_read_parameters(address, count),
            ).len() > old(self).spec_write_capacity(),
            !(r matches Err(TransferError::WriteError(_))) ==> final(self).spec_sent() == spec_frame(motor_id, instruction_id::READ, spec_read_parameters(address, count)),
            r matches Ok(response) ==> exists|data: Seq<u8>| #[trigger]
                spec_data_reply(data, motor_id, count as nat) && spec_reply_header(response, data) && response.data@
                    == data.skip(9),
            spec_data_reply_outcome(
                *old(self),
                *final(self),
                motor_id,
                count as nat,
                r,
                (|response: Response<Vec<u8>>, data: Seq<u8>| spec_reply_header(response, data) && response.data@
                    == data.skip(9)),
            ),
    {
        let status = self.read_raw(motor_id, address, count)?;
        let r: Result<Response<Vec<u8>>, TransferError<Port::Error>> = Ok(Response::<Vec<u8>>::from_status_owned(status));
        assert(spec_data_reply(status.spec_data(), motor_id, count as nat) && spec_reply_header(r->Ok_0, status.spec_data()));
        r
    }

    /// Read a value from a specific motor.
    ///
    /// Specify the value type using turbofish: `client.read::<u8>`
    ///
    /// This function will not work correctly if the motor ID is set to [`crate::bus::packet_id::BROADCAST`].
    /// Use [`Self::sync_read`] to read from multiple motors with one command.
    pub fn read<T: Data>(&mut self, motor_id: u8, address: u16) -> (r: Result<Response<T>, TransferError<Port::Error>>)
        requires
            old(self).wf(),
            old(self).spec_baud_rate() > 0,
        ensures
            final(self).keeps_config(*old(self)),
            (r matches Err(TransferError::WriteError(WriteError::BufferTooSmall(_)))) <==> spec_frame(
                motor_id,
                instruction_id::READ,
                spec_read_parameters(address, T::ENCODED_SIZE),
            ).len() > old(self).spec_write_capacity(),
            !(r matches Err(TransferError::WriteError(_))) ==> final(self).spec_sent() == spec_frame(
                motor_id,
                instruction_id::READ,
                spec_read_parameters(address, T::ENCODED_SIZE),
            ),
            r matches Ok(response) ==> exists|data: Seq<u8>| #[trigger]
                spec_data_reply(data, motor_id, T::ENCODED_SIZE as nat) && spec_reply_header(response, data)
                    && response.data == T::spec_decode(data.skip(9)),
            spec_data_reply_outcome(
                *old(self),
                *final(self),
                motor_id,
                T::ENCODED_SIZE as nat,
                r,
                (|response: Response<T>, data: Seq<u8>| spec_reply_header(response, data) && response.data
                    == T::spec_decode(data.skip(9))),
            ),
    {
        let status = self.read_raw(motor_id, address, T::ENCODED_SIZE)?;
        let value = match T::decode(status.parameters()) {
            Ok(value) => value,
            Err(e) => return Err(TransferError::ReadError(ReadError::InvalidMessage(e))),
        };
        let r: Result<Response<T>, TransferError<Port::Error>> = Ok(
            Response { motor_id: status.packet_id(), alert: status.alert(), data: value },
        );
        assert(spec_data_reply(status.spec_data(), motor_id, T::ENCODED_SIZE as nat) && spec_reply_header(
            r->Ok_0,
            status.spec_data(),
        ));
        r
    }
}

} // verus!
