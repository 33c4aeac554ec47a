//! Packets in the read buffer of a bus, with byte-stuffing already undone.
use vstd::prelude::*;

use crate::bus::{instruction_id, HEADER_SIZE};
use crate::bus::data::Data;
use crate::error::{
    alert_of, error_number_of, spec_alert, spec_error_number, ExpectedCount, InvalidMessage, InvalidParameterCount,
};
use crate::response::Response;

verus! {

/// A packet (either an instruction packet or a status packet) in the buffer of the client/device
#[derive(Debug, Copy, Clone)]
pub struct Packet<'a> {
    /// Message data (with byte-stuffing already undone).
    ///
    /// Does not include the CRC checksum.
    pub data: &'a [u8],
}

impl<'a> Packet<'a> {
    /// Wrap message data (with byte-stuffing already undone, without the CRC checksum) as a packet.
    pub fn new(data: &'a [u8]) -> (r: Packet<'a>)
        ensures
            r.data@ == data@,
    {
        Packet { data }
    }

    /// The message data of the packet.
    pub open spec fn spec_data(self) -> Seq<u8> {
        self.data@
    }

    /// The packet ID.
    pub fn packet_id(self) -> (r: u8)
        requires
            self.data@.len() > 4,
        ensures
            r == self.data@[4],
    {
        self.data[4]
    }

    /// The instruction ID.
    pub fn instruction_id(self) -> (r: u8)
        requires
            self.data@.len() > 7,
        ensures
            r == self.data@[7],
    {
        self.data[7]
    }

    /// Get the packet as a [`StatusPacket`], if it is one.
    pub fn as_status(self) -> (r: Option<StatusPacket<'a>>)
        requires
            self.data@.len() > 7,
        ensures
            r is Some <==> self.data@[7] == instruction_id::STATUS,
            r matches Some(s) ==> s.packet == self,
    {
        if self.instruction_id() == instruction_id::STATUS {
            Some(StatusPacket { packet: self })
        } else {
            None
        }
    }

    /// Get the packet as a [`InstructionPacket`].
    pub fn as_instruction(self) -> (r: InstructionPacket<'a>)
        ensures
            r.packet == self,
    {
        InstructionPacket { packet: self }
    }
}

/// A [`StatusPacket`] contains an error byte and response parameters to an [`InstructionPacket`]
///
/// Sent by a device to the client.
#[derive(Debug, Copy, Clone)]
pub struct StatusPacket<'a> {
    pub packet: Packet<'a>,
}

impl<'a> StatusPacket<'a> {
    /// The message data of the packet.
    pub open spec fn spec_data(self) -> Seq<u8> {
        self.packet.data@
    }

    /// The status packet has room for its error field.
    pub open spec fn wf(self) -> bool {
        self.packet.data@.len() >= HEADER_SIZE + 2
    }

    /// The error field of the response.
    pub fn error(self) -> (r: u8)
        requires
            self.wf(),
        ensures
            r == self.spec_data()[8],
    {
        self.packet.data[8]
    }

    /// The error number of the status packet.
    ///
    /// This is the lower 7 bits of the error field.
    pub fn error_number(self) -> (r: u8)
        requires
            self.wf(),
        ensures
            r == spec_error_number(self.spec_data()[8]),
    {
        error_number_of(self.error())
    }

    /// The alert bit from the error field of the response.
    ///
    /// This is the 8th bit of the error field.
    ///
    /// If this bit is set, you can normally check the "Hardware Error" register for more details.
    /// Consult the manual of your motor for more information.
    pub fn alert(self) -> (r: bool)
        requires
            self.wf(),
        ensures
            r == spec_alert(self.spec_data()[8]),
    {
        alert_of(self.error())
    }

    /// The packet ID.
    pub fn packet_id(self) -> (r: u8)
        requires
            self.wf(),
        ensures
            r == self.spec_data()[4],
    {
        self.packet.packet_id()
    }

    /// The instruction ID.
    pub fn instruction_id(self) -> (r: u8)
        requires
            self.wf(),
        ensures
            r == self.spec_data()[7],
    {
        self.packet.instruction_id()
    }

    /// The parameters of the packet.
    pub fn parameters(self) -> (r: &'a [u8])
        requires
            self.wf(),
        ensures
            r@ == self.spec_data().skip(HEADER_SIZE as int + 2),
    {
        vstd::slice::slice_subrange(self.packet.data, HEADER_SIZE + 2, self.packet.data.len())
    }

    /// The error field and the parameters of the packet.
    pub fn error_and_parameters(self) -> (r: &'a [u8])
        requires
            self.wf(),
        ensures
            r@ == self.spec_data().skip(HEADER_SIZE as int + 1),
    {
        vstd::slice::slice_subrange(self.packet.data, HEADER_SIZE + 1, self.packet.data.len())
    }

    /// The response that borrows the parameters of the packet.
    pub fn as_response(self) -> (r: Response<&'a [u8]>)
        requires
            self.wf(),
        ensures
            r.motor_id == self.spec_data()[4],
            r.alert == spec_alert(self.spec_data()[8]),
            r.data@ == self.spec_data().skip(HEADER_SIZE as int + 2),
    {
        Response { motor_id: self.packet_id(), alert: self.alert(), data: self.parameters() }
    }

    /// Decode the parameters of the packet as a value of type `T`, without looking at the error field.
    pub fn try_into_response<T: Data>(self) -> (r: Result<Response<T>, InvalidMessage>)
        requires
            self.wf(),
        ensures
            r is Ok <==> self.spec_data().len() == HEADER_SIZE + 2 + T::ENCODED_SIZE,
            r matches Ok(response) ==> response.motor_id == self.spec_data()[4] && response.alert == spec_alert(
                self.spec_data()[8],
            ) && response.data == T::spec_decode(self.spec_data().skip(HEADER_SIZE as int + 2)),
            r matches Err(e) ==> e == InvalidMessage::InvalidParameterCount(
                InvalidParameterCount {
                    actual: (self.spec_data().len() - (HEADER_SIZE + 2)) as usize,
                    expected: ExpectedCount::Exact(T::ENCODED_SIZE as usize),
                },
            ),
    {
        let data = T::decode(self.parameters())?;
        Ok(Response { motor_id: self.packet_id(), alert: self.alert(), data })
    }

    /// Calculate the size of a (unstuffed) status message with the given number of parameters.
    pub fn message_len(parameters: usize) -> (r: usize)
        requires
            parameters + HEADER_SIZE + 4 <= usize::MAX,
        ensures
            r == HEADER_SIZE + 2 + parameters + 2,
    {
        HEADER_SIZE + 2 + parameters + 2
    }
}

/// [`InstructionPacket`] is a packet that contains an instruction and its parameters.
///
/// Sent by a client to a device.
#[derive(Debug, Copy, Clone)]
pub struct InstructionPacket<'a> {
    pub packet: Packet<'a>,
}

impl<'a> InstructionPacket<'a> {
    /// The message data of the packet.
    pub open spec fn spec_data(self) -> Seq<u8> {
        self.packet.data@
    }

    /// The packet ID.
    pub fn packet_id(self) -> (r: u8)
        requires
            self.spec_data().len() > 7,
        ensures
            r == self.spec_data()[4],
    {
        self.packet.packet_id()
    }

    /// The instruction ID.
    pub fn instruction_id(self) -> (r: u8)
        requires
            self.spec_data().len() > 7,
        ensures
            r == self.spec_data()[7],
    {
        self.packet.instruction_id()
    }

    /// The parameters of the packet.
    pub fn parameters(self) -> (r: &'a [u8])
        requires
            self.spec_data().len() > 7,
        ensures
            r@ == self.spec_data().skip(HEADER_SIZE as int + 1),
    {
        vstd::slice::slice_subrange(self.packet.data, HEADER_SIZE + 1, self.packet.data.len())
    }

    /// Calculate the size of a (unstuffed) instruction message with the given number of parameters.
    pub fn message_len(parameters: usize) -> (r: usize)
        requires
            parameters + HEADER_SIZE + 3 <= usize::MAX,
        ensures
            r == HEADER_SIZE + 1 + parameters + 2,
    {
        HEADER_SIZE + 1 + parameters + 2
    }
}

} // verus!
