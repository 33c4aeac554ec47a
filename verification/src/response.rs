//! Responses from motors.
use vstd::prelude::*;

use crate::bus::bus::spec_status_ok;
use crate::bus::packet::StatusPacket;
use crate::error::{spec_alert, ExpectedCount, InvalidParameterCount};

verus! {

/// A response from a motor.
///
/// Note that the `Eq` and `PartialEq` compare all fields of the struct,
/// including the `motor_id` and `alert`.
#[derive(Debug, Clone, Eq, PartialEq)]
pub struct Response<T> {
    /// The motor that sent the response.
    pub motor_id: u8,

    /// The alert bit from the response message.
    ///
    /// If this bit is set, you can normally check the "Hardware Error" register for more details.
    /// Consult the manual of your motor for more information.
    pub alert: bool,

    /// The data from the motor.
    pub data: T,
}

/// The motor ID and the alert bit of `response` are those of the status packet `data`.
pub open spec fn spec_reply_header<T>(response: Response<T>, data: Seq<u8>) -> bool {
    &&& response.motor_id == data[4]
    &&& response.alert == spec_alert(data[8])
}

/// `response` is the empty response carried by the status packet `data`.
pub open spec fn spec_unit_response(response: Response<()>, data: Seq<u8>) -> bool {
    &&& spec_status_ok(data)
    &&& data.len() == 9
    &&& response.motor_id == data[4]
    &&& response.alert == spec_alert(data[8])
}

impl Response<()> {
    /// Convert a status packet without parameters into an empty response.
    pub fn try_from_status(status_packet: StatusPacket<'_>) -> (r: Result<Self, InvalidParameterCount>)
        requires
            status_packet.wf(),
        ensures
            r is Ok <==> status_packet.spec_data().len() == 9,
            r matches Ok(response) ==> response.motor_id == status_packet.spec_data()[4] && response.alert == spec_alert(
                status_packet.spec_data()[8],
            ),
            r matches Err(e) ==> e == (InvalidParameterCount {
                actual: (status_packet.spec_data().len() - 9) as usize,
                expected: ExpectedCount::Exact(0),
            }),
    {
        InvalidParameterCount::check(status_packet.parameters().len(), 0)?;
        Ok(Self { motor_id: status_packet.packet_id(), alert: status_packet.alert(), data: () })
    }
}

impl<'a> Response<&'a [u8]> {
    /// Convert a status packet into a response that borrows the parameters of the packet.
    pub fn from_status(status_packet: StatusPacket<'a>) -> (r: Self)
        requires
            status_packet.wf(),
        ensures
            r.motor_id == status_packet.spec_data()[4],
            r.alert == spec_alert(status_packet.spec_data()[8]),
            r.data@ == status_packet.spec_data().skip(9),
    {
        Self { motor_id: status_packet.packet_id(), alert: status_packet.alert(), data: status_packet.parameters() }
    }

    /// Copy the borrowed data of the response into an owned response.
    pub fn into_owned(self) -> (r: Response<Vec<u8>>)
        ensures
            r.motor_id == self.motor_id,
            r.alert == self.alert,
            r.data@ == self.data@,
    {
        Response { motor_id: self.motor_id, alert: self.alert, data: vstd::slice::slice_to_vec(self.data) }
    }
}

impl Response<Vec<u8>> {
    /// Convert a status packet into a response that owns a copy of the parameters of the packet.
    pub fn from_status_owned(status_packet: StatusPacket<'_>) -> (r: Self)
        requires
            status_packet.wf(),
        ensures
            r.motor_id == status_packet.spec_data()[4],
            r.alert == spec_alert(status_packet.spec_data()[8]),
            r.data@ == status_packet.spec_data().skip(9),
    {
        Self {
            motor_id: status_packet.packet_id(),
            alert: status_packet.alert(),
            data: vstd::slice::slice_to_vec(status_packet.parameters()),
        }
    }
}

} // verus!
