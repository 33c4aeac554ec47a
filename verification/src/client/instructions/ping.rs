//! The ping instruction, to a single motor or broadcast to scan the bus.
use vstd::prelude::*;

use crate::bus::bus::{spec_read_buffer_too_small, spec_status_ok};
use crate::bus::frame::spec_frame;
use crate::bus::{instruction_id, packet_id, transfer_nanos, HEADER_SIZE};
use crate::client::client::{spec_data_reply_outcome, Client};
use crate::client::{spec_ping_response, Ping};
use crate::bus::bus::Bus;
use crate::bus::scan::spec_status_read_step;
use crate::error::{ExpectedCount, InvalidMessage, InvalidParameterCount, ReadError, TransferError, WriteError};
use crate::serial_port::SerialPort;
use crate::bus::spec_transfer_nanos;
use crate::time::{duration_from_nanos, spec_duration_of_nanos};
use crate::Response;

verus! {

impl<Port: SerialPort> Client<Port> {
    /// Ping a specific motor by ID.
    ///
    /// This will not work correctly if the motor ID is [`packet_id::BROADCAST`].
    /// Use [`Self::scan`] instead.
    pub fn ping(&mut self, motor_id: u8) -> (r: Result<Response<Ping>, TransferError<Port::Error>>)
        requires
            old(self).wf(),
            old(self).spec_baud_rate() > 0,
        ensures
            final(self).keeps_config(*old(self)),
            (r matches Err(TransferError::WriteError(WriteError::BufferTooSmall(_)))) <==> spec_frame(
                motor_id,
                instruction_id::PING,
                Seq::empty(),
            ).len() > old(self).spec_write_capacity(),
            !(r matches Err(TransferError::WriteError(_))) ==> final(self).spec_sent() == spec_frame(motor_id, instruction_id::PING, Seq::empty()),
            r matches Ok(response) ==> response.motor_id == motor_id && exists|data: Seq<u8>|
                spec_status_ok(data) && #[trigger] spec_ping_response(response, data),
            spec_data_reply_outcome(
                *old(self),
                *final(self),
                motor_id,
                3,
                r,
                (|response: Response<Ping>, data: Seq<u8>| spec_ping_response(response, data)),
            ),
    {
        let parameters: [u8; 0] = [];
        let response = match self.transfer_single_bytes(motor_id, instruction_id::PING, parameters.as_slice(), 3) {
            Ok(response) => response,
            Err(e) => return Err(e),
        };
        assert(parameters@ =~= Seq::<u8>::empty());
        match Response::<Ping>::try_from_status(response) {
            Ok(ping) => {
                assert(spec_status_ok(response.spec_data()) && spec_ping_response(ping, response.spec_data()));
                assert(exists|data: Seq<u8>| spec_status_ok(data) && #[trigger] spec_ping_response(ping, data));
                Ok(ping)
            },
            Err(e) => Err(TransferError::ReadError(ReadError::InvalidMessage(InvalidMessage::InvalidParameterCount(e)))),
        }
    }

    /// Scan the bus for motors with a broadcast ping.
    ///
    /// See [`Scan`] for how to consume the per-motor replies.
    pub fn scan(&mut self) -> (r: Result<Scan<'_, Port>, WriteError<Port::Error>>)
        requires
            old(self).wf(),
            old(self).spec_baud_rate() > 0,
        ensures
            r is Err ==> final(self).keeps_config(*old(self)),
            (r matches Err(WriteError::BufferTooSmall(_))) <==> spec_frame(
                packet_id::BROADCAST,
                instruction_id::PING,
                Seq::empty(),
            ).len() > old(self).spec_write_capacity(),
            r matches Err(WriteError::Write(_)) ==> final(self).spec_sent() == spec_frame(
                packet_id::BROADCAST,
                instruction_id::PING,
                Seq::empty(),
            ),
            r matches Ok(scan) ==> {
                &&& scan.wf()
                &&& scan.spec_client().keeps_config(*old(self))
                &&& scan.spec_client().spec_sent() == spec_frame(packet_id::BROADCAST, instruction_id::PING, Seq::empty())
            },
    {
        let parameters: [u8; 0] = [];
        assert(parameters@ =~= Seq::<u8>::empty());
        if let Err(e) = self.write_packet(packet_id::BROADCAST, instruction_id::PING, parameters.as_slice()) {
            return Err(e);
        }
        Ok(Scan { client: self })
    }
}

/// A scan operation that yields a [`Response`] for each motor that replies to the broadcast ping.
///
/// Scanning ends when no further reply arrives within the timeout. The replies must be fully consumed
/// before the client is used again: call [`scan_next`](Self::scan_next) until it returns [`None`].
pub struct Scan<'a, Port: SerialPort> {
    client: &'a mut Client<Port>,
}

/// What reading a reply to a broadcast ping gives from the received bytes: as [`spec_status_read_step`], with
/// the status packet checked to carry the three bytes of a ping reply.
pub open spec fn spec_scan_read_step<E>(received: Seq<u8>, read_capacity: nat) -> Option<
    (Result<Seq<u8>, ReadError<E>>, nat),
> {
    match spec_status_read_step::<E>(received, read_capacity) {
        Some((Ok(data), used)) => Some(
            (
                if data.len() != HEADER_SIZE + 5 {
                    Err(
                        ReadError::InvalidMessage(
                            InvalidMessage::InvalidParameterCount(
                                InvalidParameterCount {
                                    actual: (data.len() - 9) as usize,
                                    expected: ExpectedCount::Exact(3),
                                },
                            ),
                        ),
                    )
                } else {
                    Ok(data)
                },
                used,
            ),
        ),
        other => other,
    }
}

impl<'a, Port: SerialPort> Scan<'a, Port> {
    /// The client of the scan, as it is now.
    pub closed spec fn spec_client(&self) -> Client<Port> {
        *self.client
    }

    /// The client of the scan is well formed and knows its baud rate.
    pub closed spec fn wf(&self) -> bool {
        &&& self.client.wf()
        &&& self.client.spec_baud_rate() > 0
    }

    /// Scan for the next motor reply, or [`None`] once no further reply arrives within the timeout.
    ///
    /// The timeout for each reply is the transfer time of a ping reply for each of the 253 possible motors,
    /// plus a flat 34 milliseconds.
    pub fn scan_next(&mut self) -> (r: Option<Result<Response<Ping>, ReadError<Port::Error>>>)
        requires
            old(self).wf(),
        ensures
            final(self).wf(),
            final(self).spec_client().keeps_config(old(self).spec_client()),
            r matches Some(Ok(response)) ==> exists|data: Seq<u8>|
                spec_status_ok(data) && #[trigger] spec_ping_response(response, data),
            old(self).spec_client().spec_read_capacity() < HEADER_SIZE + 3 ==> r == Some(
                Err::<Response<Ping>, ReadError<Port::Error>>(
                    spec_read_buffer_too_small::<Port::Error>(old(self).spec_client().spec_read_capacity()),
                ),
            ),
            final(self).spec_client().spec_bus().spec_read_timeout() == Some(
                spec_duration_of_nanos(
                    spec_transfer_nanos(14, old(self).spec_client().spec_baud_rate() as nat) * 253 + 34_000_000,
                ),
            ),
            ({
                let stream = Bus::spec_read_stream(old(self).spec_client().spec_bus(), final(self).spec_client().spec_bus());
                let read_capacity = old(self).spec_client().spec_bus().spec_read_capacity();
                read_capacity >= HEADER_SIZE + 3 ==> match spec_scan_read_step::<Port::Error>(stream, read_capacity) {
                    None => r is None || r matches Some(Err(ReadError::Io(_))) || r matches Some(Err(ReadError::Timeout)),
                    Some((expected, used)) => {
                        &&& match expected {
                            Ok(data) => r matches Some(Ok(response)) && spec_ping_response(response, data),
                            Err(e) => r == Some(Err::<Response<Ping>, ReadError<Port::Error>>(e)),
                        }
                        &&& final(self).spec_client().spec_bus().spec_pending() == stream.skip(used as int)
                    },
                }
            }),
    {
        match self.next_response() {
            Ok(response) => Some(Ok(response)),
            Err(ReadError::Io(e)) => {
                if Port::is_timeout_error(&e) {
                    None
                } else {
                    Some(Err(ReadError::Io(e)))
                }
            },
            Err(e) => Some(Err(e)),
        }
    }

    fn next_response(&mut self) -> (r: Result<Response<Ping>, ReadError<Port::Error>>)
        requires
            old(self).wf(),
        ensures
            final(self).wf(),
            final(self).spec_client().keeps_config(old(self).spec_client()),
            r matches Ok(response) ==> exists|data: Seq<u8>|
                spec_status_ok(data) && #[trigger] spec_ping_response(response, data),
            old(self).spec_client().spec_read_capacity() < HEADER_SIZE + 3 ==> r is Err && r->Err_0
                == spec_read_buffer_too_small::<Port::Error>(old(self).spec_client().spec_read_capacity()),
            final(self).spec_client().spec_bus().spec_read_timeout() == Some(
                spec_duration_of_nanos(
                    spec_transfer_nanos(14, old(self).spec_client().spec_baud_rate() as nat) * 253 + 34_000_000,
                ),
            ),
            ({
                let stream = Bus::spec_read_stream(old(self).spec_client().spec_bus(), final(self).spec_client().spec_bus());
                let read_capacity = old(self).spec_client().spec_bus().spec_read_capacity();
                read_capacity >= HEADER_SIZE + 3 ==> match spec_scan_read_step::<Port::Error>(stream, read_capacity) {
                    None => r matches Err(ReadError::Io(_)) || r matches Err(ReadError::Timeout),
                    Some((expected, used)) => {
                        &&& match expected {
                            Ok(data) => r matches Ok(response) && spec_ping_response(response, data),
                            Err(e) => r == Err::<Response<Ping>, ReadError<Port::Error>>(e),
                        }
                        &&& final(self).spec_client().spec_bus().spec_pending() == stream.skip(used as int)
                    },
                }
            }),
    {
        let nanos = transfer_nanos(14, self.client.baud_rate()) * 253 + 34_000_000;
        let timeout = duration_from_nanos(nanos);
        let status = match self.client.read_status_response_timeout(timeout) {
            Ok(status) => status,
            Err(e) => return Err(e),
        };
        let ghost data = status.spec_data();
        let ping = match Response::<Ping>::try_from_status(status) {
            Ok(ping) => ping,
            Err(e) => return Err(ReadError::InvalidMessage(InvalidMessage::InvalidParameterCount(e))),
        };
        let r: Result<Response<Ping>, ReadError<Port::Error>> = Ok(ping);
        assert(spec_status_ok(data) && spec_ping_response(r->Ok_0, data));
        r
    }
}

} // verus!
