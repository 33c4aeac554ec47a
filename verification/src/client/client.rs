//! The client side of the protocol: sending instructions and reading the replies.
use vstd::prelude::*;

use core::time::Duration;

use crate::bus::bus::{
    spec_read_buffer_too_small, spec_read_packet, spec_status_ok, spec_status_timeout, status_timeout, Bus,
};
use crate::bus::frame::spec_frame;
use crate::bus::packet::StatusPacket;
use crate::bus::{instruction_id, packet_id, HEADER_SIZE, spec_message_limit};
use crate::bus::scan::{spec_read_step, spec_status_read_step};
use crate::error::{
    spec_alert, BufferTooSmallError, ExpectedCount, InvalidInstruction, InvalidMessage, InvalidPacketId,
    InvalidParameterCount, ReadError, TransferError, WriteError,
};
use crate::response::spec_unit_response;
use crate::serial_port::SerialPort;
use crate::Response;

verus! {

/// Client for the Dynamixel Protocol 2 communication.
///
/// Used to interact with devices on the bus.
pub struct Client<Port: SerialPort> {
    pub(crate) bus: Bus<Port>,
}

/// `data` is a status packet from `motor_id` without a motor error, that carries `count` bytes of reply data.
pub open spec fn spec_data_reply(data: Seq<u8>, motor_id: u8, count: nat) -> bool {
    &&& spec_status_ok(data)
    &&& data[4] == motor_id
    &&& data.len() == 9 + count
}

/// `data` is a complete status packet with a valid checksum, whatever its error field says.
pub open spec fn spec_status_packet(data: Seq<u8>) -> bool {
    &&& spec_read_packet(data, true)
    &&& data[7] == instruction_id::STATUS
}

/// The reply to an instruction without reply data: a fake reply from the broadcast ID when the instruction
/// was broadcast (no device replies then), otherwise an empty status packet.
pub open spec fn spec_unit_reply(motor_id: u8, response: Response<()>) -> bool {
    if motor_id == packet_id::BROADCAST {
        response == (Response { motor_id: packet_id::BROADCAST, alert: false, data: () })
    } else {
        exists|data: Seq<u8>| #[trigger] spec_unit_response(response, data)
    }
}

/// What sending `parameters` for `instruction_id` to `motor_id` and reading the empty reply did to the client
/// (`before` becomes `after`) and returned (`r`).
pub open spec fn spec_unit_instruction<Port: SerialPort>(
    before: Client<Port>,
    after: Client<Port>,
    motor_id: u8,
    instruction_id: u8,
    parameters: Seq<u8>,
    r: Result<Response<()>, TransferError<Port::Error>>,
) -> bool {
    let frame = spec_frame(motor_id, instruction_id, parameters);
    &&& after.keeps_config(before)
    &&& (r matches Err(TransferError::WriteError(WriteError::BufferTooSmall(_)))) <==> frame.len()
        > before.spec_write_capacity()
    &&& !(r matches Err(TransferError::WriteError(_))) ==> after.spec_sent() == frame
    &&& r matches Err(TransferError::WriteError(WriteError::Write(_))) ==> after.spec_sent() == frame
    &&& motor_id == packet_id::BROADCAST ==> !(r matches Err(TransferError::ReadError(_)))
    &&& (motor_id == packet_id::BROADCAST && frame.len() <= before.spec_write_capacity()) ==> (r is Ok || r matches Err(
        TransferError::WriteError(WriteError::DiscardBuffer(_)),
    ) || r matches Err(TransferError::WriteError(WriteError::Write(_))))
    &&& r matches Ok(response) ==> spec_unit_reply(motor_id, response)
    &&& Bus::spec_received_grows(before.spec_bus(), after.spec_bus())
    &&& (motor_id != packet_id::BROADCAST && !(r matches Err(TransferError::WriteError(_)))
        && before.spec_read_capacity() >= HEADER_SIZE + 3) ==> ({
        let stream = after.spec_bus().spec_received().skip(before.spec_bus().spec_received().len() as int);
        match spec_unit_read_step::<Port::Error>(stream, before.spec_read_capacity()) {
            None => r matches Err(TransferError::ReadError(ReadError::Io(_))) || r matches Err(
                TransferError::ReadError(ReadError::Timeout),
            ),
            Some((expected, used)) => {
                &&& match expected {
                    Ok(response) => r == Ok::<Response<()>, TransferError<Port::Error>>(response),
                    Err(e) => r == Err::<Response<()>, TransferError<Port::Error>>(TransferError::ReadError(e)),
                }
                &&& after.spec_bus().spec_pending() == stream.skip(used as int)
            },
        }
    })
}

/// What reading the reply of `motor_id` carrying `count` bytes of data gives from the received bytes: as
/// [`spec_status_read_step`], with the status packet checked to come from `motor_id` and to carry `count` bytes.
pub open spec fn spec_data_read_step<E>(received: Seq<u8>, read_capacity: nat, motor_id: u8, count: nat) -> Option<
    (Result<Seq<u8>, ReadError<E>>, nat),
> {
    match spec_status_read_step::<E>(received, read_capacity) {
        Some((Ok(data), used)) => Some(
            (
                if data[4] != motor_id {
                    Err(
                        ReadError::InvalidMessage(
                            InvalidMessage::InvalidPacketId(InvalidPacketId { actual: data[4], expected: Some(motor_id) }),
                        ),
                    )
                } else if data.len() != HEADER_SIZE + 2 + count {
                    Err(
                        ReadError::InvalidMessage(
                            InvalidMessage::InvalidParameterCount(
                                InvalidParameterCount {
                                    actual: (data.len() - 9) as usize,
                                    expected: ExpectedCount::Exact(count as usize),
                                },
                            ),
                        ),
                    )
                } else {
                    Ok(data)
                },
                used,
            ),
        ),
        other => other,
    }
}

/// An instruction to `motor_id` from client state `before` to `after` that gave `r`, if it was sent and the
/// read buffer holds the smallest message, read the reply as [`spec_data_read_step`] says of the bytes the serial port delivered after the instruction: while they
/// hold no message, it failed reading the serial port; otherwise it gave a result that `ok` relates to the reply
/// packet (or the error), and left the bytes after the reply pending.
pub open spec fn spec_data_reply_outcome<Port: SerialPort, T>(
    before: Client<Port>,
    after: Client<Port>,
    motor_id: u8,
    count: nat,
    r: Result<T, TransferError<Port::Error>>,
    ok: spec_fn(T, Seq<u8>) -> bool,
) -> bool {
    let stream = after.spec_bus().spec_received().skip(before.spec_bus().spec_received().len() as int);
    let read_capacity = before.spec_bus().spec_read_capacity();
    !(r matches Err(TransferError::WriteError(_))) && read_capacity >= HEADER_SIZE + 3 ==> match spec_data_read_step::<
        Port::Error,
    >(stream, read_capacity, motor_id, count) {
        None => r matches Err(TransferError::ReadError(ReadError::Io(_))) || r matches Err(
            TransferError::ReadError(ReadError::Timeout),
        ),
        Some((expected, used)) => {
            &&& match expected {
                Ok(data) => r matches Ok(v) && ok(v, data),
                Err(e) => r == Err::<T, TransferError<Port::Error>>(TransferError::ReadError(e)),
            }
            &&& after.spec_bus().spec_pending() == stream.skip(used as int)
        },
    }
}

/// A read of the reply of `motor_id` from client state `before` to `after` that gave `r`, if the read buffer holds
/// the smallest message, did what [`spec_data_read_step`] says of the bytes it worked on (those pending before,
/// then those the serial port delivered): while they hold no message, it failed reading the serial port;
/// otherwise it gave a result that `ok` relates to the reply packet (or the error), and left the bytes after the
/// reply pending.
pub open spec fn spec_reply_read_outcome<Port: SerialPort, T>(
    before: Client<Port>,
    after: Client<Port>,
    motor_id: u8,
    count: nat,
    r: Result<T, ReadError<Port::Error>>,
    ok: spec_fn(T, Seq<u8>) -> bool,
) -> bool {
    let stream = Bus::spec_read_stream(before.spec_bus(), after.spec_bus());
    let read_capacity = before.spec_bus().spec_read_capacity();
    read_capacity >= HEADER_SIZE + 3 ==> match spec_data_read_step::<Port::Error>(
        stream,
        read_capacity,
        motor_id,
        count,
    ) {
        None => r matches Err(ReadError::Io(_)) || r matches Err(ReadError::Timeout),
        Some((expected, used)) => {
            &&& match expected {
                Ok(data) => r matches Ok(v) && ok(v, data),
                Err(e) => r == Err::<T, ReadError<Port::Error>>(e),
            }
            &&& after.spec_bus().spec_pending() == stream.skip(used as int)
        },
    }
}

/// What reading the combined reply to a fast sync or bulk read gives from the received bytes: as
/// [`spec_read_step`], with the packet checked to be a status packet (whatever its error field says) from the
/// broadcast ID.
pub open spec fn spec_fast_read_step<E>(received: Seq<u8>, read_capacity: nat) -> Option<
    (Result<Seq<u8>, ReadError<E>>, nat),
> {
    match spec_read_step::<E>(received, read_capacity) {
        Some((Ok(data), used)) => Some(
            (
                if data[7] != instruction_id::STATUS {
                    Err(
                        ReadError::InvalidMessage(
                            InvalidMessage::InvalidInstruction(
                                InvalidInstruction { actual: data[7], expected: instruction_id::STATUS },
                            ),
                        ),
                    )
                } else if data[4] != packet_id::BROADCAST {
                    Err(
                        ReadError::InvalidMessage(
                            InvalidMessage::InvalidPacketId(
                                InvalidPacketId { actual: data[4], expected: Some(packet_id::BROADCAST) },
                            ),
                        ),
                    )
                } else {
                    Ok(data)
                },
                used,
            ),
        ),
        other => other,
    }
}

/// A fast sync or bulk read from client state `before` to `after` that gave `r`, if its instruction was sent and
/// the read buffer holds the smallest message, read the combined reply as [`spec_fast_read_step`] says of the bytes
/// the serial port delivered after the instruction: while they hold no message, it failed reading the serial port;
/// otherwise it gave a result that `ok` relates to the reply packet (or the error), and left the bytes after the
/// reply pending.
pub open spec fn spec_fast_reply_outcome<Port: SerialPort, T>(
    before: Client<Port>,
    after: Client<Port>,
    r: Result<T, TransferError<Port::Error>>,
    ok: spec_fn(T, Seq<u8>) -> bool,
) -> bool {
    let stream = after.spec_bus().spec_received().skip(before.spec_bus().spec_received().len() as int);
    let read_capacity = before.spec_bus().spec_read_capacity();
    !(r matches Err(TransferError::WriteError(_))) && read_capacity >= HEADER_SIZE + 3 ==> match spec_fast_read_step::<
        Port::Error,
    >(stream, read_capacity) {
        None => r matches Err(TransferError::ReadError(ReadError::Io(_))) || r matches Err(
            TransferError::ReadError(ReadError::Timeout),
        ),
        Some((expected, used)) => {
            &&& match expected {
                Ok(data) => r matches Ok(v) && ok(v, data),
                Err(e) => r == Err::<T, TransferError<Port::Error>>(TransferError::ReadError(e)),
            }
            &&& after.spec_bus().spec_pending() == stream.skip(used as int)
        },
    }
}

/// What the status packet `data` gives as the reply to an instruction without reply data: an empty response,
/// or an error if the packet carries parameters.
pub open spec fn spec_unit_reply_result<E>(data: Seq<u8>) -> Result<Response<()>, ReadError<E>> {
    if data.len() != HEADER_SIZE + 2 {
        Err(
            ReadError::InvalidMessage(
                InvalidMessage::InvalidParameterCount(
                    InvalidParameterCount { actual: (data.len() - 9) as usize, expected: ExpectedCount::Exact(0) },
                ),
            ),
        )
    } else {
        Ok(Response { motor_id: data[4], alert: spec_alert(data[8]), data: () })
    }
}

/// What reading the reply to an instruction without reply data gives from the received bytes: as
/// [`spec_status_read_step`], with the status packet checked by [`spec_unit_reply_result`].
pub open spec fn spec_unit_read_step<E>(received: Seq<u8>, read_capacity: nat) -> Option<
    (Result<Response<()>, ReadError<E>>, nat),
> {
    match spec_status_read_step::<E>(received, read_capacity) {
        Some((Ok(data), used)) => Some((spec_unit_reply_result(data), used)),
        Some((Err(e), used)) => Some((Err(e), used)),
        None => None,
    }
}

/// What broadcasting `parameters` for `instruction_id` did to the client (`before` becomes `after`)
/// and returned (`r`).
pub open spec fn spec_broadcast_instruction<Port: SerialPort>(
    before: Client<Port>,
    after: Client<Port>,
    instruction_id: u8,
    parameters: Seq<u8>,
    r: Result<(), WriteError<Port::Error>>,
) -> bool {
    let frame = spec_frame(packet_id::BROADCAST, instruction_id, parameters);
    &&& after.keeps_config(before)
    &&& (r matches Err(WriteError::BufferTooSmall(_))) <==> frame.len() > before.spec_write_capacity()
    &&& (r is Ok || r matches Err(WriteError::Write(_))) ==> after.spec_sent() == frame
}

impl<Port: SerialPort> Client<Port> {
    /// The bus of the client is well formed.
    pub closed spec fn wf(&self) -> bool {
        self.bus.wf()
    }

    /// The baud rate the client assumes for the serial port.
    pub closed spec fn spec_baud_rate(&self) -> u32 {
        self.bus.spec_baud_rate()
    }

    /// The size of the largest message that can be written.
    pub closed spec fn spec_write_capacity(&self) -> nat {
        self.bus.spec_write_capacity()
    }

    /// The size of the read buffer.
    pub closed spec fn spec_read_capacity(&self) -> nat {
        self.bus.spec_read_capacity()
    }

    /// The bytes of the message most recently sent.
    pub closed spec fn spec_sent(&self) -> Seq<u8> {
        self.bus.spec_sent()
    }

    /// The bus of the client.
    pub closed spec fn spec_bus(&self) -> Bus<Port> {
        self.bus
    }

    /// The serial port of the client.
    pub closed spec fn spec_serial_port(&self) -> Port {
        self.bus.spec_serial_port()
    }

    /// The client is well formed and has the configuration of `before`: the same baud rate and buffer sizes.
    pub open spec fn keeps_config(self, before: Self) -> bool {
        &&& self.wf()
        &&& self.spec_baud_rate() == before.spec_baud_rate()
        &&& self.spec_write_capacity() == before.spec_write_capacity()
        &&& self.spec_read_capacity() == before.spec_read_capacity()
    }

    /// Create a new client using an open serial port.
    ///
    /// The serial port must already be configured in raw mode with the correct baud rate,
    /// character size (8), parity (disabled) and stop bits (1).
    ///
    /// This will allocate a new read and write buffer of 128 bytes each.
    /// Use [`Self::with_buffers()`] if you want to use a custom buffers.
    pub fn new(serial_port: Port) -> (r: Result<Self, Port::Error>)
        ensures
            r matches Ok(client) ==> {
                &&& client.wf()
                &&& client.spec_serial_port() == serial_port
                &&& client.spec_write_capacity() == 128
                &&& client.spec_read_capacity() == 128
                &&& client.spec_sent() == Seq::<u8>::empty()
                &&& client.spec_bus().spec_fresh(
                    serial_port,
                    Seq::new(128, |i: int| 0u8),
                    Seq::new(128, |i: int| 0u8),
                    client.spec_baud_rate(),
                )
            },
    {
        let read_buffer = vec![0u8; 128];
        let write_buffer = vec![0u8; 128];
        assert(read_buffer@ =~= Seq::new(128, |i: int| 0u8));
        assert(write_buffer@ =~= Seq::new(128, |i: int| 0u8));
        let bus = Bus::with_buffers(serial_port, read_buffer, write_buffer)?;
        Ok(Self { bus })
    }

    /// Create a new client using pre-allocated buffers.
    ///
    /// The serial port must already be configured in raw mode with the correct baud rate,
    /// character size (8), parity (disabled) and stop bits (1).
    /// The write buffer must hold at least the smallest message.
    pub fn with_buffers(serial_port: Port, read_buffer: Vec<u8>, write_buffer: Vec<u8>) -> (r: Result<Self, Port::Error>)
        requires
            HEADER_SIZE + 3 <= write_buffer@.len(),
        ensures
            r matches Ok(client) ==> {
                &&& client.wf()
                &&& client.spec_serial_port() == serial_port
                &&& client.spec_write_capacity() == spec_message_limit(write_buffer@.len())
                &&& client.spec_read_capacity() == read_buffer@.len()
                &&& client.spec_sent() == Seq::<u8>::empty()
                &&& client.spec_bus().spec_fresh(serial_port, read_buffer@, write_buffer@, client.spec_baud_rate())
            },
    {
        let bus = Bus::with_buffers(serial_port, read_buffer, write_buffer)?;
        Ok(Self { bus })
    }

    /// Create a new client using pre-allocated buffers and a known baud rate.
    pub fn with_buffers_and_baud_rate(serial_port: Port, read_buffer: Vec<u8>, write_buffer: Vec<u8>, baud_rate: u32) -> (r:
        Self)
        requires
            HEADER_SIZE + 3 <= write_buffer@.len(),
        ensures
            r.wf(),
            r.spec_baud_rate() == baud_rate,
            r.spec_serial_port() == serial_port,
            r.spec_write_capacity() == spec_message_limit(write_buffer@.len()),
            r.spec_read_capacity() == read_buffer@.len(),
            r.spec_sent() == Seq::<u8>::empty(),
            r.spec_bus().spec_fresh(serial_port, read_buffer@, write_buffer@, baud_rate),
    {
        Self { bus: Bus::with_buffers_and_baud_rate(serial_port, read_buffer, write_buffer, baud_rate) }
    }

    /// Get a reference to the underlying serial port.
    ///
    /// Note that performing any read or write to the serial port bypasses the read/write buffer of the bus,
    /// and may disrupt the communication with the motors.
    /// In general, it should be safe to read and write to the bus manually in between instructions,
    /// if the response from the motors has already been received.
    pub fn serial_port(&self) -> (r: &Port)
        ensures
            *r == self.spec_serial_port(),
    {
        self.bus.serial_port()
    }

    /// Consume the client to get ownership of the serial port.
    ///
    /// This discards any data in internal the read buffer of the client.
    /// This is normally not a problem, since all data in the read buffer is also discarded when transmitting a new command.
    pub fn into_serial_port(self) -> (r: Port)
        ensures
            r == self.spec_serial_port(),
    {
        self.bus.into_serial_port()
    }

    /// Get the baud rate of the bus.
    pub fn baud_rate(&self) -> (r: u32)
        ensures
            r == self.spec_baud_rate(),
    {
        self.bus.baud_rate()
    }

    /// Set the baud rate of the underlying serial port.
    pub fn set_baud_rate(&mut self, baud_rate: u32) -> (r: Result<(), Port::Error>)
        requires
            old(self).wf(),
        ensures
            final(self).wf(),
            r is Ok ==> final(self).spec_baud_rate() == baud_rate,
            r is Err ==> final(self).spec_baud_rate() == old(self).spec_baud_rate(),
            final(self).spec_write_capacity() == old(self).spec_write_capacity(),
            final(self).spec_read_capacity() == old(self).spec_read_capacity(),
            final(self).spec_sent() == old(self).spec_sent(),
            final(self).spec_bus().spec_keeps_state(old(self).spec_bus()),
    {
        self.bus.set_baud_rate(baud_rate)
    }

    /// Write a raw instruction to a stream, and read a single raw response.
    ///
    /// This function also checks that the packet ID of the status response matches the one from the instruction.
    ///
    /// This is not suitable for broadcast instructions.
    /// For broadcast instructions, each motor sends an individual response or no response is send at all.
    /// Instead, use [`Self::write_instruction`] and [`Self::read_status_response`].
    pub fn transfer_single<F>(
        &mut self,
        packet_id: u8,
        instruction_id: u8,
        parameter_count: usize,
        expected_response_parameters: u16,
        encode_parameters: F,
    ) -> (r: Result<StatusPacket<'_>, TransferError<Port::Error>>) where
        F: FnOnce(&mut [u8]) -> Result<(), BufferTooSmallError>,
        requires
            old(self).wf(),
            old(self).spec_baud_rate() > 0,
            forall|buffer: &mut [u8]| #[trigger] encode_parameters.requires((buffer,)),
            parameter_count + 16 <= usize::MAX,
        ensures
            final(self).keeps_config(*old(self)),
            r is Ok ==> exists|parameters: Seq<u8>| #![trigger spec_frame(packet_id, instruction_id, parameters)]
                {
                    &&& parameters.len() == parameter_count
                    &&& final(self).spec_sent() == spec_frame(packet_id, instruction_id, parameters)
                },
            r matches Ok(s) ==> s.wf() && spec_status_ok(s.spec_data()) && s.spec_data()[4] == packet_id,
            HEADER_SIZE + 3 + parameter_count > old(self).spec_write_capacity() ==> r is Err && r->Err_0
                == TransferError::<Port::Error>::WriteError(
                WriteError::BufferTooSmall(
                    BufferTooSmallError {
                        required_size: (HEADER_SIZE + 3 + parameter_count) as usize,
                        total_size: old(self).spec_write_capacity() as usize,
                    },
                ),
            ),
            old(self).spec_read_capacity() < HEADER_SIZE + 3 ==> r is Err,
            old(self).spec_read_capacity() < HEADER_SIZE + 3 ==> (r matches Err(TransferError::ReadError(e)) ==> e
                == spec_read_buffer_too_small::<Port::Error>(old(self).spec_read_capacity())),
            Bus::spec_received_grows(old(self).spec_bus(), final(self).spec_bus()),
            !(r matches Err(TransferError::WriteError(_))) && old(self).spec_bus().spec_read_capacity() >= HEADER_SIZE + 3
                ==> Bus::spec_transfer_outcome(old(self).spec_bus(), final(self).spec_bus(), packet_id, r),
            HEADER_SIZE + 3 + parameter_count <= old(self).spec_write_capacity() ==> exists|
                buffer: &mut [u8],
                encoded: Result<(), BufferTooSmallError>,
            |
                #![trigger call_ensures(encode_parameters, (buffer,), encoded)]
                {
                    &&& call_ensures(encode_parameters, (buffer,), encoded)
                    &&& buffer@ == Seq::new(parameter_count as nat, |i: int| 0u8)
                    &&& match encoded {
                        Err(e) => r == Err::<StatusPacket<'_>, TransferError<Port::Error>>(
                            TransferError::WriteError(WriteError::BufferTooSmall(e)),
                        ),
                        Ok(_) => final(buffer)@.len() == parameter_count ==> {
                            let frame = spec_frame(packet_id, instruction_id, final(buffer)@);
                            &&& (r matches Err(TransferError::WriteError(WriteError::BufferTooSmall(_)))) <==> frame.len()
                                > old(self).spec_write_capacity()
                            &&& (!(r matches Err(TransferError::WriteError(_))) || r matches Err(
                                TransferError::WriteError(WriteError::Write(_)),
                            )) ==> final(self).spec_sent() == frame
                        },
                    }
                },
    {
        self.bus.transfer_single(packet_id, instruction_id, parameter_count, expected_response_parameters, encode_parameters)
    }

    /// Write an instruction message to the bus.
    pub fn write_instruction<F>(
        &mut self,
        packet_id: u8,
        instruction_id: u8,
        parameter_count: usize,
        encode_parameters: F,
    ) -> (r: Result<(), WriteError<Port::Error>>) where F: FnOnce(&mut [u8]) -> Result<(), BufferTooSmallError>
        requires
            old(self).wf(),
            forall|buffer: &mut [u8]| #[trigger] encode_parameters.requires((buffer,)),
            parameter_count + 16 <= usize::MAX,
        ensures
            final(self).keeps_config(*old(self)),
            HEADER_SIZE + 3 + parameter_count > old(self).spec_write_capacity() ==> r == Err::<(), WriteError<Port::Error>>(
                WriteError::BufferTooSmall(BufferTooSmallError {
                    required_size: (HEADER_SIZE + 3 + parameter_count) as usize,
                    total_size: old(self).spec_write_capacity() as usize,
                }),
            ),
            r is Ok ==> exists|parameters: Seq<u8>| #![trigger spec_frame(packet_id, instruction_id, parameters)]
                {
                    &&& parameters.len() == parameter_count
                    &&& final(self).spec_sent() == spec_frame(packet_id, instruction_id, parameters)
                },
            final(self).spec_bus().spec_received() == old(self).spec_bus().spec_received(),
            r is Ok ==> final(self).spec_bus().spec_pending() == Seq::<u8>::empty(),
            HEADER_SIZE + 3 + parameter_count <= old(self).spec_write_capacity() ==> exists|
                buffer: &mut [u8],
                encoded: Result<(), BufferTooSmallError>,
            |
                #![trigger call_ensures(encode_parameters, (buffer,), encoded)]
                {
                    &&& call_ensures(encode_parameters, (buffer,), encoded)
                    &&& buffer@ == Seq::new(parameter_count as nat, |i: int| 0u8)
                    &&& match encoded {
                        Err(e) => r == Err::<(), WriteError<Port::Error>>(WriteError::BufferTooSmall(e)),
                        Ok(_) => final(buffer)@.len() == parameter_count ==> {
                            let frame = spec_frame(packet_id, instruction_id, final(buffer)@);
                            &&& (r matches Err(WriteError::BufferTooSmall(_))) <==> frame.len()
                                > old(self).spec_write_capacity()
                            &&& (r is Ok || r matches Err(WriteError::Write(_))) ==> final(self).spec_sent() == frame
                        },
                    }
                },
    {
        self.bus.write_instruction(packet_id, instruction_id, parameter_count, encode_parameters)
    }

    /// Read a raw status response from the bus with the given timeout.
    ///
    /// The response must be a status packet without a motor error.
    pub fn read_status_response_timeout(&mut self, timeout: Duration) -> (r: Result<StatusPacket<'_>, ReadError<Port::Error>>)
        requires
            old(self).wf(),
        ensures
            final(self).keeps_config(*old(self)),
            final(self).spec_sent() == old(self).spec_sent(),
            r matches Ok(s) ==> s.wf() && spec_status_ok(s.spec_data()),
            old(self).spec_read_capacity() < HEADER_SIZE + 3 ==> r is Err && r->Err_0 == spec_read_buffer_too_small::<
                Port::Error,
            >(old(self).spec_read_capacity()),
            final(self).spec_bus().spec_read_timeout() == Some(timeout),
            Bus::spec_received_grows(old(self).spec_bus(), final(self).spec_bus()),
            old(self).spec_bus().spec_read_capacity() >= HEADER_SIZE + 3 ==> Bus::spec_status_outcome(
                old(self).spec_bus(),
                final(self).spec_bus(),
                r,
            ),
            r matches Err(ReadError::Timeout) ==> final(self).spec_bus().spec_reads() == old(self).spec_bus().spec_reads()
                + u64::MAX,
    {
        self.bus.read_status_response_timeout(timeout)
    }

    /// Read a raw status response with an automatically calculated timeout.
    ///
    /// The read timeout is determined by the expected number of response parameters and the baud rate of the bus.
    pub fn read_status_response(&mut self, expected_parameters: u16) -> (r: Result<StatusPacket<'_>, ReadError<Port::Error>>)
        requires
            old(self).wf(),
            old(self).spec_baud_rate() > 0,
        ensures
            final(self).keeps_config(*old(self)),
            final(self).spec_sent() == old(self).spec_sent(),
            r matches Ok(s) ==> s.wf() && spec_status_ok(s.spec_data()),
            old(self).spec_read_capacity() < HEADER_SIZE + 3 ==> r is Err && r->Err_0 == spec_read_buffer_too_small::<
                Port::Error,
            >(old(self).spec_read_capacity()),
            final(self).spec_bus().spec_read_timeout() == Some(
                spec_status_timeout(expected_parameters, old(self).spec_baud_rate()),
            ),
            Bus::spec_received_grows(old(self).spec_bus(), final(self).spec_bus()),
            old(self).spec_bus().spec_read_capacity() >= HEADER_SIZE + 3 ==> Bus::spec_status_outcome(
                old(self).spec_bus(),
                final(self).spec_bus(),
                r,
            ),
            r matches Err(ReadError::Timeout) ==> final(self).spec_bus().spec_reads() == old(self).spec_bus().spec_reads()
                + u64::MAX,
    {
        self.bus.read_status_response(expected_parameters)
    }

    /// Read the status response of `motor_id`, which must carry `count` bytes of reply data.
    pub(crate) fn read_reply(&mut self, motor_id: u8, count: u16) -> (r: Result<StatusPacket<'_>, ReadError<Port::Error>>)
        requires
            old(self).wf(),
            old(self).spec_baud_rate() > 0,
        ensures
            final(self).keeps_config(*old(self)),
            final(self).spec_sent() == old(self).spec_sent(),
            r matches Ok(s) ==> s.wf() && spec_data_reply(s.spec_data(), motor_id, count as nat),
            old(self).spec_read_capacity() < HEADER_SIZE + 3 ==> r is Err && r->Err_0 == spec_read_buffer_too_small::<
                Port::Error,
            >(old(self).spec_read_capacity()),
            Bus::spec_received_grows(old(self).spec_bus(), final(self).spec_bus()),
            spec_reply_read_outcome(
                *old(self),
                *final(self),
                motor_id,
                count as nat,
                r,
                (|s: StatusPacket, data: Seq<u8>| s.spec_data() == data),
            ),
    {
        let response = match self.read_status_response(count) {
            Ok(response) => response,
            Err(e) => return Err(e),
        };
        if let Err(e) = InvalidPacketId::check(response.packet_id(), motor_id) {
            return Err(ReadError::InvalidMessage(InvalidMessage::InvalidPacketId(e)));
        }
        match InvalidParameterCount::check(response.parameters().len(), count as usize) {
            Ok(()) => Ok(response),
            Err(e) => Err(ReadError::InvalidMessage(InvalidMessage::InvalidParameterCount(e))),
        }
    }

    /// Read a status packet, whatever its error field says, with a timeout for `expected_parameters` parameters.
    pub(crate) fn read_status_packet(&mut self, expected_parameters: u16) -> (r: Result<
        StatusPacket<'_>,
        ReadError<Port::Error>,
    >)
        requires
            old(self).wf(),
            old(self).spec_baud_rate() > 0,
        ensures
            final(self).keeps_config(*old(self)),
            final(self).spec_sent() == old(self).spec_sent(),
            r matches Ok(s) ==> s.wf() && spec_status_packet(s.spec_data()),
            old(self).spec_read_capacity() < HEADER_SIZE + 3 ==> r is Err && r->Err_0 == spec_read_buffer_too_small::<
                Port::Error,
            >(old(self).spec_read_capacity()),
            Bus::spec_received_grows(old(self).spec_bus(), final(self).spec_bus()),
            ({
                let stream = Bus::spec_read_stream(old(self).spec_bus(), final(self).spec_bus());
                let read_capacity = old(self).spec_bus().spec_read_capacity();
                read_capacity >= HEADER_SIZE + 3 ==> match spec_read_step::<Port::Error>(stream, read_capacity) {
                    None => r matches Err(ReadError::Io(_)) || r matches Err(ReadError::Timeout),
                    Some((expected, used)) => {
                        &&& match expected {
                            Ok(data) => if data[7] != instruction_id::STATUS {
                                r == Err::<StatusPacket<'_>, ReadError<Port::Error>>(
                                    ReadError::InvalidMessage(
                                        InvalidMessage::InvalidInstruction(
                                            InvalidInstruction { actual: data[7], expected: instruction_id::STATUS },
                                        ),
                                    ),
                                )
                            } else {
                                r matches Ok(s) && s.spec_data() == data
                            },
                            Err(e) => r == Err::<StatusPacket<'_>, ReadError<Port::Error>>(e),
                        }
                        &&& final(self).spec_bus().spec_pending() == stream.skip(used as int)
                    },
                }
            }),
    {
        let timeout = status_timeout(expected_parameters, self.bus.baud_rate());
        let deadline = self.bus.make_read_deadline(timeout);
        let packet = match self.bus.read_packet_deadline(&deadline) {
            Ok(packet) => packet,
            Err(e) => return Err(e),
        };
        match packet.as_status() {
            Some(status) => Ok(status),
            None => Err(ReadError::InvalidMessage(InvalidMessage::InvalidInstruction(InvalidInstruction {
                actual: packet.instruction_id(),
                expected: instruction_id::STATUS,
            }))),
        }
    }

    /// Read an empty response from the bus if the motor ID is not the broadcast ID.
    ///
    /// If the motor ID is the broadcast ID, return a fake response from the broadcast ID.
    pub(crate) fn read_response_if_not_broadcast(&mut self, motor_id: u8) -> (r: Result<Response<()>, ReadError<Port::Error>>)
        requires
            old(self).wf(),
            motor_id != packet_id::BROADCAST ==> old(self).spec_baud_rate() > 0,
        ensures
            final(self).keeps_config(*old(self)),
            final(self).spec_sent() == old(self).spec_sent(),
            r matches Ok(response) ==> spec_unit_reply(motor_id, response),
            motor_id == packet_id::BROADCAST ==> r == Ok::<Response<()>, ReadError<Port::Error>>(
                Response { motor_id: packet_id::BROADCAST, alert: false, data: () },
            ),
            motor_id != packet_id::BROADCAST && old(self).spec_read_capacity() < HEADER_SIZE + 3 ==> r is Err
                && r->Err_0 == spec_read_buffer_too_small::<Port::Error>(old(self).spec_read_capacity()),
            Bus::spec_received_grows(old(self).spec_bus(), final(self).spec_bus()),
            motor_id != packet_id::BROADCAST && old(self).spec_read_capacity() >= HEADER_SIZE + 3 ==> ({
                let stream = Bus::spec_read_stream(old(self).spec_bus(), final(self).spec_bus());
                match spec_unit_read_step::<Port::Error>(stream, old(self).spec_read_capacity()) {
                    None => r matches Err(ReadError::Io(_)) || r matches Err(ReadError::Timeout),
                    Some((expected, used)) => r == expected && final(self).spec_bus().spec_pending() == stream.skip(
                        used as int,
                    ),
                }
            }),
    {
        assert(self.bus.spec_received().take(self.bus.spec_received().len() as int) =~= self.bus.spec_received());
        if motor_id == packet_id::BROADCAST {
            Ok(Response { motor_id: packet_id::BROADCAST, alert: false, data: () })
        } else {
            let ghost mut data: Seq<u8> = Seq::empty();
            let result = match self.read_status_response(0) {
                Ok(status) => {
                    proof {
                        data = status.spec_data();
                    }
                    match Response::<()>::try_from_status(status) {
                        Ok(response) => {
                            let response = Response { motor_id: response.motor_id, alert: response.alert, data: () };
                            assert(spec_unit_response(response, status.spec_data()));
                            Ok(response)
                        },
                        Err(e) => Err(ReadError::InvalidMessage(crate::error::InvalidMessage::InvalidParameterCount(e))),
                    }
                },
                Err(e) => Err(e),
            };
            proof {
                let stream = Bus::spec_read_stream(old(self).spec_bus(), self.spec_bus());
                if old(self).spec_read_capacity() >= HEADER_SIZE + 3 && result is Ok {
                    assert(spec_status_read_step::<Port::Error>(stream, old(self).spec_read_capacity()) matches Some(
                        (Ok(d), _),
                    ) && d == data);
                }
            }
            result
        }
    }

    /// Send a packet with the given parameters.
    pub(crate) fn write_packet(&mut self, packet_id: u8, instruction_id: u8, parameters: &[u8]) -> (r: Result<
        (),
        WriteError<Port::Error>,
    >)
        requires
            old(self).wf(),
            parameters@.len() + 12 <= usize::MAX,
        ensures
            final(self).keeps_config(*old(self)),
            (r matches Err(WriteError::BufferTooSmall(_))) <==> spec_frame(packet_id, instruction_id, parameters@).len()
                > old(self).spec_write_capacity(),
            (r is Ok || r matches Err(WriteError::Write(_))) ==> final(self).spec_sent() == spec_frame(packet_id, instruction_id, parameters@),
            final(self).spec_bus().spec_received() == old(self).spec_bus().spec_received(),
            final(self).spec_bus().spec_read_capacity() == old(self).spec_bus().spec_read_capacity(),
            r is Ok ==> final(self).spec_bus().spec_pending() == Seq::<u8>::empty(),
    {
        self.bus.write_packet_bytes(packet_id, instruction_id, parameters)
    }

    /// Send an instruction with the given parameters, and read a single status response without a motor error
    /// from the addressed motor.
    pub(crate) fn transfer_single_bytes(
        &mut self,
        packet_id: u8,
        instruction_id: u8,
        parameters: &[u8],
        expected_response_parameters: u16,
    ) -> (r: Result<StatusPacket<'_>, TransferError<Port::Error>>)
        requires
            old(self).wf(),
            old(self).spec_baud_rate() > 0,
            parameters@.len() + 16 <= usize::MAX,
        ensures
            final(self).keeps_config(*old(self)),
            (r matches Err(TransferError::WriteError(WriteError::BufferTooSmall(_)))) <==> spec_frame(
                packet_id,
                instruction_id,
                parameters@,
            ).len() > old(self).spec_write_capacity(),
            !(r matches Err(TransferError::WriteError(_))) ==> final(self).spec_sent() == spec_frame(packet_id, instruction_id, parameters@),
            r matches Ok(s) ==> s.wf() && spec_status_ok(s.spec_data()) && s.spec_data()[4] == packet_id,
            Bus::spec_received_grows(old(self).spec_bus(), final(self).spec_bus()),
            !(r matches Err(TransferError::WriteError(_))) && old(self).spec_bus().spec_read_capacity() >= HEADER_SIZE + 3
                ==> Bus::spec_transfer_outcome(old(self).spec_bus(), final(self).spec_bus(), packet_id, r),
    {
        self.bus.transfer_single_bytes(packet_id, instruction_id, parameters, expected_response_parameters)
    }

    /// Send an instruction with the given parameters, and read the empty reply unless it was broadcast.
    pub(crate) fn write_and_read_unit(&mut self, motor_id: u8, instruction_id: u8, parameters: &[u8]) -> (r: Result<
        Response<()>,
        TransferError<Port::Error>,
    >)
        requires
            old(self).wf(),
            motor_id != packet_id::BROADCAST ==> old(self).spec_baud_rate() > 0,
            parameters@.len() + 16 <= usize::MAX,
        ensures
            spec_unit_instruction(*old(self), *final(self), motor_id, instruction_id, parameters@, r),
    {
        if let Err(e) = self.write_packet(motor_id, instruction_id, parameters) {
            assert(self.bus.spec_received().take(self.bus.spec_received().len() as int) =~= self.bus.spec_received());
            return Err(TransferError::WriteError(e));
        }
        let ghost mid = self.bus;
        assert(mid.spec_pending() + self.bus.spec_received().skip(old(self).bus.spec_received().len() as int)
            =~= self.bus.spec_received().skip(old(self).bus.spec_received().len() as int));
        match self.read_response_if_not_broadcast(motor_id) {
            Ok(response) => Ok(response),
            Err(e) => Err(TransferError::ReadError(e)),
        }
    }
}

} // verus!
