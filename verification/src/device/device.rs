//! The device side of the protocol: receiving instructions and sending the status replies.
use vstd::prelude::*;

use core::time::Duration;

use crate::bus::bus::{spec_read_buffer_too_small, spec_read_packet, Bus};
use crate::bus::frame::spec_frame;
use crate::bus::packet::InstructionPacket;
use crate::bus::{instruction_id, HEADER_SIZE, spec_message_limit};
use crate::bus::scan::spec_read_step;
use crate::device::{spec_instructions, spec_instructions_view, Instruction, Instructions};
use crate::error::{BufferTooSmallError, InvalidMessage, ReadError, WriteError};
use crate::serial_port::SerialPort;

verus! {

/// `instruction` was parsed from the received packet `data`.
pub open spec fn spec_received_instruction<T: View<V = Seq<u8>>>(instruction: Instruction<T>, data: Seq<u8>) -> bool {
    &&& spec_read_packet(data, true)
    &&& instruction.id == data[4]
    &&& spec_instructions(data[7], data.skip(8)) == Ok::<Instructions<Seq<u8>>, crate::error::InvalidParameterCount>(
        spec_instructions_view(instruction.instruction),
    )
}

/// What the decoded packet `data` gives as an instruction for a device: the parsed instruction,
/// or the error of its parameters.
pub open spec fn spec_instruction_result<E>(data: Seq<u8>) -> Result<(u8, Instructions<Seq<u8>>), ReadError<E>> {
    match spec_instructions(data[7], data.skip(8)) {
        Ok(instructions) => Ok((data[4], instructions)),
        Err(e) => Err(ReadError::InvalidMessage(InvalidMessage::InvalidParameterCount(e))),
    }
}

/// A read of an instruction from bus state `before` to bus state `after` that gave `r` did what
/// [`spec_read_step`] says of the bytes it worked on: while they hold no message, it failed reading the serial
/// port; otherwise it gave what the first message gives as an instruction (or its error) and left the bytes
/// after it pending.
pub open spec fn spec_instruction_outcome<Port: SerialPort, T: View<V = Seq<u8>>>(
    before: Bus<Port>,
    after: Bus<Port>,
    r: Result<Instruction<T>, ReadError<Port::Error>>,
) -> bool {
    let stream = Bus::spec_read_stream(before, after);
    match spec_read_step::<Port::Error>(stream, before.spec_read_capacity()) {
        None => r matches Err(ReadError::Io(_)) || r matches Err(ReadError::Timeout),
        Some((expected, used)) => {
            &&& match expected {
                Ok(data) => match spec_instruction_result::<Port::Error>(data) {
                    Ok((id, instructions)) => r matches Ok(i) && i.id == id && spec_instructions_view(i.instruction)
                        == instructions,
                    Err(e) => r == Err::<Instruction<T>, ReadError<Port::Error>>(e),
                },
                Err(e) => r == Err::<Instruction<T>, ReadError<Port::Error>>(e),
            }
            &&& after.spec_pending() == stream.skip(used as int)
        },
    }
}

/// Dynamixel [`Device`] for implementing the device side of the DYNAMIXEL Protocol 2.0.
pub struct Device<Port: SerialPort> {
    bus: Bus<Port>,
}

impl<Port: SerialPort> Device<Port> {
    /// The bus of the device.
    pub closed spec fn spec_bus(&self) -> Bus<Port> {
        self.bus
    }

    /// The bus of the device is well formed.
    pub closed spec fn wf(&self) -> bool {
        self.bus.wf()
    }

    /// The baud rate the device assumes for the serial port.
    pub closed spec fn spec_baud_rate(&self) -> u32 {
        self.bus.spec_baud_rate()
    }

    /// The size of the largest message that can be written.
    pub closed spec fn spec_write_capacity(&self) -> nat {
        self.bus.spec_write_capacity()
    }

    /// The size of the read buffer.
    pub closed spec fn spec_read_capacity(&self) -> nat {
        self.bus.spec_read_capacity()
    }

    /// The bytes of the message most recently sent.
    pub closed spec fn spec_sent(&self) -> Seq<u8> {
        self.bus.spec_sent()
    }

    /// The serial port of the device.
    pub closed spec fn spec_serial_port(&self) -> Port {
        self.bus.spec_serial_port()
    }

    /// The device is well formed and has the configuration of `before`: the same baud rate and buffer sizes.
    pub open spec fn keeps_config(self, before: Self) -> bool {
        &&& self.wf()
        &&& self.spec_baud_rate() == before.spec_baud_rate()
        &&& self.spec_write_capacity() == before.spec_write_capacity()
        &&& self.spec_read_capacity() == before.spec_read_capacity()
    }

    /// Create a new device for an open serial port.
    ///
    /// The serial port must already be configured in raw mode with the correct baud rate,
    /// character size (8), parity (disabled) and stop bits (1).
    ///
    /// This will allocate a new read and write buffer of 128 bytes each.
    /// Use [`Self::with_buffers()`] if you want to use a custom buffers.
    pub fn new(serial_port: Port) -> (r: Result<Self, Port::Error>)
        ensures
            r matches Ok(device) ==> {
                &&& device.wf()
                &&& device.spec_serial_port() == serial_port
                &&& device.spec_write_capacity() == 128
                &&& device.spec_read_capacity() == 128
                &&& device.spec_sent() == Seq::<u8>::empty()
                &&& device.spec_bus().spec_fresh(
                    serial_port,
                    Seq::new(128, |i: int| 0u8),
                    Seq::new(128, |i: int| 0u8),
                    device.spec_baud_rate(),
                )
            },
    {
        let read_buffer = vec![0u8; 128];
        let write_buffer = vec![0u8; 128];
        assert(read_buffer@ =~= Seq::new(128, |i: int| 0u8));
        assert(write_buffer@ =~= Seq::new(128, |i: int| 0u8));
        let bus = Bus::with_buffers(serial_port, read_buffer, write_buffer)?;
        Ok(Self { bus })
    }

    /// Create a new device using pre-allocated buffers.
    ///
    /// The write buffer must hold at least the smallest message.
    pub fn with_buffers(serial_port: Port, read_buffer: Vec<u8>, write_buffer: Vec<u8>) -> (r: Result<Self, Port::Error>)
        requires
            HEADER_SIZE + 3 <= write_buffer@.len(),
        ensures
            r matches Ok(device) ==> {
                &&& device.wf()
                &&& device.spec_serial_port() == serial_port
                &&& device.spec_write_capacity() == spec_message_limit(write_buffer@.len())
                &&& device.spec_read_capacity() == read_buffer@.len()
                &&& device.spec_sent() == Seq::<u8>::empty()
                &&& device.spec_bus().spec_fresh(serial_port, read_buffer@, write_buffer@, device.spec_baud_rate())
            },
    {
        let bus = Bus::with_buffers(serial_port, read_buffer, write_buffer)?;
        Ok(Device { bus })
    }

    /// Create a new device using pre-allocated buffers and a known baud rate.
    ///
    /// The write buffer must hold at least the smallest message.
    pub fn with_buffers_and_baud_rate(serial_port: Port, read_buffer: Vec<u8>, write_buffer: Vec<u8>, baud_rate: u32) -> (r:
        Self)
        requires
            HEADER_SIZE + 3 <= write_buffer@.len(),
        ensures
            r.wf(),
            r.spec_baud_rate() == baud_rate,
            r.spec_serial_port() == serial_port,
            r.spec_write_capacity() == spec_message_limit(write_buffer@.len()),
            r.spec_read_capacity() == read_buffer@.len(),
            r.spec_sent() == Seq::<u8>::empty(),
            r.spec_bus().spec_fresh(serial_port, read_buffer@, write_buffer@, baud_rate),
    {
        Device { bus: Bus::with_buffers_and_baud_rate(serial_port, read_buffer, write_buffer, baud_rate) }
    }

    /// Get a reference to the underlying serial port.
    ///
    /// Note that performing any read or write to the serial port bypasses the read/write buffer of the device,
    /// and may disrupt the communication with the motors.
    /// In general, it should be safe to read and write to the device manually in between instructions,
    /// if the response from the motors has already been received.
    pub fn serial_port(&self) -> (r: &Port)
        ensures
            *r == self.spec_serial_port(),
    {
        self.bus.serial_port()
    }

    /// Consume this device object to get ownership of the serial port.
    ///
    /// This discards any data in internal the read buffer of the device object.
    /// This is normally not a problem, since all data in the read buffer is also discarded when transmitting a new command.
    pub fn into_serial_port(self) -> (r: Port)
        ensures
            r == self.spec_serial_port(),
    {
        self.bus.into_serial_port()
    }

    /// Get the baud rate of the device.
    pub fn baud_rate(&self) -> (r: u32)
        ensures
            r == self.spec_baud_rate(),
    {
        self.bus.baud_rate()
    }

    /// Set the baud rate of the underlying serial port.
    pub fn set_baud_rate(&mut self, baud_rate: u32) -> (r: Result<(), Port::Error>)
        requires
            old(self).wf(),
        ensures
            final(self).wf(),
            r is Ok ==> final(self).spec_baud_rate() == baud_rate,
            r is Err ==> final(self).spec_baud_rate() == old(self).spec_baud_rate(),
            final(self).spec_write_capacity() == old(self).spec_write_capacity(),
            final(self).spec_read_capacity() == old(self).spec_read_capacity(),
            final(self).spec_sent() == old(self).spec_sent(),
            final(self).spec_bus().spec_keeps_state(old(self).spec_bus()),
    {
        self.bus.set_baud_rate(baud_rate)
    }

    /// Read a single [`Instruction`] with borrowed data
    ///
    /// Use [`Device::read_owned`] to received owned data
    pub fn read(&mut self, timeout: Duration) -> (r: Result<Instruction<&[u8]>, ReadError<Port::Error>>)
        requires
            old(self).wf(),
        ensures
            final(self).keeps_config(*old(self)),
            final(self).spec_sent() == old(self).spec_sent(),
            r matches Ok(instruction) ==> exists|data: Seq<u8>| #[trigger] spec_received_instruction(instruction, data),
            old(self).spec_read_capacity() < HEADER_SIZE + 3 ==> r is Err && r->Err_0 == spec_read_buffer_too_small::<
                Port::Error,
            >(old(self).spec_read_capacity()),
            Bus::spec_received_grows(old(self).spec_bus(), final(self).spec_bus()),
            final(self).spec_bus().spec_read_timeout() == Some(timeout),
            old(self).spec_read_capacity() >= HEADER_SIZE + 3 ==> spec_instruction_outcome(
                old(self).spec_bus(),
                final(self).spec_bus(),
                r,
            ),
            r matches Err(ReadError::Timeout) ==> final(self).spec_bus().spec_reads() == old(self).spec_bus().spec_reads()
                + u64::MAX,
    {
        let packet = match self.read_raw_instruction_timeout(timeout) {
            Ok(packet) => packet,
            Err(e) => return Err(e),
        };
        let ghost data = packet.spec_data();
        let instruction = match Instruction::<&[u8]>::try_from_packet(packet) {
            Ok(instruction) => instruction,
            Err(e) => return Err(ReadError::InvalidMessage(InvalidMessage::InvalidParameterCount(e))),
        };
        let r: Result<Instruction<&[u8]>, ReadError<Port::Error>> = Ok(instruction);
        assert(spec_received_instruction(r->Ok_0, data));
        r
    }

    /// Read a single [`Instruction`] with owned data
    pub fn read_owned(&mut self, timeout: Duration) -> (r: Result<Instruction<Vec<u8>>, ReadError<Port::Error>>)
        requires
            old(self).wf(),
        ensures
            final(self).keeps_config(*old(self)),
            final(self).spec_sent() == old(self).spec_sent(),
            r matches Ok(instruction) ==> exists|data: Seq<u8>| #[trigger] spec_received_instruction(instruction, data),
            old(self).spec_read_capacity() < HEADER_SIZE + 3 ==> r is Err && r->Err_0 == spec_read_buffer_too_small::<
                Port::Error,
            >(old(self).spec_read_capacity()),
            Bus::spec_received_grows(old(self).spec_bus(), final(self).spec_bus()),
            final(self).spec_bus().spec_read_timeout() == Some(timeout),
            old(self).spec_read_capacity() >= HEADER_SIZE + 3 ==> spec_instruction_outcome(
                old(self).spec_bus(),
                final(self).spec_bus(),
                r,
            ),
            r matches Err(ReadError::Timeout) ==> final(self).spec_bus().spec_reads() == old(self).spec_bus().spec_reads()
                + u64::MAX,
    {
        let packet = match self.read_raw_instruction_timeout(timeout) {
            Ok(packet) => packet,
            Err(e) => return Err(e),
        };
        let ghost data = packet.spec_data();
        let instruction = match Instruction::<Vec<u8>>::try_from_packet(packet) {
            Ok(instruction) => instruction,
            Err(e) => return Err(ReadError::InvalidMessage(InvalidMessage::InvalidParameterCount(e))),
        };
        let r: Result<Instruction<Vec<u8>>, ReadError<Port::Error>> = Ok(instruction);
        assert(spec_received_instruction(r->Ok_0, data));
        r
    }

    /// Write a status message to the device.
    pub fn write_status<F>(&mut self, packet_id: u8, error: u8, parameter_count: usize, encode_parameters: F) -> (r: Result<
        (),
        WriteError<Port::Error>,
    >) where F: FnOnce(&mut [u8]) -> Result<(), BufferTooSmallError>
        requires
            old(self).wf(),
            forall|buffer: &mut [u8]| #[trigger] encode_parameters.requires((buffer,)),
            parameter_count + 16 <= usize::MAX,
        ensures
            final(self).keeps_config(*old(self)),
            HEADER_SIZE + 4 + parameter_count > old(self).spec_write_capacity() ==> r == Err::<(), WriteError<Port::Error>>(
                WriteError::BufferTooSmall(BufferTooSmallError {
                    required_size: (HEADER_SIZE + 4 + parameter_count) as usize,
                    total_size: old(self).spec_write_capacity() as usize,
                }),
            ),
            r is Ok ==> exists|parameters: Seq<u8>| #![trigger spec_frame(packet_id, instruction_id::STATUS, seq![error] + parameters)]
                {
                    &&& parameters.len() == parameter_count
                    &&& final(self).spec_sent() == spec_frame(packet_id, instruction_id::STATUS, seq![error] + parameters)
                },
            HEADER_SIZE + 4 + parameter_count <= old(self).spec_write_capacity() ==> exists|
                buffer: &mut [u8],
                encoded: Result<(), BufferTooSmallError>,
            |
                #![trigger call_ensures(encode_parameters, (buffer,), encoded)]
                {
                    &&& call_ensures(encode_parameters, (buffer,), encoded)
                    &&& buffer@ == Seq::new(parameter_count as nat, |i: int| 0u8)
                    &&& match encoded {
                        Err(e) => r == Err::<(), WriteError<Port::Error>>(WriteError::BufferTooSmall(e)),
                        Ok(_) => final(buffer)@.len() == parameter_count ==> {
                            let frame = spec_frame(packet_id, instruction_id::STATUS, seq![error] + final(buffer)@);
                            &&& (r matches Err(WriteError::BufferTooSmall(_))) <==> frame.len()
                                > old(self).spec_write_capacity()
                            &&& r is Ok ==> final(self).spec_sent() == frame
                        },
                    }
                },
    {
        self.bus.write_status(packet_id, error, parameter_count, encode_parameters)
    }

    /// Write an empty status message with an error code.
    pub fn write_status_error(&mut self, packet_id: u8, error: u8) -> (r: Result<(), WriteError<Port::Error>>)
        requires
            old(self).wf(),
        ensures
            final(self).keeps_config(*old(self)),
            (r matches Err(WriteError::BufferTooSmall(_))) <==> spec_frame(packet_id, instruction_id::STATUS, seq![error]).len()
                > old(self).spec_write_capacity(),
            r is Ok ==> final(self).spec_sent() == spec_frame(packet_id, instruction_id::STATUS, seq![error]),
    {
        let parameters: [u8; 0] = [];
        assert(seq![error] + parameters@ =~= seq![error]);
        self.bus.write_status_bytes(packet_id, error, parameters.as_slice())
    }

    /// Write an empty status message.
    pub fn write_status_ok(&mut self, packet_id: u8) -> (r: Result<(), WriteError<Port::Error>>)
        requires
            old(self).wf(),
        ensures
            final(self).keeps_config(*old(self)),
            (r matches Err(WriteError::BufferTooSmall(_))) <==> spec_frame(packet_id, instruction_id::STATUS, seq![0u8]).len()
                > old(self).spec_write_capacity(),
            r is Ok ==> final(self).spec_sent() == spec_frame(packet_id, instruction_id::STATUS, seq![0u8]),
    {
        self.write_status_error(packet_id, 0)
    }

    /// Read a single [`InstructionPacket`], like [`Self::read_raw_instruction_timeout`].
    pub fn read_instruction_packet_timeout(&mut self, timeout: Duration) -> (r: Result<
        InstructionPacket<'_>,
        ReadError<Port::Error>,
    >)
        requires
            old(self).wf(),
        ensures
            final(self).keeps_config(*old(self)),
            final(self).spec_sent() == old(self).spec_sent(),
            r matches Ok(packet) ==> spec_read_packet(packet.spec_data(), true),
            old(self).spec_read_capacity() < HEADER_SIZE + 3 ==> r is Err && r->Err_0 == spec_read_buffer_too_small::<
                Port::Error,
            >(old(self).spec_read_capacity()),
    {
        self.read_raw_instruction_timeout(timeout)
    }

    /// Read a single [`InstructionPacket`].
    pub fn read_raw_instruction_timeout(&mut self, timeout: Duration) -> (r: Result<InstructionPacket<'_>, ReadError<Port::Error>>)
        requires
            old(self).wf(),
        ensures
            final(self).keeps_config(*old(self)),
            final(self).spec_sent() == old(self).spec_sent(),
            r matches Ok(packet) ==> spec_read_packet(packet.spec_data(), true),
            old(self).spec_read_capacity() < HEADER_SIZE + 3 ==> r is Err && r->Err_0 == spec_read_buffer_too_small::<
                Port::Error,
            >(old(self).spec_read_capacity()),
            Bus::spec_received_grows(old(self).spec_bus(), final(self).spec_bus()),
            final(self).spec_bus().spec_read_timeout() == Some(timeout),
            old(self).spec_read_capacity() >= HEADER_SIZE + 3 ==> ({
                let stream = Bus::spec_read_stream(old(self).spec_bus(), final(self).spec_bus());
                match spec_read_step::<Port::Error>(stream, old(self).spec_read_capacity()) {
                    None => r matches Err(ReadError::Io(_)) || r matches Err(ReadError::Timeout),
                    Some((expected, used)) => {
                        &&& match r {
                            Ok(p) => expected == Ok::<Seq<u8>, ReadError<Port::Error>>(p.spec_data()),
                            Err(e) => expected == Err::<Seq<u8>, ReadError<Port::Error>>(e),
                        }
                        &&& final(self).spec_bus().spec_pending() == stream.skip(used as int)
                    },
                }
            }),
            r matches Err(ReadError::Timeout) ==> final(self).spec_bus().spec_reads() == old(self).spec_bus().spec_reads()
                + u64::MAX,
    {
        let deadline = self.bus.make_read_deadline(timeout);
        let packet = match self.bus.read_packet_deadline(&deadline) {
            Ok(packet) => packet,
            Err(e) => return Err(e),
        };
        Ok(packet.as_instruction())
    }
}

} // verus!
