//! Low level interface to a DYNAMIXEL Protocol 2.0 bus: writing and reading whole messages.
use vstd::prelude::*;

use crate::bus::bytestuff::{lemma_stuff_len, spec_unstuff, stuff_inplace, unstuff_inplace};
use crate::bus::endian::{read_u16_le, spec_le_bytes, write_u16_le};
use crate::bus::frame::{
    lemma_frame_len, spec_body, spec_checked_message, spec_decode_message, spec_frame, spec_frame_fits, spec_header,
    spec_length_field, spec_valid_message,
};
use crate::bus::packet::{InstructionPacket, Packet, StatusPacket};
use crate::bus::{
    find_header, instruction_id, message_limit, prefix_matches_at, spec_header_prefix, spec_message_limit, HEADER_PREFIX,
    HEADER_SIZE, MAX_MESSAGE_SIZE,
};
use crate::checksum::{calculate_checksum, spec_checksum};
use crate::error::{
    spec_error_number, BufferTooSmallError, ExpectedCount, InvalidChecksum, InvalidInstruction, InvalidMessage,
    InvalidPacketId, InvalidParameterCount, MotorError, ReadError, TransferError, WriteError,
};
use crate::bus::{spec_transfer_nanos, transfer_nanos};
use crate::bus::{lemma_garbage_extend, lemma_garbage_len, spec_garbage_len};
use crate::bus::scan::{
    spec_message_result, check_message, scan_message, spec_read_step, spec_scan_message, spec_status_read_step, MessageScan,
};
use crate::time::{duration_from_nanos, spec_duration_of_nanos};
use core::time::Duration;
use crate::serial_port::SerialPort;

verus! {

/// Low level interface to a DYNAMIXEL Protocol 2.0 bus.
///
/// Does not assume anything about the direction of communication.
/// Used by [`crate::Client`] and [`crate::Device`].
pub struct Bus<Port: SerialPort> {
    /// The underlying stream (normally a serial port).
    pub(crate) serial_port: Port,
    /// The baud rate of the serial port, if known.
    pub(crate) baud_rate: u32,
    /// The buffer for reading incoming messages.
    pub(crate) read_buffer: Vec<u8>,
    /// The total number of valid bytes in the read buffer.
    pub(crate) read_len: usize,
    /// The number of leading bytes in the read buffer that have already been used.
    pub(crate) used_bytes: usize,
    /// The buffer for outgoing messages.
    pub(crate) write_buffer: Vec<u8>,
    /// The bytes most recently handed to the serial port for transmission.
    pub(crate) sent: Ghost<Seq<u8>>,
    /// All bytes the serial port delivered so far, in order.
    pub(crate) received: Ghost<Seq<u8>>,
    /// The number of reads made on the serial port so far.
    pub(crate) reads: Ghost<nat>,
    /// The timeout of the last deadline made for a read, if any.
    pub(crate) read_timeout: Ghost<Option<Duration>>,
    /// Whether the serial port judged the last failed read to be a timeout.
    pub(crate) read_timed_out: Ghost<bool>,
}

impl<Port: SerialPort> Bus<Port> {
    /// The internal bookkeeping of the bus is consistent.
    pub closed spec fn wf(&self) -> bool {
        &&& self.read_len <= self.read_buffer@.len()
        &&& self.used_bytes <= self.read_len
        &&& HEADER_SIZE + 3 <= self.write_buffer@.len()
        &&& self.write_buffer@.take(4) == spec_header_prefix()
    }

    /// The baud rate the bus assumes for the serial port.
    pub closed spec fn spec_baud_rate(&self) -> u32 {
        self.baud_rate
    }

    /// The size of the largest message that can be written: the size of the write buffer,
    /// but no more than [`MAX_MESSAGE_SIZE`].
    pub closed spec fn spec_write_capacity(&self) -> nat {
        spec_message_limit(self.write_buffer@.len())
    }

    /// The size of the read buffer.
    pub closed spec fn spec_read_capacity(&self) -> nat {
        self.read_buffer@.len()
    }

    /// The bytes most recently handed to the serial port for transmission.
    pub closed spec fn spec_sent(&self) -> Seq<u8> {
        self.sent@
    }

    /// The contents of the read buffer.
    pub closed spec fn spec_read_buffer(&self) -> Seq<u8> {
        self.read_buffer@
    }

    /// The number of valid bytes at the front of the read buffer.
    pub closed spec fn spec_read_len(&self) -> nat {
        self.read_len as nat
    }

    /// The number of leading valid bytes of the read buffer that were already used.
    pub closed spec fn spec_used_bytes(&self) -> nat {
        self.used_bytes as nat
    }

    /// The contents of the write buffer.
    pub closed spec fn spec_write_buffer(&self) -> Seq<u8> {
        self.write_buffer@
    }

    /// `self` has the buffers, the counters and the record of the traffic of `before`: all of the bus state but
    /// the serial port and the baud rate.
    pub open spec fn spec_keeps_state(self, before: Self) -> bool {
        &&& self.spec_read_buffer() == before.spec_read_buffer()
        &&& self.spec_read_len() == before.spec_read_len()
        &&& self.spec_used_bytes() == before.spec_used_bytes()
        &&& self.spec_write_buffer() == before.spec_write_buffer()
        &&& self.spec_sent() == before.spec_sent()
        &&& self.spec_received() == before.spec_received()
        &&& self.spec_reads() == before.spec_reads()
        &&& self.spec_read_timeout() == before.spec_read_timeout()
        &&& self.spec_read_timed_out() == before.spec_read_timed_out()
    }

    /// `self` is a bus just made on `serial_port` with the given buffers and baud rate: the read buffer is kept
    /// as given, the write buffer starts with the header prefix and keeps the rest, nothing was received, read or
    /// sent yet.
    pub open spec fn spec_fresh(self, serial_port: Port, read_buffer: Seq<u8>, write_buffer: Seq<u8>, baud_rate: u32) -> bool {
        &&& self.wf()
        &&& self.spec_serial_port() == serial_port
        &&& self.spec_baud_rate() == baud_rate
        &&& self.spec_read_buffer() == read_buffer
        &&& self.spec_read_len() == 0
        &&& self.spec_used_bytes() == 0
        &&& self.spec_write_buffer() == spec_header_prefix() + write_buffer.skip(4)
        &&& self.spec_sent() == Seq::<u8>::empty()
        &&& self.spec_received() == Seq::<u8>::empty()
        &&& self.spec_reads() == 0
        &&& self.spec_read_timeout() is None
        &&& !self.spec_read_timed_out()
    }

    /// The received bytes that were not used yet.
    pub closed spec fn spec_pending(&self) -> Seq<u8> {
        self.read_buffer@.subrange(self.used_bytes as int, self.read_len as int)
    }

    /// All bytes the serial port delivered so far, in order.
    pub closed spec fn spec_received(&self) -> Seq<u8> {
        self.received@
    }

    /// The number of reads made on the serial port so far.
    pub closed spec fn spec_reads(&self) -> nat {
        self.reads@
    }

    /// The timeout of the last deadline the bus made for a read, if any.
    pub closed spec fn spec_read_timeout(&self) -> Option<Duration> {
        self.read_timeout@
    }

    /// Whether the serial port judged the last failed read to be a timeout.
    pub closed spec fn spec_read_timed_out(&self) -> bool {
        self.read_timed_out@
    }

    /// The bytes a read from state `before` to state `after` worked on: those pending before,
    /// followed by those the serial port delivered in between.
    pub open spec fn spec_read_stream(before: Self, after: Self) -> Seq<u8> {
        before.spec_pending() + after.spec_received().skip(before.spec_received().len() as int)
    }

    /// A read from state `before` to state `after` that gave `r` did what [`spec_read_step`] says of the bytes
    /// it worked on: while they hold no message, it failed reading the serial port (or, if `complete` is not
    /// set, it may have salvaged a short message); otherwise it gave the result of the first message and left
    /// the bytes after it pending.
    pub open spec fn spec_read_outcome(before: Self, after: Self, complete: bool, r: Result<Packet<'_>, ReadError<Port::Error>>) -> bool {
        let stream = Self::spec_read_stream(before, after);
        match spec_read_step::<Port::Error>(stream, before.spec_read_capacity()) {
            None => complete ==> (r matches Err(ReadError::Io(_)) || r matches Err(ReadError::Timeout)),
            Some((expected, used)) => {
                &&& spec_read_result_is(r, expected)
                &&& after.spec_pending() == stream.skip(used as int)
            },
        }
    }

    /// A fast read from state `before` to state `after` with motor blocks of `block_data_lens` data bytes that gave
    /// `r`, while the bytes it worked on hold no complete message, salvaged the message it could: when the serial
    /// port reported a timeout and the bytes from the first header on hold at least one complete motor block, the
    /// result is that of the message cut after the last complete block (see [`spec_salvaged_len`]), and the bytes
    /// after it are left pending; otherwise it failed reading the serial port.
    pub open spec fn spec_salvage_outcome(
        before: Self,
        after: Self,
        block_data_lens: Seq<u16>,
        r: Result<Packet<'_>, ReadError<Port::Error>>,
    ) -> bool {
        let stream = Self::spec_read_stream(before, after);
        let message = Self::spec_garbage_free(stream);
        spec_read_step::<Port::Error>(stream, before.spec_read_capacity()) is None ==> {
            ||| r matches Err(ReadError::Timeout)
            ||| {
                &&& r matches Err(ReadError::Io(_))
                &&& after.spec_read_timed_out() ==> spec_salvaged_len(message.len(), block_data_lens) is None
            }
            ||| {
                &&& after.spec_read_timed_out()
                &&& spec_salvaged_len(message.len(), block_data_lens) matches Some(len)
                &&& spec_read_result_is(r, spec_message_result(message.take(len as int)))
                &&& after.spec_pending() == message.skip(len as int)
            }
        }
    }

    /// A status read from state `before` to state `after` that gave `r` did what [`spec_status_read_step`] says
    /// of the bytes it worked on: while they hold no message, it failed reading the serial port; otherwise it gave
    /// the checked status response of the first message (or its error) and left the bytes after it pending.
    pub open spec fn spec_status_outcome(before: Self, after: Self, r: Result<StatusPacket<'_>, ReadError<Port::Error>>) -> bool {
        let stream = Self::spec_read_stream(before, after);
        match spec_status_read_step::<Port::Error>(stream, before.spec_read_capacity()) {
            None => r matches Err(ReadError::Io(_)) || r matches Err(ReadError::Timeout),
            Some((expected, used)) => {
                &&& match r {
                    Ok(s) => expected == Ok::<Seq<u8>, ReadError<Port::Error>>(s.spec_data()),
                    Err(e) => expected == Err::<Seq<u8>, ReadError<Port::Error>>(e),
                }
                &&& after.spec_pending() == stream.skip(used as int)
            },
        }
    }

    /// A transfer from state `before` to state `after` that gave `r` read the status response from the bytes the
    /// serial port delivered after its instruction was sent, as [`spec_status_read_step`] says, and checked that
    /// it came from `packet_id`; the bytes after the response are left pending.
    pub open spec fn spec_transfer_outcome(
        before: Self,
        after: Self,
        packet_id: u8,
        r: Result<StatusPacket<'_>, TransferError<Port::Error>>,
    ) -> bool {
        let stream = after.spec_received().skip(before.spec_received().len() as int);
        match spec_status_read_step::<Port::Error>(stream, before.spec_read_capacity()) {
            None => r matches Err(TransferError::ReadError(ReadError::Io(_))) || r matches Err(
                TransferError::ReadError(ReadError::Timeout),
            ),
            Some((expected, used)) => {
                &&& match expected {
                    Ok(data) => if data[4] != packet_id {
                        r == Err::<StatusPacket<'_>, TransferError<Port::Error>>(
                            TransferError::ReadError(
                                ReadError::InvalidMessage(
                                    InvalidMessage::InvalidPacketId(
                                        InvalidPacketId { actual: data[4], expected: Some(packet_id) },
                                    ),
                                ),
                            ),
                        )
                    } else {
                        r matches Ok(s) && s.spec_data() == data
                    },
                    Err(e) => r == Err::<StatusPacket<'_>, TransferError<Port::Error>>(TransferError::ReadError(e)),
                }
                &&& after.spec_pending() == stream.skip(used as int)
            },
        }
    }

    /// From state `before` to state `after` the serial port delivered more bytes, if any, and kept the ones before.
    pub open spec fn spec_received_grows(before: Self, after: Self) -> bool {
        &&& before.spec_received().len() <= after.spec_received().len()
        &&& after.spec_received().take(before.spec_received().len() as int) == before.spec_received()
    }

    /// The serial port of the bus.
    pub closed spec fn spec_serial_port(&self) -> Port {
        self.serial_port
    }

    /// Create a new bus using pre-allocated buffers.
    ///
    /// The serial port must already be configured in raw mode with the correct baud rate,
    /// character size (8), parity (disabled) and stop bits (1).
    pub fn with_buffers(serial_port: Port, read_buffer: Vec<u8>, write_buffer: Vec<u8>) -> (r: Result<
        Self,
        Port::Error,
    >)
        requires
            HEADER_SIZE + 3 <= write_buffer@.len(),
        ensures
            r matches Ok(bus) ==> {
                &&& bus.spec_fresh(serial_port, read_buffer@, write_buffer@, bus.spec_baud_rate())
                &&& bus.spec_write_capacity() == spec_message_limit(write_buffer@.len())
                &&& bus.spec_read_capacity() == read_buffer@.len()
                &&& bus.spec_pending() == Seq::<u8>::empty()
            },
    {
        let baud_rate = serial_port.baud_rate()?;
        Ok(Self::with_buffers_and_baud_rate(serial_port, read_buffer, write_buffer, baud_rate))
    }

    /// Create a new bus using pre-allocated buffers.
    pub fn with_buffers_and_baud_rate(serial_port: Port, read_buffer: Vec<u8>, write_buffer: Vec<u8>, baud_rate: u32) -> (r:
        Self)
        requires
            HEADER_SIZE + 3 <= write_buffer@.len(),
        ensures
            r.spec_fresh(serial_port, read_buffer@, write_buffer@, baud_rate),
            r.wf(),
            r.spec_baud_rate() == baud_rate,
            r.spec_serial_port() == serial_port,
            r.spec_write_capacity() == spec_message_limit(write_buffer@.len()),
            r.spec_read_capacity() == read_buffer@.len(),
            r.spec_sent() == Seq::<u8>::empty(),
            r.spec_pending() == Seq::<u8>::empty(),
    {
        let ghost old_write_buffer = write_buffer@;
        let mut write_buffer = write_buffer;
        // Pre-fill write buffer with the header prefix.
        let prefix = HEADER_PREFIX;
        write_buffer.set(0, prefix[0]);
        write_buffer.set(1, prefix[1]);
        write_buffer.set(2, prefix[2]);
        write_buffer.set(3, prefix[3]);
        assert(write_buffer@.take(4) =~= spec_header_prefix());
        assert(write_buffer@ =~= spec_header_prefix() + old_write_buffer.skip(4));
        Self {
            serial_port,
            baud_rate,
            read_buffer,
            read_len: 0,
            used_bytes: 0,
            write_buffer,
            sent: Ghost(Seq::empty()),
            received: Ghost(Seq::empty()),
            reads: Ghost(0),
            read_timeout: Ghost(None),
            read_timed_out: Ghost(false),
        }
    }

    /// Get a reference to the underlying serial port.
    pub fn serial_port(&self) -> (r: &Port)
        ensures
            *r == self.spec_serial_port(),
    {
        &self.serial_port
    }

    /// Consume this bus object to get ownership of the serial port.
    pub fn into_serial_port(self) -> (r: Port)
        ensures
            r == self.spec_serial_port(),
    {
        self.serial_port
    }

    /// Make a deadline for a read that expires after `timeout`.
    pub(crate) fn make_read_deadline(&mut self, timeout: Duration) -> (r: Port::Instant)
        requires
            old(self).wf(),
        ensures
            final(self).wf(),
            final(self).spec_read_timeout() == Some(timeout),
            final(self).spec_baud_rate() == old(self).spec_baud_rate(),
            final(self).spec_write_capacity() == old(self).spec_write_capacity(),
            final(self).spec_read_capacity() == old(self).spec_read_capacity(),
            final(self).spec_sent() == old(self).spec_sent(),
            final(self).spec_pending() == old(self).spec_pending(),
            final(self).spec_received() == old(self).spec_received(),
            final(self).spec_reads() == old(self).spec_reads(),
    {
        self.read_timeout = Ghost(Some(timeout));
        self.serial_port.make_deadline(timeout)
    }

    /// Get the baud rate of the bus.
    pub fn baud_rate(&self) -> (r: u32)
        ensures
            r == self.spec_baud_rate(),
    {
        self.baud_rate
    }

    /// Set the baud rate of the underlying serial port.
    ///
    /// The baud rate of the bus only changes when the serial port accepted the new baud rate.
    pub fn set_baud_rate(&mut self, baud_rate: u32) -> (r: Result<(), Port::Error>)
        requires
            old(self).wf(),
        ensures
            final(self).wf(),
            r is Ok ==> final(self).spec_baud_rate() == baud_rate,
            r is Err ==> final(self).spec_baud_rate() == old(self).spec_baud_rate(),
            final(self).spec_write_capacity() == old(self).spec_write_capacity(),
            final(self).spec_read_capacity() == old(self).spec_read_capacity(),
            final(self).spec_sent() == old(self).spec_sent(),
            final(self).spec_pending() == old(self).spec_pending(),
            final(self).spec_keeps_state(*old(self)),
    {
        self.serial_port.set_baud_rate(baud_rate)?;
        self.baud_rate = baud_rate;
        Ok(())
    }

    /// Write a packet with the given parameters to the bus.
    ///
    /// The message is framed in the write buffer: header, byte-stuffed instruction ID and parameters,
    /// and checksum. Before it is sent, any unread data in the read buffer and in the input buffer of the
    /// serial port is discarded.
    ///
    /// Fails with [`WriteError::BufferTooSmall`] exactly when the framed message does not fit in the write buffer.
    pub fn write_packet_bytes(&mut self, packet_id: u8, instruction_id: u8, parameters: &[u8]) -> (r: Result<
        (),
        WriteError<Port::Error>,
    >)
        requires
            old(self).wf(),
            parameters@.len() + 12 <= usize::MAX,
        ensures
            final(self).wf(),
            final(self).spec_baud_rate() == old(self).spec_baud_rate(),
            final(self).spec_write_capacity() == old(self).spec_write_capacity(),
            final(self).spec_read_capacity() == old(self).spec_read_capacity(),
            final(self).spec_received() == old(self).spec_received(),
            final(self).spec_read_timeout() == old(self).spec_read_timeout(),
            ({
                let frame = spec_frame(packet_id, instruction_id, parameters@);
                let total = old(self).spec_write_capacity();
                &&& (r matches Err(WriteError::BufferTooSmall(e)) <==> frame.len() > total)
                &&& (r matches Err(WriteError::BufferTooSmall(e)) ==> {
                    &&& e.total_size == total
                    &&& e.required_size == (if HEADER_SIZE + 3 + parameters@.len() > total {
                        HEADER_SIZE + 3 + parameters@.len()
                    } else {
                        frame.len() as int
                    })
                })
                &&& (r matches Err(WriteError::BufferTooSmall(_)) ==> final(self).spec_sent() == old(self).spec_sent())
                &&& (!(r matches Err(WriteError::BufferTooSmall(_))) ==> final(self).spec_pending() == Seq::<u8>::empty())
                &&& (r is Ok ==> final(self).spec_sent() == frame)
                &&& (r is Ok ==> spec_frame_fits(instruction_id, parameters@))
                &&& (r matches Err(WriteError::Write(_)) ==> final(self).spec_sent() == frame)
            }),
    {
        let message_len = match frame_into(&mut self.write_buffer, packet_id, instruction_id, parameters) {
            Ok(n) => n,
            Err(e) => return Err(WriteError::BufferTooSmall(e)),
        };
        proof {
            lemma_frame_len(packet_id, instruction_id, parameters@);
        }

        // Throw away old data in the read buffer and the kernel read buffer.
        // We don't do this when reading a reply, because we might receive multiple replies for one instruction,
        // and read() can potentially read more than one reply per syscall.
        self.read_len = 0;
        self.used_bytes = 0;
        if let Err(e) = self.serial_port.discard_input_buffer() {
            return Err(WriteError::DiscardBuffer(e));
        }

        // Send message.
        let message = vstd::slice::slice_subrange(self.write_buffer.as_slice(), 0, message_len);
        self.sent = Ghost(message@);
        if let Err(e) = self.serial_port.write_all(message) {
            return Err(WriteError::Write(e));
        }
        Ok(())
    }

    /// Discard the first `len` bytes of the read buffer, moving the rest to the front.
    pub(crate) fn consume_read_bytes(&mut self, len: usize)
        requires
            old(self).wf(),
            len <= old(self).read_len,
        ensures
            final(self).wf(),
            final(self).read_len == old(self).read_len - len,
            final(self).used_bytes == (if old(self).used_bytes >= len { old(self).used_bytes - len } else { 0 }),
            final(self).read_buffer@.len() == old(self).read_buffer@.len(),
            final(self).read_buffer@.take(final(self).read_len as int) == old(self).read_buffer@.subrange(
                len as int,
                old(self).read_len as int,
            ),
            final(self).serial_port == old(self).serial_port,
            final(self).baud_rate == old(self).baud_rate,
            final(self).write_buffer == old(self).write_buffer,
            final(self).sent == old(self).sent,
            final(self).received == old(self).received,
            final(self).reads == old(self).reads,
            final(self).read_timeout == old(self).read_timeout,
            final(self).read_timed_out == old(self).read_timed_out,
    {
        let read_len = self.read_len;
        let mut k: usize = len;
        while k < read_len
            invariant
                len <= k <= read_len,
                read_len == old(self).read_len,
                self.read_buffer@.len() == old(self).read_buffer@.len(),
                read_len <= self.read_buffer@.len(),
                forall|m: int| 0 <= m < k - len ==> self.read_buffer@[m] == old(self).read_buffer@[m + len],
                forall|m: int| k <= m < read_len ==> self.read_buffer@[m] == old(self).read_buffer@[m],
                self.serial_port == old(self).serial_port,
                self.baud_rate == old(self).baud_rate,
                self.write_buffer == old(self).write_buffer,
                self.sent == old(self).sent,
                self.received == old(self).received,
                self.reads == old(self).reads,
                self.read_timeout == old(self).read_timeout,
                self.read_timed_out == old(self).read_timed_out,
                self.read_len == old(self).read_len,
                self.used_bytes == old(self).used_bytes,
            decreases read_len - k,
        {
            let byte = self.read_buffer[k];
            self.read_buffer.set(k - len, byte);
            k = k + 1;
        }
        self.used_bytes = if self.used_bytes >= len { self.used_bytes - len } else { 0 };
        self.read_len = read_len - len;
        assert(self.read_buffer@.take(self.read_len as int) =~= old(self).read_buffer@.subrange(
            len as int,
            read_len as int,
        ));
    }

    /// Remove leading garbage data from the read buffer, together with the bytes already used.
    ///
    /// Afterwards the read buffer starts with (a part of) a header prefix, or is empty.
    pub(crate) fn remove_garbage(&mut self)
        requires
            old(self).wf(),
        ensures
            final(self).wf(),
            final(self).used_bytes == 0,
            final(self).read_len <= old(self).read_len,
            final(self).read_len > 0 ==> prefix_matches_at(final(self).read_buffer@.take(final(self).read_len as int), 0),
            final(self).read_buffer@.take(final(self).read_len as int) == old(self).spec_pending().skip(
                spec_garbage_len(old(self).spec_pending()) as int,
            ),
            final(self).read_buffer@.len() == old(self).read_buffer@.len(),
            final(self).serial_port == old(self).serial_port,
            final(self).baud_rate == old(self).baud_rate,
            final(self).write_buffer == old(self).write_buffer,
            final(self).sent == old(self).sent,
            final(self).received == old(self).received,
            final(self).reads == old(self).reads,
            final(self).read_timeout == old(self).read_timeout,
            final(self).read_timed_out == old(self).read_timed_out,
    {
        let used = self.used_bytes;
        let read_len = self.read_len;
        let garbage_len = find_header(vstd::slice::slice_subrange(self.read_buffer.as_slice(), used, read_len));
        let ghost rest = self.read_buffer@.subrange(used as int, read_len as int);
        self.consume_read_bytes(used + garbage_len);
        proof {
            let now = self.read_buffer@.take(self.read_len as int);
            assert(now =~= rest.skip(garbage_len as int));
            if self.read_len > 0 {
                assert forall|k: int| 0 <= k < 4 && 0 + k < now.len() implies #[trigger] now[0 + k]
                    == spec_header_prefix()[k] by {
                    assert(now[k] == rest[garbage_len + k]);
                }
            }
        }
    }

    /// Read a raw packet from the bus with the given deadline.
    ///
    /// A regular read expects the whole packet: a read timeout is a genuine failure, never salvaged.
    /// The returned packet is the de-stuffed content of a complete message with a valid checksum.
    pub fn read_packet_deadline(&mut self, deadline: &Port::Instant) -> (r: Result<Packet<'_>, ReadError<Port::Error>>)
        requires
            old(self).wf(),
        ensures
            final(self).wf(),
            final(self).spec_baud_rate() == old(self).spec_baud_rate(),
            final(self).spec_write_capacity() == old(self).spec_write_capacity(),
            final(self).spec_read_capacity() == old(self).spec_read_capacity(),
            final(self).spec_sent() == old(self).spec_sent(),
            r matches Ok(p) ==> spec_read_packet(p.data@, true),
            r matches Err(ReadError::BufferFull(e)) ==> e.total_size == old(self).spec_read_capacity()
                && e.required_size > e.total_size,
            r matches Err(ReadError::InvalidMessage(InvalidMessage::InvalidChecksum(c))) ==> c.message != c.computed,
            old(self).spec_read_capacity() < HEADER_SIZE + 3 ==> r is Err && r->Err_0 == spec_read_buffer_too_small::<
                Port::Error,
            >(old(self).spec_read_capacity()),
            final(self).spec_read_timeout() == old(self).spec_read_timeout(),
            Self::spec_received_grows(*old(self), *final(self)),
            old(self).spec_read_capacity() >= HEADER_SIZE + 3 ==> Self::spec_read_outcome(*old(self), *final(self), true, r),
            r matches Err(ReadError::Timeout) ==> final(self).spec_reads() == old(self).spec_reads() + u64::MAX,
    {
        self.read_packet_deadline_inner(deadline, None)
    }

    /// Read a fast sync/bulk read status response, tolerating a missing motor reply.
    ///
    /// Fast reads combine every motor's reply into a single status packet. When a motor does not reply, its
    /// block is absent and the packet arrives shorter than its length field promises, so [`Self::read_packet_deadline`]
    /// would wait for bytes that never come and time out, discarding the blocks that *did* arrive.
    ///
    /// This variant salvages those blocks instead: on a read timeout it trims the response to the end of the last
    /// complete motor block and validates that block's CRC. Because each block's CRC is computed over the whole
    /// packet up to and including that block, a single check confirms every preceding block at once.
    ///
    /// `block_data_lens[index]` is the number of data bytes in the block of the `index`-th addressed motor.
    /// Each block on the wire is `error (1) + motor ID (1) + data (n) + CRC (2)`.
    ///
    /// At least one complete block must be recovered; otherwise the timeout is propagated unchanged.
    pub fn read_fast_read_response_deadline(&mut self, deadline: &Port::Instant, block_data_lens: &[u16]) -> (r: Result<
        Packet<'_>,
        ReadError<Port::Error>,
    >)
        requires
            old(self).wf(),
        ensures
            final(self).wf(),
            final(self).spec_baud_rate() == old(self).spec_baud_rate(),
            final(self).spec_write_capacity() == old(self).spec_write_capacity(),
            final(self).spec_read_capacity() == old(self).spec_read_capacity(),
            final(self).spec_sent() == old(self).spec_sent(),
            r matches Ok(p) ==> spec_read_packet(p.data@, false),
            r matches Err(ReadError::BufferFull(e)) ==> e.total_size == old(self).spec_read_capacity()
                && e.required_size > e.total_size,
            r matches Err(ReadError::InvalidMessage(InvalidMessage::InvalidChecksum(c))) ==> c.message != c.computed,
            old(self).spec_read_capacity() < HEADER_SIZE + 3 ==> r is Err && r->Err_0 == spec_read_buffer_too_small::<
                Port::Error,
            >(old(self).spec_read_capacity()),
            final(self).spec_read_timeout() == old(self).spec_read_timeout(),
            Self::spec_received_grows(*old(self), *final(self)),
            old(self).spec_read_capacity() >= HEADER_SIZE + 3 ==> Self::spec_read_outcome(*old(self), *final(self), false, r),
            old(self).spec_read_capacity() >= HEADER_SIZE + 3 ==> Self::spec_salvage_outcome(
                *old(self),
                *final(self),
                block_data_lens@,
                r,
            ),
            r matches Err(ReadError::Timeout) ==> final(self).spec_reads() == old(self).spec_reads() + u64::MAX,
    {
        self.read_packet_deadline_inner(deadline, Some(block_data_lens))
    }

    /// The bytes of `stream` from its first (possibly partial) header prefix on.
    pub open spec fn spec_garbage_free(stream: Seq<u8>) -> Seq<u8> {
        stream.skip(spec_garbage_len(stream) as int)
    }

    /// Read from the serial port until the received bytes hold a whole message, and return its length, and
    /// whether it was salvaged from a fast read response after a timeout. On return the message is at the
    /// front of the read buffer.
    fn receive_message(&mut self, deadline: &Port::Instant, salvage: Option<&[u16]>) -> (r: Result<
        (usize, bool),
        ReadError<Port::Error>,
    >)
        requires
            old(self).wf(),
            old(self).read_buffer@.len() >= HEADER_SIZE + 3,
        ensures
            final(self).wf(),
            final(self).baud_rate == old(self).baud_rate,
            final(self).write_buffer == old(self).write_buffer,
            final(self).read_buffer@.len() == old(self).read_buffer@.len(),
            final(self).sent == old(self).sent,
            final(self).read_timeout == old(self).read_timeout,
            Self::spec_received_grows(*old(self), *final(self)),
            ({
                let message = Self::spec_garbage_free(Self::spec_read_stream(*old(self), *final(self)));
                let read_capacity = old(self).read_buffer@.len();
                &&& r matches Ok((len, salvaged)) ==> {
                    &&& HEADER_SIZE <= len <= final(self).read_len
                    &&& final(self).used_bytes == 0
                    &&& final(self).read_buffer@.take(4) == spec_header_prefix()
                    &&& final(self).read_buffer@.take(final(self).read_len as int) == message
                    &&& (salvage is None ==> !salvaged)
                    &&& (salvaged ==> HEADER_SIZE + 3 <= len)
                    &&& (salvaged ==> spec_scan_message(message, read_capacity) == MessageScan::Incomplete)
                    &&& (salvaged ==> final(self).read_timed_out@)
                    &&& (salvaged ==> (salvage matches Some(lens) && spec_salvaged_len(message.len(), lens@) == Some(
                        len as nat,
                    )))
                    &&& (!salvaged ==> spec_scan_message(message, read_capacity) == (MessageScan::Complete { len }))
                }
                &&& r matches Err(e) ==> {
                    ||| {
                        &&& (e is Io || e is Timeout)
                        &&& spec_scan_message(message, read_capacity) == MessageScan::Incomplete
                        &&& (e is Io && final(self).read_timed_out@ ==> (salvage matches Some(lens) ==> spec_salvaged_len(
                            message.len(),
                            lens@,
                        ) is None))
                    }
                    ||| {
                        &&& spec_scan_message(message, read_capacity) matches MessageScan::TooLarge { required_size }
                        &&& required_size > read_capacity
                        &&& e == ReadError::<Port::Error>::BufferFull(
                            BufferTooSmallError { required_size, total_size: read_capacity as usize },
                        )
                        &&& final(self).spec_pending() == message.skip(HEADER_SIZE as int)
                    }
                }
            }),
            r matches Err(ReadError::Timeout) ==> final(self).reads@ == old(self).reads@ + u64::MAX,
    {
        assert(self.received@.take(self.received@.len() as int) =~= self.received@);
        let ghost start = self.spec_pending();
        let ghost old_received_len = self.received@.len();
        assert(start + self.received@.skip(old_received_len as int) =~= start);
        assert(start.skip(0) =~= start);
        let ghost mut dropped: nat = 0;
        let read_capacity = self.read_buffer.len();
        let mut attempts: u64 = 0;
        let mut stuffed_message_len: usize = 0;
        let mut done = false;
        let mut salvaged = false;
        while !done
            invariant
                self.wf(),
                self.baud_rate == old(self).baud_rate,
                self.write_buffer == old(self).write_buffer,
                self.read_buffer@.len() == old(self).read_buffer@.len(),
                read_capacity == self.read_buffer@.len(),
                self.read_buffer@.len() >= HEADER_SIZE + 3,
                self.sent == old(self).sent,
                self.read_timeout == old(self).read_timeout,
                start == old(self).spec_pending(),
                old_received_len == old(self).received@.len(),
                old_received_len <= self.received@.len(),
                self.received@.take(old_received_len as int) == old(self).received@,
                self.reads@ == old(self).reads@ + attempts,
                !done ==> {
                    let stream = start + self.received@.skip(old_received_len as int);
                    &&& dropped <= stream.len()
                    &&& self.spec_pending() == stream.skip(dropped as int)
                    &&& spec_garbage_len(stream) == dropped + spec_garbage_len(stream.skip(dropped as int))
                },
                done ==> HEADER_SIZE <= stuffed_message_len <= self.read_len,
                done ==> self.used_bytes == 0,
                done ==> self.read_buffer@.take(4) == spec_header_prefix(),
                salvage is None ==> !salvaged,
                salvaged ==> done,
                salvaged ==> HEADER_SIZE + 3 <= stuffed_message_len,
                salvaged ==> spec_scan_message(
                    Self::spec_garbage_free(start + self.received@.skip(old_received_len as int)),
                    read_capacity as nat,
                ) == MessageScan::Incomplete,
                salvaged ==> self.read_timed_out@,
                salvaged ==> (salvage matches Some(lens) && spec_salvaged_len(
                    Self::spec_garbage_free(start + self.received@.skip(old_received_len as int)).len(),
                    lens@,
                ) == Some(stuffed_message_len as nat)),
                done ==> self.read_buffer@.take(self.read_len as int) == Self::spec_garbage_free(
                    start + self.received@.skip(old_received_len as int),
                ),
                done && !salvaged ==> spec_scan_message(
                    Self::spec_garbage_free(start + self.received@.skip(old_received_len as int)),
                    read_capacity as nat,
                ) == (MessageScan::Complete { len: stuffed_message_len }),
            decreases u64::MAX - attempts, if done { 0int } else { 1int },
        {
            let ghost stream = start + self.received@.skip(old_received_len as int);
            self.remove_garbage();
            proof {
                lemma_garbage_len(stream.skip(dropped as int));
                assert(stream.skip(dropped as int).skip(spec_garbage_len(stream.skip(dropped as int)) as int)
                    =~= stream.skip(spec_garbage_len(stream) as int));
                lemma_garbage_len(stream);
                dropped = spec_garbage_len(stream);
            }
            let ghost message = stream.skip(dropped as int);
            assert(self.spec_pending() =~= self.read_buffer@.take(self.read_len as int));
            let scan = scan_message(vstd::slice::slice_subrange(self.read_buffer.as_slice(), 0, self.read_len), read_capacity);
            assert(self.read_buffer@.subrange(0, self.read_len as int) =~= message);
            match scan {
                MessageScan::TooLarge { required_size } => {
                    // The read buffer can not hold the message: drop its header.
                    let ghost buffer_before = self.read_buffer@;
                    let ghost len_before = self.read_len;
                    self.consume_read_bytes(HEADER_SIZE);
                    proof {
                        assert(self.spec_pending() =~= self.read_buffer@.take(self.read_len as int));
                        assert(buffer_before.subrange(HEADER_SIZE as int, len_before as int) =~= message.skip(
                            HEADER_SIZE as int,
                        ));
                        assert(message.skip(HEADER_SIZE as int) =~= stream.skip(dropped + HEADER_SIZE));
                        assert(stream =~= Self::spec_read_stream(*old(self), *self));
                    }
                    return Err(ReadError::BufferFull(BufferTooSmallError { required_size, total_size: read_capacity }));
                },
                MessageScan::Complete { len } => {
                    proof {
                        if self.read_len > 0 {
                            let now = self.read_buffer@.take(self.read_len as int);
                            assert forall|k: int| 0 <= k < 4 implies self.read_buffer@.take(4)[k]
                                == spec_header_prefix()[k] by {
                                assert(now[0 + k] == spec_header_prefix()[k]);
                            }
                        }
                        assert(self.read_buffer@.take(4) =~= spec_header_prefix());
                    }
                    stuffed_message_len = len;
                    done = true;
                },
                MessageScan::Incomplete => {
                    // Try to read more data into the buffer.
                    // On a timeout, the salvage policy decides whether to accept a short message or propagate the error.
                    if attempts == u64::MAX {
                        assert(stream =~= Self::spec_read_stream(*old(self), *self));
                        return Err(ReadError::Timeout);
                    }
                    attempts = attempts + 1;
                    let read_len = self.read_len;
                    let ghost before = self.read_buffer@;
                    let capacity = self.read_buffer.len() - read_len;
                    let ghost mut delivered: Seq<u8> = Seq::empty();
                    let result = {
                        let (_head, tail) = self.read_buffer.as_mut_slice().split_at_mut(read_len);
                        assert(tail@.len() == capacity);
                        let result = self.serial_port.read(tail, deadline);
                        proof {
                            delivered = tail@;
                        }
                        assert(result matches Ok(n) ==> n <= capacity);
                        result
                    };
                    assert(self.read_buffer@.take(read_len as int) =~= before.take(read_len as int));
                    assert(self.read_buffer@.skip(read_len as int) =~= delivered);
                    self.reads = Ghost(self.reads@ + 1);
                    match result {
                        Ok(new_data) => {
                            let ghost more = delivered.take(new_data as int);
                            self.received = Ghost(self.received@ + more);
                            self.read_len = read_len + new_data;
                            proof {
                                let stream2 = start + self.received@.skip(old_received_len as int);
                                assert(self.received@.take(old_received_len as int) =~= old(self).received@);
                                assert(stream2 =~= stream + more);
                                lemma_garbage_extend(stream, more);
                                assert(self.spec_pending() =~= stream2.skip(dropped as int));
                            }
                        },
                        Err(e) => {
                            let timed_out = Port::is_timeout_error(&e);
                            self.read_timed_out = Ghost(timed_out);
                            assert(stream =~= Self::spec_read_stream(*old(self), *self));
                            if timed_out {
                                match salvage {
                                    Some(block_data_lens) => match salvaged_message_len(self.read_len, block_data_lens) {
                                        Some(len) => {
                                            proof {
                                                let now = self.read_buffer@.take(self.read_len as int);
                                                assert forall|k: int| 0 <= k < 4 implies self.read_buffer@.take(4)[k]
                                                    == spec_header_prefix()[k] by {
                                                    assert(now[0 + k] == spec_header_prefix()[k]);
                                                }
                                                assert(self.read_buffer@.take(4) =~= spec_header_prefix());
                                            }
                                            stuffed_message_len = len;
                                            salvaged = true;
                                            done = true;
                                        },
                                        None => return Err(ReadError::Io(e)),
                                    },
                                    None => return Err(ReadError::Io(e)),
                                }
                            } else {
                                return Err(ReadError::Io(e));
                            }
                        },
                    }
                },
            }
        }
        proof {
            let stream = start + self.received@.skip(old_received_len as int);
            assert(stream =~= Self::spec_read_stream(*old(self), *self));
        }
        Ok((stuffed_message_len, salvaged))
    }

    /// Read a raw packet from the bus with the given deadline, deciding how to react to a read timeout.
    ///
    /// With `salvage` set to the block data lengths of a fast read, a timeout accepts the received bytes up to
    /// the end of the last complete motor block as a (short) message; otherwise the timeout is propagated.
    ///
    /// The serial port is read at most `u64::MAX` times; a read that would need more attempts reports
    /// [`ReadError::Timeout`].
    #[verifier::spinoff_prover]
    #[verifier::rlimit(60)]
    fn read_packet_deadline_inner(&mut self, deadline: &Port::Instant, salvage: Option<&[u16]>) -> (r: Result<
        Packet<'_>,
        ReadError<Port::Error>,
    >)
        requires
            old(self).wf(),
        ensures
            final(self).wf(),
            final(self).spec_baud_rate() == old(self).spec_baud_rate(),
            final(self).spec_write_capacity() == old(self).spec_write_capacity(),
            final(self).spec_read_capacity() == old(self).spec_read_capacity(),
            final(self).spec_sent() == old(self).spec_sent(),
            final(self).spec_read_timeout() == old(self).spec_read_timeout(),
            Self::spec_received_grows(*old(self), *final(self)),
            r matches Ok(p) ==> spec_read_packet(p.data@, salvage is None),
            r matches Err(ReadError::BufferFull(e)) ==> e.total_size == old(self).spec_read_capacity()
                && e.required_size > e.total_size,
            r matches Err(ReadError::InvalidMessage(InvalidMessage::InvalidChecksum(c))) ==> c.message != c.computed,
            old(self).spec_read_capacity() < HEADER_SIZE + 3 ==> r is Err && r->Err_0 == spec_read_buffer_too_small::<
                Port::Error,
            >(old(self).spec_read_capacity()),
            old(self).spec_read_capacity() >= HEADER_SIZE + 3 ==> Self::spec_read_outcome(
                *old(self),
                *final(self),
                salvage is None,
                r,
            ),
            r matches Err(ReadError::Timeout) ==> final(self).spec_reads() == old(self).spec_reads() + u64::MAX,
            salvage matches Some(lens) ==> (old(self).spec_read_capacity() >= HEADER_SIZE + 3
                ==> Self::spec_salvage_outcome(*old(self), *final(self), lens@, r)),
    {
        assert(self.received@.take(self.received@.len() as int) =~= self.received@);
        // Check that the read buffer is large enough to hold atleast a instruction packet with 0 parameters.
        if let Err(e) = BufferTooSmallError::check(HEADER_SIZE + 3, self.read_buffer.len()) {
            return Err(ReadError::BufferFull(e));
        }
        let ghost start = self.spec_pending();
        let ghost old_received_len = self.received@.len();
        let (stuffed_message_len, salvaged) = match self.receive_message(deadline, salvage) {
            Ok(received) => received,
            Err(e) => {
                proof {
                    let stream = Self::spec_read_stream(*old(self), *self);
                    let message = Self::spec_garbage_free(stream);
                    lemma_garbage_len(stream);
                    if spec_scan_message(message, self.read_buffer@.len() as nat) is TooLarge {
                        assert(message.skip(HEADER_SIZE as int) =~= stream.skip(spec_garbage_len(stream) + HEADER_SIZE));
                    }
                }
                return Err(e);
            },
        };
        let message_len = stuffed_message_len;
        let ghost stream = start + self.received@.skip(old_received_len as int);
        let ghost used = spec_garbage_len(stream) + message_len;
        let ghost message = self.read_buffer@.take(message_len as int);
        proof {
            lemma_garbage_len(stream);
            let g = spec_garbage_len(stream) as int;
            assert(message =~= stream.skip(g).take(message_len as int));
            assert(self.read_buffer@.subrange(message_len as int, self.read_len as int) =~= self.read_buffer@.take(
                self.read_len as int,
            ).skip(message_len as int));
            assert(stream.skip(g).skip(message_len as int) =~= stream.skip(used as int));
        }
        let checked = check_message(vstd::slice::slice_subrange(self.read_buffer.as_slice(), 0, message_len));
        if let Err(e) = checked {
            self.consume_read_bytes(message_len);
            assert(self.spec_pending() =~= self.read_buffer@.take(self.read_len as int));
            return Err(e);
        }
        let parameters_end = message_len - 2;
        proof {
            assert(message.take(4) =~= self.read_buffer@.take(4));
            assert(spec_checked_message(message));
            if !salvaged {
                let free = Self::spec_garbage_free(stream);
                assert(message.subrange(5, 7) =~= free.subrange(5, 7));
            }
        }

        // Mark the whole message as "used_bytes", so that the next call to `remove_garbage()` removes it.
        self.used_bytes = self.used_bytes + message_len;

        // Remove byte-stuffing from the everything from instruction ID to the parameters.
        let ghost body = self.read_buffer@.subrange(HEADER_SIZE as int, parameters_end as int);
        let ghost header = self.read_buffer@.take(HEADER_SIZE as int);
        let ghost unread = self.read_buffer@.subrange(message_len as int, self.read_len as int);
        let parameter_count = {
            let (_head, rest) = self.read_buffer.as_mut_slice().split_at_mut(HEADER_SIZE);
            let (body_slice, _tail) = rest.split_at_mut(parameters_end - HEADER_SIZE);
            assert(body_slice@ =~= body);
            unstuff_inplace(body_slice)
        };
        proof {
            lemma_unstuff_len_ge_one(body);
            crate::bus::bytestuff::lemma_unstuff_len_le(body);
            assert(self.read_buffer@.take(HEADER_SIZE + parameter_count) =~= header + spec_unstuff(body));
            assert(message.take(HEADER_SIZE as int) =~= header);
            assert(message.subrange(HEADER_SIZE as int, message.len() - 2) =~= body);
            assert(self.spec_pending() =~= unread);
        }

        // Wrap the data in a `Packet`.
        let data = vstd::slice::slice_subrange(self.read_buffer.as_slice(), 0, HEADER_SIZE + parameter_count);
        let packet = Packet { data };

        // Ensure that status packets have an error field (included in parameter_count here).
        if packet.instruction_id() == instruction_id::STATUS && parameter_count < 2 {
            return Err(ReadError::InvalidMessage(InvalidMessage::InvalidParameterCount(InvalidParameterCount {
                actual: 0,
                expected: ExpectedCount::Min(1),
            })));
        }
        assert(packet.data@ == spec_decode_message(message));
        assert(salvage is None ==> spec_valid_message(message));
        Ok(packet)
    }

    /// Write an instruction message to the bus, with parameters produced by an encoder.
    ///
    /// The write buffer is first checked to hold the unstuffed message; then `encode_parameters` fills the
    /// `parameter_count` parameters, starting from zeros, and the message is framed and sent as by
    /// [`Self::write_packet_bytes`]. An error of the encoder is returned as it is.
    ///
    /// A slice keeps its length, but the contract of a closure does not say so: what is said of the frame
    /// holds for encoded parameters of `parameter_count` bytes.
    pub fn write_instruction<F>(
        &mut self,
        packet_id: u8,
        instruction_id: u8,
        parameter_count: usize,
        encode_parameters: F,
    ) -> (r: Result<(), WriteError<Port::Error>>) where F: FnOnce(&mut [u8]) -> Result<(), BufferTooSmallError>
        requires
            old(self).wf(),
            forall|buffer: &mut [u8]| #[trigger] encode_parameters.requires((buffer,)),
            parameter_count + 16 <= usize::MAX,
        ensures
            final(self).wf(),
            final(self).spec_baud_rate() == old(self).spec_baud_rate(),
            final(self).spec_write_capacity() == old(self).spec_write_capacity(),
            final(self).spec_read_capacity() == old(self).spec_read_capacity(),
            HEADER_SIZE + 3 + parameter_count > old(self).spec_write_capacity() ==> r == Err::<(), WriteError<Port::Error>>(
                WriteError::BufferTooSmall(BufferTooSmallError {
                    required_size: (HEADER_SIZE + 3 + parameter_count) as usize,
                    total_size: old(self).spec_write_capacity() as usize,
                }),
            ),
            final(self).spec_received() == old(self).spec_received(),
            final(self).spec_read_timeout() == old(self).spec_read_timeout(),
            r is Ok ==> final(self).spec_pending() == Seq::<u8>::empty(),
            r is Ok ==> exists|parameters: Seq<u8>| #![trigger spec_frame(packet_id, instruction_id, parameters)]
                {
                    &&& parameters.len() == parameter_count
                    &&& final(self).spec_sent() == spec_frame(packet_id, instruction_id, parameters)
                },
            HEADER_SIZE + 3 + parameter_count <= old(self).spec_write_capacity() ==> exists|
                buffer: &mut [u8],
                encoded: Result<(), BufferTooSmallError>,
            |
                #![trigger call_ensures(encode_parameters, (buffer,), encoded)]
                {
                    &&& call_ensures(encode_parameters, (buffer,), encoded)
                    &&& buffer@ == Seq::new(parameter_count as nat, |i: int| 0u8)
                    &&& match encoded {
                        Err(e) => r == Err::<(), WriteError<Port::Error>>(WriteError::BufferTooSmall(e)),
                        Ok(_) => final(buffer)@.len() == parameter_count ==> {
                            let frame = spec_frame(packet_id, instruction_id, final(buffer)@);
                            &&& (r matches Err(WriteError::BufferTooSmall(_))) <==> frame.len()
                                > old(self).spec_write_capacity()
                            &&& (r is Ok || r matches Err(WriteError::Write(_))) ==> final(self).spec_sent() == frame
                        },
                    }
                },
    {
        let total = message_limit(self.write_buffer.len());
        if let Err(e) = BufferTooSmallError::check(InstructionPacket::message_len(parameter_count), total) {
            return Err(WriteError::BufferTooSmall(e));
        }
        let mut parameters: Vec<u8> = vec![0u8; parameter_count];
        assert(parameters@ =~= Seq::new(parameter_count as nat, |i: int| 0u8));
        let slice = parameters.as_mut_slice();
        let ghost initial = slice@;
        let encoded = encode_parameters(slice);
        assert(exists|b: &mut [u8]| call_ensures(encode_parameters, (b,), encoded) && final(b)@ == final(slice)@ && b@ == initial);
        let ghost b = choose|b: &mut [u8]| call_ensures(encode_parameters, (b,), encoded) && final(b)@ == final(slice)@ && b@ == initial;
        if let Err(e) = encoded {
            assert(call_ensures(encode_parameters, (b,), encoded));
            return Err(WriteError::BufferTooSmall(e));
        }
        assert(parameters@ == final(slice)@);
        // The encoder works on a slice, so the parameters keep their length.
        let ghost encoded_parameters = parameters@;
        parameters.resize(parameter_count, 0);
        assert(encoded_parameters.len() == parameter_count ==> parameters@ =~= encoded_parameters);
        let result = self.write_packet_bytes(packet_id, instruction_id, parameters.as_slice());
        assert(final(b)@.len() == parameter_count ==> parameters@ == final(b)@);
        result
    }

    /// Write a status message with the given error field and parameters to the bus.
    pub fn write_status_bytes(&mut self, packet_id: u8, error: u8, parameters: &[u8]) -> (r: Result<(), WriteError<Port::Error>>)
        requires
            old(self).wf(),
            parameters@.len() + 16 <= usize::MAX,
        ensures
            final(self).wf(),
            final(self).spec_baud_rate() == old(self).spec_baud_rate(),
            final(self).spec_write_capacity() == old(self).spec_write_capacity(),
            final(self).spec_read_capacity() == old(self).spec_read_capacity(),
            (r matches Err(WriteError::BufferTooSmall(_))) <==> spec_frame(
                packet_id,
                instruction_id::STATUS,
                seq![error] + parameters@,
            ).len() > old(self).spec_write_capacity(),
            r is Ok ==> final(self).spec_sent() == spec_frame(packet_id, instruction_id::STATUS, seq![error] + parameters@),
    {
        let mut body: Vec<u8> = Vec::new();
        body.push(error);
        let mut i: usize = 0;
        while i < parameters.len()
            invariant
                i <= parameters@.len(),
                body@ == seq![error] + parameters@.take(i as int),
            decreases parameters@.len() - i,
        {
            body.push(parameters[i]);
            i = i + 1;
            assert(body@ =~= seq![error] + parameters@.take(i as int));
        }
        assert(parameters@.take(i as int) =~= parameters@);
        self.write_packet_bytes(packet_id, instruction_id::STATUS, body.as_slice())
    }

    /// Write a status message to the bus, with parameters produced by an encoder.
    ///
    /// The write buffer is first checked to hold the unstuffed status message; then `encode_parameters` fills the
    /// `parameter_count` parameters, and the message is framed and sent as by [`Self::write_status_bytes`].
    pub fn write_status<F>(
        &mut self,
        packet_id: u8,
        error: u8,
        parameter_count: usize,
        encode_parameters: F,
    ) -> (r: Result<(), WriteError<Port::Error>>) where F: FnOnce(&mut [u8]) -> Result<(), BufferTooSmallError>
        requires
            old(self).wf(),
            forall|buffer: &mut [u8]| #[trigger] encode_parameters.requires((buffer,)),
            parameter_count + 16 <= usize::MAX,
        ensures
            final(self).wf(),
            final(self).spec_baud_rate() == old(self).spec_baud_rate(),
            final(self).spec_write_capacity() == old(self).spec_write_capacity(),
            final(self).spec_read_capacity() == old(self).spec_read_capacity(),
            HEADER_SIZE + 4 + parameter_count > old(self).spec_write_capacity() ==> r == Err::<(), WriteError<Port::Error>>(
                WriteError::BufferTooSmall(BufferTooSmallError {
                    required_size: (HEADER_SIZE + 4 + parameter_count) as usize,
                    total_size: old(self).spec_write_capacity() as usize,
                }),
            ),
            r is Ok ==> exists|parameters: Seq<u8>| #![trigger spec_frame(packet_id, instruction_id::STATUS, seq![error] + parameters)]
                {
                    &&& parameters.len() == parameter_count
                    &&& final(self).spec_sent() == spec_frame(packet_id, instruction_id::STATUS, seq![error] + parameters)
                },
            HEADER_SIZE + 4 + parameter_count <= old(self).spec_write_capacity() ==> exists|
                buffer: &mut [u8],
                encoded: Result<(), BufferTooSmallError>,
            |
                #![trigger call_ensures(encode_parameters, (buffer,), encoded)]
                {
                    &&& call_ensures(encode_parameters, (buffer,), encoded)
                    &&& buffer@ == Seq::new(parameter_count as nat, |i: int| 0u8)
                    &&& match encoded {
                        Err(e) => r == Err::<(), WriteError<Port::Error>>(WriteError::BufferTooSmall(e)),
                        Ok(_) => final(buffer)@.len() == parameter_count ==> {
                            let frame = spec_frame(packet_id, instruction_id::STATUS, seq![error] + final(buffer)@);
                            &&& (r matches Err(WriteError::BufferTooSmall(_))) <==> frame.len()
                                > old(self).spec_write_capacity()
                            &&& r is Ok ==> final(self).spec_sent() == frame
                        },
                    }
                },
    {
        let total = message_limit(self.write_buffer.len());
        if let Err(e) = BufferTooSmallError::check(StatusPacket::message_len(parameter_count), total) {
            return Err(WriteError::BufferTooSmall(e));
        }
        let mut parameters: Vec<u8> = vec![0u8; parameter_count];
        assert(parameters@ =~= Seq::new(parameter_count as nat, |i: int| 0u8));
        let slice = parameters.as_mut_slice();
        let ghost initial = slice@;
        let encoded = encode_parameters(slice);
        assert(exists|b: &mut [u8]| call_ensures(encode_parameters, (b,), encoded) && final(b)@ == final(slice)@ && b@ == initial);
        let ghost b = choose|b: &mut [u8]| call_ensures(encode_parameters, (b,), encoded) && final(b)@ == final(slice)@ && b@ == initial;
        if let Err(e) = encoded {
            assert(call_ensures(encode_parameters, (b,), encoded));
            return Err(WriteError::BufferTooSmall(e));
        }
        assert(parameters@ == final(slice)@);
        // The encoder works on a slice, so the parameters keep their length.
        let ghost encoded_parameters = parameters@;
        parameters.resize(parameter_count, 0);
        assert(encoded_parameters.len() == parameter_count ==> parameters@ =~= encoded_parameters);
        let result = self.write_status_bytes(packet_id, error, parameters.as_slice());
        assert(final(b)@.len() == parameter_count ==> parameters@ == final(b)@);
        result
    }

    /// Read a raw status response from the bus with the given timeout.
    ///
    /// The response must be a status packet without a motor error.
    pub fn read_status_response_timeout(&mut self, timeout: Duration) -> (r: Result<StatusPacket<'_>, ReadError<Port::Error>>)
        requires
            old(self).wf(),
        ensures
            final(self).wf(),
            final(self).spec_baud_rate() == old(self).spec_baud_rate(),
            final(self).spec_write_capacity() == old(self).spec_write_capacity(),
            final(self).spec_read_capacity() == old(self).spec_read_capacity(),
            final(self).spec_sent() == old(self).spec_sent(),
            r matches Ok(s) ==> s.wf() && spec_status_ok(s.spec_data()),
            old(self).spec_read_capacity() < HEADER_SIZE + 3 ==> r is Err && r->Err_0 == spec_read_buffer_too_small::<
                Port::Error,
            >(old(self).spec_read_capacity()),
            final(self).spec_read_timeout() == Some(timeout),
            Self::spec_received_grows(*old(self), *final(self)),
            old(self).spec_read_capacity() >= HEADER_SIZE + 3 ==> Self::spec_status_outcome(*old(self), *final(self), r),
            r matches Err(ReadError::Timeout) ==> final(self).spec_reads() == old(self).spec_reads() + u64::MAX,
    {
        let deadline = self.make_read_deadline(timeout);
        let packet = match self.read_packet_deadline(&deadline) {
            Ok(packet) => packet,
            Err(e) => return Err(e),
        };
        check_status(packet)
    }

    /// Read a raw status response with an automatically calculated timeout.
    ///
    /// The read timeout is determined by the expected number of response parameters and the baud rate of the bus:
    /// the time to transfer the status message, plus a flat 34 milliseconds like the official SDK.
    pub fn read_status_response(&mut self, expected_parameters: u16) -> (r: Result<StatusPacket<'_>, ReadError<Port::Error>>)
        requires
            old(self).wf(),
            old(self).spec_baud_rate() > 0,
        ensures
            final(self).wf(),
            final(self).spec_baud_rate() == old(self).spec_baud_rate(),
            final(self).spec_write_capacity() == old(self).spec_write_capacity(),
            final(self).spec_read_capacity() == old(self).spec_read_capacity(),
            final(self).spec_sent() == old(self).spec_sent(),
            r matches Ok(s) ==> s.wf() && spec_status_ok(s.spec_data()),
            old(self).spec_read_capacity() < HEADER_SIZE + 3 ==> r is Err && r->Err_0 == spec_read_buffer_too_small::<
                Port::Error,
            >(old(self).spec_read_capacity()),
            final(self).spec_read_timeout() == Some(spec_status_timeout(expected_parameters, old(self).spec_baud_rate())),
            Self::spec_received_grows(*old(self), *final(self)),
            old(self).spec_read_capacity() >= HEADER_SIZE + 3 ==> Self::spec_status_outcome(*old(self), *final(self), r),
            r matches Err(ReadError::Timeout) ==> final(self).spec_reads() == old(self).spec_reads() + u64::MAX,
    {
        let timeout = status_timeout(expected_parameters, self.baud_rate);
        self.read_status_response_timeout(timeout)
    }

    /// Write an instruction with the given parameters, and read a single status response.
    ///
    /// This function also checks that the packet ID of the status response matches the one from the instruction.
    pub fn transfer_single_bytes(
        &mut self,
        packet_id: u8,
        instruction_id: u8,
        parameters: &[u8],
        expected_response_parameters: u16,
    ) -> (r: Result<StatusPacket<'_>, TransferError<Port::Error>>)
        requires
            old(self).wf(),
            old(self).spec_baud_rate() > 0,
            parameters@.len() + 16 <= usize::MAX,
        ensures
            final(self).wf(),
            final(self).spec_baud_rate() == old(self).spec_baud_rate(),
            final(self).spec_write_capacity() == old(self).spec_write_capacity(),
            final(self).spec_read_capacity() == old(self).spec_read_capacity(),
            (r matches Err(TransferError::WriteError(WriteError::BufferTooSmall(_)))) <==> spec_frame(
                packet_id,
                instruction_id,
                parameters@,
            ).len() > old(self).spec_write_capacity(),
            !(r matches Err(TransferError::WriteError(_))) ==> final(self).spec_sent() == spec_frame(packet_id, instruction_id, parameters@),
            r matches Ok(s) ==> s.wf() && spec_status_ok(s.spec_data()) && s.spec_data()[4] == packet_id,
            Self::spec_received_grows(*old(self), *final(self)),
            !(r matches Err(TransferError::WriteError(_))) && old(self).spec_read_capacity() >= HEADER_SIZE + 3
                ==> Self::spec_transfer_outcome(*old(self), *final(self), packet_id, r),
    {
        if let Err(e) = self.write_packet_bytes(packet_id, instruction_id, parameters) {
            assert(self.received@.take(self.received@.len() as int) =~= self.received@);
            return Err(TransferError::WriteError(e));
        }
        let ghost mid = *self;
        assert(mid.spec_pending() + self.spec_received().skip(old(self).spec_received().len() as int)
            =~= self.spec_received().skip(old(self).spec_received().len() as int));
        let response = match self.read_status_response(expected_response_parameters) {
            Ok(response) => response,
            Err(e) => return Err(TransferError::ReadError(e)),
        };
        match InvalidPacketId::check(response.packet_id(), packet_id) {
            Ok(()) => Ok(response),
            Err(e) => Err(TransferError::ReadError(ReadError::InvalidMessage(InvalidMessage::InvalidPacketId(e)))),
        }
    }

    /// Write a raw instruction, with parameters produced by an encoder, and read a single raw response.
    ///
    /// This function also checks that the packet ID of the status response matches the one from the instruction.
    ///
    /// This is not suitable for broadcast instructions.
    /// For broadcast instructions, each motor sends an individual response or no response is send at all.
    /// Instead, use [`Self::write_instruction`] and [`Self::read_status_response`].
    pub fn transfer_single<F>(
        &mut self,
        packet_id: u8,
        instruction_id: u8,
        parameter_count: usize,
        expected_response_parameters: u16,
        encode_parameters: F,
    ) -> (r: Result<StatusPacket<'_>, TransferError<Port::Error>>) where
        F: FnOnce(&mut [u8]) -> Result<(), BufferTooSmallError>,
        requires
            old(self).wf(),
            old(self).spec_baud_rate() > 0,
            forall|buffer: &mut [u8]| #[trigger] encode_parameters.requires((buffer,)),
            parameter_count + 16 <= usize::MAX,
        ensures
            final(self).wf(),
            final(self).spec_baud_rate() == old(self).spec_baud_rate(),
            final(self).spec_write_capacity() == old(self).spec_write_capacity(),
            final(self).spec_read_capacity() == old(self).spec_read_capacity(),
            r is Ok ==> exists|parameters: Seq<u8>| #![trigger spec_frame(packet_id, instruction_id, parameters)]
                {
                    &&& parameters.len() == parameter_count
                    &&& final(self).spec_sent() == spec_frame(packet_id, instruction_id, parameters)
                },
            r matches Ok(s) ==> s.wf() && spec_status_ok(s.spec_data()) && s.spec_data()[4] == packet_id,
            HEADER_SIZE + 3 + parameter_count > old(self).spec_write_capacity() ==> r is Err && r->Err_0
                == TransferError::<Port::Error>::WriteError(
                WriteError::BufferTooSmall(
                    BufferTooSmallError {
                        required_size: (HEADER_SIZE + 3 + parameter_count) as usize,
                        total_size: old(self).spec_write_capacity() as usize,
                    },
                ),
            ),
            old(self).spec_read_capacity() < HEADER_SIZE + 3 ==> r is Err,
            old(self).spec_read_capacity() < HEADER_SIZE + 3 ==> (r matches Err(TransferError::ReadError(e)) ==> e
                == spec_read_buffer_too_small::<Port::Error>(old(self).spec_read_capacity())),
            Self::spec_received_grows(*old(self), *final(self)),
            !(r matches Err(TransferError::WriteError(_))) && old(self).spec_read_capacity() >= HEADER_SIZE + 3
                ==> Self::spec_transfer_outcome(*old(self), *final(self), packet_id, r),
            HEADER_SIZE + 3 + parameter_count <= old(self).spec_write_capacity() ==> exists|
                buffer: &mut [u8],
                encoded: Result<(), BufferTooSmallError>,
            |
                #![trigger call_ensures(encode_parameters, (buffer,), encoded)]
                {
                    &&& call_ensures(encode_parameters, (buffer,), encoded)
                    &&& buffer@ == Seq::new(parameter_count as nat, |i: int| 0u8)
                    &&& match encoded {
                        Err(e) => r == Err::<StatusPacket<'_>, TransferError<Port::Error>>(
                            TransferError::WriteError(WriteError::BufferTooSmall(e)),
                        ),
                        Ok(_) => final(buffer)@.len() == parameter_count ==> {
                            let frame = spec_frame(packet_id, instruction_id, final(buffer)@);
                            &&& (r matches Err(TransferError::WriteError(WriteError::BufferTooSmall(_)))) <==> frame.len()
                                > old(self).spec_write_capacity()
                            &&& (!(r matches Err(TransferError::WriteError(_))) || r matches Err(
                                TransferError::WriteError(WriteError::Write(_)),
                            )) ==> final(self).spec_sent() == frame
                        },
                    }
                },
    {
        if let Err(e) = self.write_instruction(packet_id, instruction_id, parameter_count, encode_parameters) {
            assert(self.received@.take(self.received@.len() as int) =~= self.received@);
            return Err(TransferError::WriteError(e));
        }
        let ghost mid = *self;
        assert(mid.spec_pending() + self.spec_received().skip(old(self).spec_received().len() as int)
            =~= self.spec_received().skip(old(self).spec_received().len() as int));
        let response = match self.read_status_response(expected_response_parameters) {
            Ok(response) => response,
            Err(e) => return Err(TransferError::ReadError(e)),
        };
        match InvalidPacketId::check(response.packet_id(), packet_id) {
            Ok(()) => Ok(response),
            Err(e) => Err(TransferError::ReadError(ReadError::InvalidMessage(InvalidMessage::InvalidPacketId(e)))),
        }
    }
}

/// The result of a read is the expected one: the packet data, or the error.
pub open spec fn spec_read_result_is<E>(r: Result<Packet<'_>, ReadError<E>>, expected: Result<Seq<u8>, ReadError<E>>) -> bool {
    match r {
        Ok(p) => expected == Ok::<Seq<u8>, ReadError<E>>(p.data@),
        Err(e) => expected == Err::<Seq<u8>, ReadError<E>>(e),
    }
}

/// The error of a read into a read buffer too small for even the smallest message.
pub open spec fn spec_read_buffer_too_small<E>(capacity: nat) -> ReadError<E> {
    ReadError::BufferFull(BufferTooSmallError { required_size: (HEADER_SIZE + 3) as usize, total_size: capacity as usize })
}

/// Write the header and the unstuffed instruction ID and parameters into `buffer`.
fn put_header_and_parameters(buffer: &mut Vec<u8>, packet_id: u8, instruction_id: u8, parameters: &[u8])
    requires
        old(buffer)@.take(4) == spec_header_prefix(),
        HEADER_SIZE + 3 + parameters@.len() <= old(buffer)@.len(),
    ensures
        final(buffer)@.len() == old(buffer)@.len(),
        final(buffer)@.take(4) == spec_header_prefix(),
        final(buffer)@[4] == packet_id,
        final(buffer)@.subrange(7, 8 + parameters@.len() as int) == seq![instruction_id] + parameters@,
{
    let parameter_count = parameters.len();
    let n = buffer.len();
    buffer.set(4, packet_id);
    buffer.set(5, 0);
    buffer.set(6, 0);
    buffer.set(7, instruction_id);
    let mut i: usize = 0;
    while i < parameter_count
        invariant
            parameter_count == parameters@.len(),
            i <= parameter_count,
            n == buffer@.len(),
            HEADER_SIZE + 3 + parameter_count <= buffer@.len(),
            buffer@.len() == old(buffer)@.len(),
            buffer@.take(4) == spec_header_prefix(),
            buffer@[4] == packet_id,
            buffer@[7] == instruction_id,
            forall|k: int| 0 <= k < i ==> buffer@[8 + k] == parameters@[k],
        decreases parameter_count - i,
    {
        buffer.set(8 + i, parameters[i]);
        i = i + 1;
    }
    assert(buffer@.subrange(7, 8 + parameter_count as int) =~= seq![instruction_id] + parameters@);
}

/// Write the length field of a message with a stuffed body of `stuffed_body_len` bytes.
fn put_length(buffer: &mut Vec<u8>, stuffed_body_len: usize)
    requires
        old(buffer)@.len() >= HEADER_SIZE,
        stuffed_body_len + 2 <= 0xFFFF,
    ensures
        final(buffer)@ == old(buffer)@.take(5) + spec_le_bytes((stuffed_body_len + 2) as nat, 2) + old(buffer)@.skip(7),
{
    let buffer = buffer.as_mut_slice();
    let (_head, tail) = buffer.split_at_mut(5);
    write_u16_le(tail, (stuffed_body_len + 2) as u16);
}

/// Write the checksum of the first `checksum_index` bytes right after them.
fn put_checksum(buffer: &mut Vec<u8>, checksum_index: usize)
    requires
        checksum_index + 2 <= old(buffer)@.len(),
    ensures
        final(buffer)@ == old(buffer)@.take(checksum_index as int) + spec_le_bytes(
            spec_checksum(0, old(buffer)@.take(checksum_index as int)) as nat,
            2,
        ) + old(buffer)@.skip(checksum_index + 2),
{
    let checksum = calculate_checksum(0, vstd::slice::slice_subrange(buffer.as_slice(), 0, checksum_index));
    assert(buffer@.subrange(0, checksum_index as int) =~= buffer@.take(checksum_index as int));
    let buffer = buffer.as_mut_slice();
    let (_head, tail) = buffer.split_at_mut(checksum_index);
    write_u16_le(tail, checksum);
}

/// Frame a message with the given contents at the front of `buffer`, and return its length.
///
/// Fails if the message does not fit in the buffer: first checked for the unstuffed message,
/// then for the stuffed message.
fn frame_into(buffer: &mut Vec<u8>, packet_id: u8, instruction_id: u8, parameters: &[u8]) -> (r: Result<
    usize,
    BufferTooSmallError,
>)
    requires
        HEADER_SIZE + 3 <= old(buffer)@.len(),
        old(buffer)@.take(4) == spec_header_prefix(),
        parameters@.len() + 12 <= usize::MAX,
    ensures
        final(buffer)@.len() == old(buffer)@.len(),
        final(buffer)@.take(4) == spec_header_prefix(),
        ({
            let frame = spec_frame(packet_id, instruction_id, parameters@);
            let total = spec_message_limit(old(buffer)@.len());
            &&& (r is Err <==> frame.len() > total)
            &&& (r matches Err(e) ==> {
                &&& e.total_size == total
                &&& e.required_size == (if HEADER_SIZE + 3 + parameters@.len() > total {
                    HEADER_SIZE + 3 + parameters@.len()
                } else {
                    frame.len() as int
                })
            })
            &&& (r matches Ok(n) ==> n == frame.len() && final(buffer)@.take(n as int) == frame)
        }),
{
    let ghost frame = spec_frame(packet_id, instruction_id, parameters@);
    let ghost body = spec_body(instruction_id, parameters@);
    proof {
        lemma_frame_len(packet_id, instruction_id, parameters@);
        lemma_stuff_len(seq![instruction_id] + parameters@);
    }
    let total = message_limit(buffer.len());
    let parameter_count = parameters.len();

    // Check if the buffer can hold the unstuffed message.
    BufferTooSmallError::check(InstructionPacket::message_len(parameter_count), total)?;

    // Add the header, with a placeholder for the length field.
    put_header_and_parameters(buffer, packet_id, instruction_id, parameters);

    // Check if the buffer can hold the stuffed message.
    let stuffing = crate::bus::bytestuff::stuffing_required(
        vstd::slice::slice_subrange(buffer.as_slice(), HEADER_SIZE, HEADER_SIZE + 1 + parameter_count),
    );
    proof {
        crate::bus::bytestuff::lemma_stuffing_count_bound(
            buffer@.subrange(HEADER_SIZE as int, HEADER_SIZE + 1 + parameter_count),
        );
    }
    let stuffed_body_len = 1 + parameter_count + stuffing;
    let message_len = HEADER_SIZE + stuffed_body_len + 2;
    BufferTooSmallError::check(message_len, total)?;

    // Perform bitstuffing on the body.
    // The header never needs stuffing.
    // However, strictly following the spec, the instruction ID might need stuffing.
    {
        let slice = buffer.as_mut_slice();
        let (_head, tail) = slice.split_at_mut(HEADER_SIZE);
        assert(tail@.take(1 + parameter_count as int) =~= seq![instruction_id] + parameters@);
        let stuffed = stuff_inplace(tail, 1 + parameter_count);
        assert(stuffed == Ok::<usize, ()>(stuffed_body_len));
    }
    assert(buffer@.subrange(7, 7 + stuffed_body_len as int) =~= body);
    assert(buffer@.take(4) =~= spec_header_prefix());
    assert(buffer@[4] == packet_id);
    let ghost head = spec_header(packet_id, body.len() + 2);
    proof {
        crate::bus::endian::lemma_le_bytes_len(body.len() + 2, 2);
    }
    let ghost before_length = buffer@;

    // Write the length field.
    put_length(buffer, stuffed_body_len);
    assert(buffer@.take(7) =~= head);
    assert(buffer@.subrange(7, 7 + stuffed_body_len as int) =~= body);
    assert(buffer@.take(HEADER_SIZE + stuffed_body_len) =~= head + body);

    // Add checksum.
    put_checksum(buffer, HEADER_SIZE + stuffed_body_len);
    assert(buffer@.take(message_len as int) =~= frame);
    assert(buffer@.take(4) =~= spec_header_prefix());
    Ok(message_len)
}

/// The packet data is the de-stuffed content of a message with a valid checksum, which is complete if
/// `complete` is set; it holds the instruction ID, and a status packet also holds the error field.
pub open spec fn spec_read_packet(data: Seq<u8>, complete: bool) -> bool {
    &&& exists|message: Seq<u8>| {
        &&& spec_checked_message(message)
        &&& (complete ==> spec_valid_message(message))
        &&& data == #[trigger] spec_decode_message(message)
    }
    &&& data.len() >= HEADER_SIZE + 1
    &&& data[7] == instruction_id::STATUS ==> data.len() >= HEADER_SIZE + 2
}

/// The end offset of the block of motor `i` in a fast read response:
/// each block is an error field, a motor ID, the data and a checksum.
pub open spec fn spec_block_end(block_data_lens: Seq<u16>, i: int) -> int
    decreases i + 1,
{
    if i < 0 {
        HEADER_SIZE + 1
    } else {
        spec_block_end(block_data_lens, i - 1) + 4 + block_data_lens[i]
    }
}

proof fn lemma_block_end_min(block_data_lens: Seq<u16>, i: int)
    requires
        i >= 0,
    ensures
        spec_block_end(block_data_lens, i) >= HEADER_SIZE + 5,
    decreases i,
{
    if i > 0 {
        lemma_block_end_min(block_data_lens, i - 1);
        lemma_block_end_mono(block_data_lens, -1, i - 1);
    }
    assert(spec_block_end(block_data_lens, -1) == HEADER_SIZE + 1);
}

proof fn lemma_block_end_mono(block_data_lens: Seq<u16>, i: int, j: int)
    requires
        -1 <= i <= j,
    ensures
        spec_block_end(block_data_lens, i) <= spec_block_end(block_data_lens, j),
    decreases j - i,
{
    if i < j {
        lemma_block_end_mono(block_data_lens, i, j - 1);
    }
}

/// The end of the last of the motor blocks `0..=k` that lies within the first `read_len` received bytes, if any.
pub open spec fn spec_last_block_end(block_data_lens: Seq<u16>, read_len: nat, k: int) -> Option<nat>
    decreases k + 1,
{
    if k < 0 {
        None
    } else if spec_block_end(block_data_lens, k) <= read_len {
        Some(spec_block_end(block_data_lens, k) as nat)
    } else {
        spec_last_block_end(block_data_lens, read_len, k - 1)
    }
}

/// The length of the largest prefix of a fast-read response of `read_len` received bytes that ends on a
/// complete motor block, if there is one.
pub open spec fn spec_salvaged_len(read_len: nat, block_data_lens: Seq<u16>) -> Option<nat> {
    spec_last_block_end(block_data_lens, read_len, block_data_lens.len() - 1)
}

proof fn lemma_last_block_end_found(block_data_lens: Seq<u16>, read_len: nat, m: int, k: int)
    requires
        0 <= k <= m < block_data_lens.len(),
        spec_block_end(block_data_lens, k) <= read_len,
        k + 1 == block_data_lens.len() || spec_block_end(block_data_lens, k + 1) > read_len,
    ensures
        spec_last_block_end(block_data_lens, read_len, m) == Some(spec_block_end(block_data_lens, k) as nat),
    decreases m,
{
    lemma_block_end_min(block_data_lens, k);
    if m > k {
        lemma_block_end_mono(block_data_lens, k + 1, m);
        lemma_last_block_end_found(block_data_lens, read_len, m - 1, k);
    }
}

proof fn lemma_last_block_end_none(block_data_lens: Seq<u16>, read_len: nat, m: int)
    requires
        m < block_data_lens.len(),
        m >= 0 ==> spec_block_end(block_data_lens, 0) > read_len,
    ensures
        spec_last_block_end(block_data_lens, read_len, m) is None,
    decreases m + 1,
{
    if m >= 0 {
        lemma_block_end_mono(block_data_lens, 0, m);
        lemma_last_block_end_none(block_data_lens, read_len, m - 1);
    }
}

/// Length of the largest prefix of a fast-read response (within `read_len` received bytes) that ends on a
/// complete motor block.
///
/// Walks the addressed motors in order, summing the wire size of each block, and returns the buffer offset
/// just past the last block that fits entirely within the received bytes. Returns [`None`] if not even one
/// complete block was received.
///
/// The block boundaries are computed as if no byte-stuffing occurred. If stuffing did shift the layout, the
/// trimmed length lands on the wrong byte and the subsequent CRC check fails, so no incorrect data is returned.
pub fn salvaged_message_len(read_len: usize, block_data_lens: &[u16]) -> (r: Option<usize>)
    ensures
        match r {
            None => spec_salvaged_len(read_len as nat, block_data_lens@) is None,
            Some(n) => spec_salvaged_len(read_len as nat, block_data_lens@) == Some(n as nat),
        },
        r matches Some(n) ==> HEADER_SIZE + 5 <= n <= read_len,
{
    let r = last_block_end(read_len, block_data_lens);
    proof {
        let lens = block_data_lens@;
        match r {
            None => lemma_last_block_end_none(lens, read_len as nat, lens.len() - 1),
            Some(n) => {
                let k = choose|k: int| {
                    &&& 0 <= k < lens.len()
                    &&& n == #[trigger] spec_block_end(lens, k)
                    &&& n <= read_len
                    &&& (k + 1 == lens.len() || spec_block_end(lens, k + 1) > read_len)
                };
                lemma_block_end_min(lens, k);
                lemma_last_block_end_found(lens, read_len as nat, lens.len() - 1, k);
            },
        }
    }
    r
}

/// The end of the last motor block that fits within `read_len` received bytes: walks the blocks in order.
fn last_block_end(read_len: usize, block_data_lens: &[u16]) -> (r: Option<usize>)
    ensures
        r is None <==> (block_data_lens@.len() == 0 || spec_block_end(block_data_lens@, 0) > read_len),
        r matches Some(n) ==> exists|k: int| {
            &&& 0 <= k < block_data_lens@.len()
            &&& n == #[trigger] spec_block_end(block_data_lens@, k)
            &&& n <= read_len
            &&& (k + 1 == block_data_lens@.len() || spec_block_end(block_data_lens@, k + 1) > read_len)
        },
{
    let n = block_data_lens.len();
    let mut offset: usize = HEADER_SIZE + 1;
    let mut result: Option<usize> = None;
    let mut i: usize = 0;
    if offset > read_len {
        proof {
            if n > 0 {
                lemma_block_end_min(block_data_lens@, 0);
            }
        }
        return None;
    }
    while i < n
        invariant
            n == block_data_lens@.len(),
            i <= n,
            offset == spec_block_end(block_data_lens@, i - 1),
            offset <= read_len,
            i == 0 ==> result is None,
            i > 0 ==> result == Some(offset),
        decreases n - i,
    {
        let count = block_data_lens[i] as usize;
        if count + 4 > read_len - offset {
            proof {
                if i > 0 {
                    assert(spec_block_end(block_data_lens@, i as int - 1) == offset);
                    lemma_block_end_mono(block_data_lens@, 0, i as int - 1);
                } else {
                    assert(spec_block_end(block_data_lens@, -1) == HEADER_SIZE + 1);
                }
            }
            return result;
        }
        offset = offset + 4 + count;
        result = Some(offset);
        i = i + 1;
    }
    proof {
        if n > 0 {
            assert(spec_block_end(block_data_lens@, n as int - 1) == offset);
            lemma_block_end_mono(block_data_lens@, 0, n as int - 1);
        }
    }
    result
}

/// The de-stuffed form of a non-empty sequence is non-empty.
pub(crate) proof fn lemma_unstuff_len_ge_one(s: Seq<u8>)
    requires
        s.len() >= 1,
    ensures
        spec_unstuff(s).len() >= 1,
    decreases s.len(),
{
    if s.len() > 1 {
        lemma_unstuff_len_ge_one(s.drop_last());
    } else {
        assert(!crate::bus::bytestuff::stuffing_byte_at(s, 0));
    }
}

/// A status response: the de-stuffed content of a complete message with a valid checksum,
/// a status instruction, and an error field without error number.
pub open spec fn spec_status_ok(data: Seq<u8>) -> bool {
    &&& spec_read_packet(data, true)
    &&& data[7] == instruction_id::STATUS
    &&& spec_error_number(data[8]) == 0
}

/// Check that a packet read from the bus is a status packet without a motor error.
///
/// Fails with [`InvalidInstruction`] if the packet is not a status packet, and with a [`MotorError`] if
/// the error number of the status packet is not zero. The alert bit alone is no error.
pub fn check_status<'a, E>(packet: Packet<'a>) -> (r: Result<StatusPacket<'a>, ReadError<E>>)
    requires
        packet.data@.len() >= HEADER_SIZE + 1,
        packet.data@[7] == instruction_id::STATUS ==> packet.data@.len() >= HEADER_SIZE + 2,
    ensures
        r is Ok <==> packet.data@[7] == instruction_id::STATUS && spec_error_number(packet.data@[8]) == 0,
        r matches Ok(s) ==> s.packet == packet && s.wf(),
        packet.data@[7] != instruction_id::STATUS ==> r == Err::<StatusPacket<'a>, ReadError<E>>(
            ReadError::InvalidMessage(InvalidMessage::InvalidInstruction(InvalidInstruction {
                actual: packet.data@[7],
                expected: instruction_id::STATUS,
            })),
        ),
        packet.data@[7] == instruction_id::STATUS && spec_error_number(packet.data@[8]) != 0 ==> r == Err::<
            StatusPacket<'a>,
            ReadError<E>,
        >(ReadError::MotorError(MotorError { raw: packet.data@[8] })),
{
    let status = match packet.as_status() {
        Some(status) => status,
        None => {
            return Err(ReadError::InvalidMessage(InvalidMessage::InvalidInstruction(InvalidInstruction {
                actual: packet.instruction_id(),
                expected: instruction_id::STATUS,
            })));
        },
    };
    match MotorError::check(status.error()) {
        Ok(()) => Ok(status),
        Err(e) => Err(ReadError::MotorError(e)),
    }
}

/// The time to wait for a status response with `expected_parameters` parameters at `baud_rate`:
/// the time to transfer the whole status message, plus a flat 34 milliseconds.
pub open spec fn spec_status_timeout(expected_parameters: u16, baud_rate: u32) -> Duration {
    spec_duration_of_nanos(
        spec_transfer_nanos((HEADER_SIZE + 4 + expected_parameters) as nat, baud_rate as nat) + 34_000_000,
    )
}

/// The time to wait for a status response with `expected_parameters` parameters at `baud_rate`.
pub(crate) fn status_timeout(expected_parameters: u16, baud_rate: u32) -> (d: Duration)
    requires
        baud_rate > 0,
    ensures
        d == spec_status_timeout(expected_parameters, baud_rate),
{
    let message_size = StatusPacket::message_len(expected_parameters as usize) as u32;
    let nanos = transfer_nanos(message_size, baud_rate) + 34_000_000;
    duration_from_nanos(nanos)
}

} // verus!
