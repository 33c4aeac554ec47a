//! The fast bulk read instruction, used to read different data from multiple motors with a single status packet.
use vstd::prelude::*;

use core::marker::PhantomData;

use crate::bus::frame::spec_frame;
use crate::bus::{instruction_id, packet_id};
use crate::client::client::{spec_fast_reply_outcome, spec_status_packet, Client};
use crate::client::instructions::bulk_read::{bulk_read_parameters, spec_bulk_read_parameters, spec_unique_motor_ids};
use crate::client::BulkReadData;
use crate::error::{
    alert_of, spec_alert, spec_error_number, ExpectedCount, InvalidMessage, InvalidPacketId, InvalidParameterCount,
    MotorError, ReadError, TransferError, WriteError,
};
use crate::serial_port::SerialPort;
use crate::Response;

verus! {

/// The number of parameters of a fast bulk read response: each motor block is
/// `error (1) + motor ID (1) + data (count) + CRC (2)`.
pub open spec fn spec_fast_bulk_response_len(reads: Seq<BulkReadData>) -> nat
    decreases reads.len(),
{
    if reads.len() == 0 {
        0
    } else {
        spec_fast_bulk_response_len(reads.drop_last()) + reads.last().count as nat + 4
    }
}

/// Check that the response to a fast bulk read fits in a single status packet, which holds at most a `u16`
/// worth of parameters.
pub fn fast_bulk_response_fits(reads: &[BulkReadData]) -> (r: bool)
    ensures
        r == (spec_fast_bulk_response_len(reads@) <= u16::MAX),
{
    let mut total: u32 = 0;
    let mut i: usize = 0;
    while i < reads.len()
        invariant
            i <= reads@.len(),
            total == spec_fast_bulk_response_len(reads@.take(i as int)),
            total <= u16::MAX,
        decreases reads@.len() - i,
    {
        assert(reads@.take(i + 1).drop_last() =~= reads@.take(i as int));
        total = total + reads[i].count as u32 + 4;
        i = i + 1;
        if total > 0xFFFF {
            proof {
                lemma_fast_bulk_response_len_prefix(reads@, i as int);
            }
            return false;
        }
    }
    assert(reads@.take(i as int) =~= reads@);
    true
}

/// The response length of a prefix of the reads is at most that of all reads.
proof fn lemma_fast_bulk_response_len_prefix(reads: Seq<BulkReadData>, i: int)
    requires
        0 <= i <= reads.len(),
    ensures
        spec_fast_bulk_response_len(reads.take(i)) <= spec_fast_bulk_response_len(reads),
    decreases reads.len() - i,
{
    if i < reads.len() {
        lemma_fast_bulk_response_len_prefix(reads, i + 1);
        assert(reads.take(i + 1).drop_last() =~= reads.take(i));
    } else {
        assert(reads.take(i) =~= reads);
    }
}

/// The number of parameters of a fast bulk read response.
fn fast_bulk_response_len(reads: &[BulkReadData]) -> (r: u16)
    requires
        spec_fast_bulk_response_len(reads@) <= u16::MAX,
    ensures
        r == spec_fast_bulk_response_len(reads@),
{
    let mut total: u16 = 0;
    let mut i: usize = 0;
    while i < reads.len()
        invariant
            i <= reads@.len(),
            total == spec_fast_bulk_response_len(reads@.take(i as int)),
            spec_fast_bulk_response_len(reads@) <= u16::MAX,
        decreases reads@.len() - i,
    {
        assert(reads@.take(i + 1).drop_last() =~= reads@.take(i as int));
        proof {
            lemma_fast_bulk_response_len_prefix(reads@, i + 1);
        }
        total = total + reads[i].count + 4;
        i = i + 1;
    }
    assert(reads@.take(i as int) =~= reads@);
    total
}

/// The reply of one motor block (`error + motor ID + data`) of a fast read response, with its data as bytes.
pub open spec fn spec_motor_block_bytes<E>(block: Seq<u8>) -> Result<(u8, bool, Seq<u8>), ReadError<E>> {
    if spec_error_number(block[0]) != 0 {
        Err(ReadError::MotorError(MotorError { raw: block[0] }))
    } else {
        Ok((block[1], spec_alert(block[0]), block.skip(2)))
    }
}

/// The error field of a motor block decides what the block gives. A non-zero error number (the lower 7 bits)
/// is the motor's error, reported with the whole error byte, whatever the alert bit; the block then gives no
/// data. With error number 0 the block is the motor's reply: the motor ID, the alert bit (the 8th bit, a hardware
/// error flag that is no failed instruction) and all bytes after the two leading ones. Setting the alert bit of a
/// block does not change whether it is an error.
pub proof fn lemma_motor_block_bytes<E>(block: Seq<u8>)
    requires
        block.len() >= 2,
    ensures
        block[0] % 128 != 0 ==> spec_motor_block_bytes::<E>(block) == Err::<(u8, bool, Seq<u8>), ReadError<E>>(
            ReadError::MotorError(MotorError { raw: block[0] }),
        ),
        block[0] % 128 == 0 ==> spec_motor_block_bytes::<E>(block) == Ok::<(u8, bool, Seq<u8>), ReadError<E>>(
            (block[1], block[0] >= 128, block.skip(2)),
        ),
        spec_motor_block_bytes::<E>(block) is Ok <==> block[0] == 0 || block[0] == 128,
        block[0] < 128 ==> (spec_motor_block_bytes::<E>(block) is Ok <==> spec_motor_block_bytes::<E>(
            block.update(0, (block[0] + 128) as u8),
        ) is Ok),
{
    if block[0] < 128 {
        let flagged = block.update(0, (block[0] + 128) as u8);
        assert(flagged[0] == block[0] + 128);
        assert(flagged[0] % 128 == block[0] % 128);
    }
}

/// Build a [`Response`] from a single `error + motor ID + data` block of a fast bulk read response.
///
/// A block whose error number (the lower 7 bits of its first byte) is not zero is the motor's error;
/// otherwise it is the reply of the motor with the ID in its second byte, with the data after those two bytes.
pub fn decode_motor_block<'b, E>(block: &'b [u8]) -> (r: Result<Response<&'b [u8]>, ReadError<E>>)
    requires
        block@.len() >= 2,
    ensures
        r is Ok <==> block@[0] % 128 == 0,
        r matches Err(e) ==> e == ReadError::<E>::MotorError(MotorError { raw: block@[0] }),
        r matches Ok(response) ==> {
            &&& response.motor_id == block@[1]
            &&& response.alert == (block@[0] >= 128)
            &&& response.data@ == block@.skip(2)
        },
        r is Ok <==> spec_motor_block_bytes::<E>(block@) is Ok,
        r matches Err(e) ==> spec_motor_block_bytes::<E>(block@) == Err::<(u8, bool, Seq<u8>), ReadError<E>>(e),
        r matches Ok(response) ==> spec_motor_block_bytes::<E>(block@) == Ok::<(u8, bool, Seq<u8>), ReadError<E>>(
            (response.motor_id, response.alert, response.data@),
        ),
{
    let error = block[0];
    if let Err(e) = MotorError::check(error) {
        return Err(ReadError::MotorError(e));
    }
    let data = vstd::slice::slice_subrange(block, 2, block.len());
    assert(data@ =~= block@.skip(2));
    Ok(Response { motor_id: block[1], alert: alert_of(error), data })
}

/// A fast bulk read operation that yields the unparsed bytes read from each motor.
///
/// Returned by [`Client::fast_bulk_read_bytes`].
/// The entire response is read from the bus before this is returned;
/// reading it simply splits the response into the per-motor replies.
pub struct FastBulkRead<'a, E> {
    /// The unparsed per-motor blocks, starting at the error byte of the first motor.
    parameters: &'a [u8],
    /// The requested reads, used to know the data length of each motor block.
    reads: &'a [BulkReadData],
    /// The index of the next read to yield.
    index: usize,
    data: PhantomData<E>,
}

/// What splitting off the next motor block did to the state (`parameters`, `index`) of a fast bulk read,
/// and what it returned: the block, an error for a missing block, or nothing once every read was yielded.
pub open spec fn spec_next_block<E>(
    parameters: Seq<u8>,
    reads: Seq<BulkReadData>,
    index: nat,
    new_parameters: Seq<u8>,
    new_index: nat,
    r: Option<Result<Seq<u8>, ReadError<E>>>,
) -> bool {
    if index >= reads.len() {
        &&& r is None
        &&& new_parameters == parameters
        &&& new_index == index
    } else {
        let block_len = 2 + reads[index as int].count;
        if parameters.len() < block_len {
            // The response is shorter than the reads imply: a motor block is missing or truncated.
            &&& r == Some(
                Err::<Seq<u8>, ReadError<E>>(
                    ReadError::InvalidMessage(
                        InvalidMessage::InvalidParameterCount(
                            InvalidParameterCount {
                                actual: parameters.len() as usize,
                                expected: ExpectedCount::Min(block_len as usize),
                            },
                        ),
                    ),
                ),
            )
            &&& new_parameters == parameters
            &&& new_index == reads.len()
        } else {
            let rest = parameters.skip(block_len);
            &&& r == Some(Ok::<Seq<u8>, ReadError<E>>(parameters.take(block_len)))
            &&& new_parameters == (if rest.len() >= 2 {
                rest.skip(2)
            } else {
                Seq::empty()
            })
            &&& new_index == index + 1
        }
    }
}

/// A fast bulk read response is a run of motor blocks, each `error + motor ID + data` followed by its two CRC
/// bytes, in the order of the reads. Splitting off the next block of such a run yields exactly that block, for
/// the data length of the next read, and leaves the blocks after its CRC.
pub proof fn lemma_next_block_of_run<E>(
    block: Seq<u8>,
    crc: Seq<u8>,
    rest: Seq<u8>,
    reads: Seq<BulkReadData>,
    index: nat,
    new_parameters: Seq<u8>,
    new_index: nat,
    r: Option<Result<Seq<u8>, ReadError<E>>>,
)
    requires
        index < reads.len(),
        block.len() == 2 + reads[index as int].count,
        crc.len() == 2,
        spec_next_block(block + crc + rest, reads, index, new_parameters, new_index, r),
    ensures
        r == Some(Ok::<Seq<u8>, ReadError<E>>(block)),
        new_parameters == rest,
        new_index == index + 1,
{
    let parameters = block + crc + rest;
    assert(parameters.take(block.len() as int) =~= block);
    assert(parameters.skip(block.len() as int) =~= crc + rest);
    assert((crc + rest).skip(2) =~= rest);
}

/// The bytes of a block split off a fast bulk read response.
pub open spec fn spec_block_view<E>(block: Option<Result<&[u8], ReadError<E>>>) -> Option<Result<Seq<u8>, ReadError<E>>> {
    match block {
        None => None,
        Some(Err(e)) => Some(Err(e)),
        Some(Ok(b)) => Some(Ok(b@)),
    }
}

/// The reply that a step of a fast bulk read yields for the result of splitting off a block.
pub open spec fn spec_block_reply<E>(block: Option<Result<Seq<u8>, ReadError<E>>>) -> Option<
    Result<(u8, bool, Seq<u8>), ReadError<E>>,
> {
    match block {
        None => None,
        Some(Err(e)) => Some(Err(e)),
        Some(Ok(b)) => Some(spec_motor_block_bytes::<E>(b)),
    }
}

impl<'a, E> FastBulkRead<'a, E> {
    /// The unparsed motor blocks that are left.
    pub closed spec fn spec_parameters(&self) -> Seq<u8> {
        self.parameters@
    }

    /// The requested reads.
    pub closed spec fn spec_reads(&self) -> Seq<BulkReadData> {
        self.reads@
    }

    /// The index of the next read to yield.
    pub closed spec fn spec_index(&self) -> nat {
        self.index as nat
    }

    /// No more reads were yielded than requested.
    pub closed spec fn wf(&self) -> bool {
        self.index <= self.reads@.len()
    }

    /// Split the per-motor blocks of a fast bulk read response, starting at the error byte of the first motor,
    /// into the replies to `reads`.
    pub fn new(parameters: &'a [u8], reads: &'a [BulkReadData]) -> (r: Self)
        ensures
            r.wf(),
            r.spec_parameters() == parameters@,
            r.spec_reads() == reads@,
            r.spec_index() == 0,
    {
        Self { parameters, reads, index: 0, data: PhantomData }
    }

    /// The number of motor replies that have not been yielded yet.
    pub fn remaining(&self) -> (r: usize)
        requires
            self.wf(),
        ensures
            r == self.spec_reads().len() - self.spec_index(),
    {
        self.reads.len() - self.index
    }

    /// Split the next `error + motor ID + data` block off the front of the buffer, advancing the state.
    fn next_block(&mut self) -> (r: Option<Result<&'a [u8], ReadError<E>>>)
        requires
            old(self).wf(),
        ensures
            final(self).wf(),
            final(self).spec_reads() == old(self).spec_reads(),
            spec_next_block(
                old(self).spec_parameters(),
                old(self).spec_reads(),
                old(self).spec_index(),
                final(self).spec_parameters(),
                final(self).spec_index(),
                spec_block_view(r),
            ),
    {
        if self.index >= self.reads.len() {
            return None;
        }
        let count = self.reads[self.index].count as usize;
        self.index = self.index + 1;

        // Each motor block is: error (1) + motor ID (1) + data (`count`).
        let block_len = 2 + count;
        if self.parameters.len() < block_len {
            // The response is shorter than `reads` implies: a motor block is missing or truncated.
            // Surface an error instead of silently ending with motors unaccounted for.
            self.index = self.reads.len();
            return Some(
                Err(
                    ReadError::InvalidMessage(
                        InvalidMessage::InvalidParameterCount(
                            InvalidParameterCount { actual: self.parameters.len(), expected: ExpectedCount::Min(block_len) },
                        ),
                    ),
                ),
            );
        }
        let block = vstd::slice::slice_subrange(self.parameters, 0, block_len);
        let rest = vstd::slice::slice_subrange(self.parameters, block_len, self.parameters.len());
        assert(block@ =~= old(self).spec_parameters().take(block_len as int));
        assert(rest@ =~= old(self).spec_parameters().skip(block_len as int));

        // Skip the per-motor CRC (2 bytes). The final motor's CRC doubles as the packet CRC and is
        // stripped while reading the packet, so it may be absent for the last block.
        if rest.len() >= 2 {
            let tail = vstd::slice::slice_subrange(rest, 2, rest.len());
            assert(tail@ =~= rest@.skip(2));
            self.parameters = tail;
        } else {
            let empty: &'a [u8] = &[];
            assert(empty@ =~= Seq::<u8>::empty());
            self.parameters = empty;
        }
        Some(Ok(block))
    }

    /// Read the next motor reply, or [`None`] once every read has been yielded.
    pub fn read_next(&mut self) -> (r: Option<Result<Response<Vec<u8>>, ReadError<E>>>)
        requires
            old(self).wf(),
        ensures
            final(self).wf(),
            final(self).spec_reads() == old(self).spec_reads(),
            exists|block: Option<Result<Seq<u8>, ReadError<E>>>| #[trigger]
                spec_next_block(
                    old(self).spec_parameters(),
                    old(self).spec_reads(),
                    old(self).spec_index(),
                    final(self).spec_parameters(),
                    final(self).spec_index(),
                    block,
                ) && spec_block_reply(block) == match r {
                    None => None,
                    Some(Err(e)) => Some(Err(e)),
                    Some(Ok(response)) => Some(Ok((response.motor_id, response.alert, response.data@))),
                },
    {
        let ghost before = *self;
        let block = self.next_block();
        let ghost spec_block = spec_block_view(block);
        let r = match block {
            None => None,
            Some(Err(e)) => Some(Err(e)),
            Some(Ok(b)) => match decode_motor_block::<E>(b) {
                Ok(response) => Some(
                    Ok(
                        Response {
                            motor_id: response.motor_id,
                            alert: response.alert,
                            data: vstd::slice::slice_to_vec(response.data),
                        },
                    ),
                ),
                Err(e) => Some(Err(e)),
            },
        };
        assert(spec_next_block(
            before.spec_parameters(),
            before.spec_reads(),
            before.spec_index(),
            self.spec_parameters(),
            self.spec_index(),
            spec_block,
        ));
        r
    }

    /// Read the next motor reply borrowing the data from the read buffer, or [`None`] once every read has been yielded.
    pub fn read_next_borrow(&mut self) -> (r: Option<Result<Response<&'a [u8]>, ReadError<E>>>)
        requires
            old(self).wf(),
        ensures
            final(self).wf(),
            final(self).spec_reads() == old(self).spec_reads(),
            exists|block: Option<Result<Seq<u8>, ReadError<E>>>| #[trigger]
                spec_next_block(
                    old(self).spec_parameters(),
                    old(self).spec_reads(),
                    old(self).spec_index(),
                    final(self).spec_parameters(),
                    final(self).spec_index(),
                    block,
                ) && spec_block_reply(block) == match r {
                    None => None,
                    Some(Err(e)) => Some(Err(e)),
                    Some(Ok(response)) => Some(Ok((response.motor_id, response.alert, response.data@))),
                },
    {
        let ghost before = *self;
        let block = self.next_block();
        let ghost spec_block = spec_block_view(block);
        let r = match block {
            None => None,
            Some(Err(e)) => Some(Err(e)),
            Some(Ok(b)) => Some(decode_motor_block::<E>(b)),
        };
        assert(spec_next_block(
            before.spec_parameters(),
            before.spec_reads(),
            before.spec_index(),
            self.spec_parameters(),
            self.spec_index(),
            spec_block,
        ));
        r
    }
}

impl<Port: SerialPort> Client<Port> {
    /// Read arbitrary data ranges from multiple motors using the fast bulk read instruction.
    ///
    /// Like [`Client::bulk_read_bytes`], a bulk read can read a different amount of data from a different address
    /// for each motor. Unlike the regular bulk read, all motors reply with a single status packet.
    /// This reduces the communication overhead, at the cost of losing the entire response if a single motor
    /// fails to reply.
    ///
    /// The returned [`FastBulkRead`] yields the [`Response`] of each motor, in the same order as `reads`.
    ///
    /// The protocol forbids specifying the same motor ID multiple times (see [`super::bulk_read::unique_motor_ids`]),
    /// and a status packet can hold at most a `u16` worth of parameters (see [`fast_bulk_response_fits`]).
    pub fn fast_bulk_read_bytes<'a>(&'a mut self, reads: &'a [BulkReadData]) -> (r: Result<
        FastBulkRead<'a, Port::Error>,
        TransferError<Port::Error>,
    >)
        requires
            old(self).wf(),
            old(self).spec_baud_rate() > 0,
            spec_unique_motor_ids(reads@),
            spec_fast_bulk_response_len(reads@) <= u16::MAX,
        ensures
            final(self).keeps_config(*old(self)),
            (r matches Err(TransferError::WriteError(WriteError::BufferTooSmall(_)))) <==> spec_frame(
                packet_id::BROADCAST,
                instruction_id::FAST_BULK_READ,
                spec_bulk_read_parameters(reads@),
            ).len() > old(self).spec_write_capacity(),
            !(r matches Err(TransferError::WriteError(_))) ==> final(self).spec_sent() == spec_frame(
                packet_id::BROADCAST,
                instruction_id::FAST_BULK_READ,
                spec_bulk_read_parameters(reads@),
            ),
            r matches Ok(reader) ==> {
                &&& reader.wf()
                &&& reader.spec_reads() == reads@
                &&& reader.spec_index() == 0
                &&& exists|data: Seq<u8>| #[trigger]
                    spec_status_packet(data) && data[4] == packet_id::BROADCAST && reader.spec_parameters()
                        == data.skip(8)
            },
            spec_fast_reply_outcome(
                *old(self),
                *final(self),
                r,
                (|reader: FastBulkRead<'a, Port::Error>, data: Seq<u8>| reader.spec_parameters() == data.skip(8)),
            ),
    {
        proof {
            lemma_reads_bounded(reads@);
        }
        let parameters = bulk_read_parameters(reads);
        if let Err(e) = self.write_packet(packet_id::BROADCAST, instruction_id::FAST_BULK_READ, parameters.as_slice()) {
            return Err(TransferError::WriteError(e));
        }
        let expected_parameters = fast_bulk_response_len(reads);
        let response = match self.read_status_packet(expected_parameters) {
            Ok(response) => response,
            Err(e) => return Err(TransferError::ReadError(e)),
        };
        if let Err(e) = InvalidPacketId::check(response.packet_id(), packet_id::BROADCAST) {
            return Err(TransferError::ReadError(ReadError::InvalidMessage(InvalidMessage::InvalidPacketId(e))));
        }
        let reader = FastBulkRead::new(response.error_and_parameters(), reads);
        let r: Result<FastBulkRead<'a, Port::Error>, TransferError<Port::Error>> = Ok(reader);
        assert(spec_status_packet(response.spec_data()) && response.spec_data()[4] == packet_id::BROADCAST
            && r->Ok_0.spec_parameters() == response.spec_data().skip(8));
        r
    }

    /// Read arbitrary data ranges from multiple motors using the fast bulk read instruction, borrowing each
    /// reply from the read buffer.
    ///
    /// This is like [`Self::fast_bulk_read_bytes`]; consume the replies with [`FastBulkRead::read_next_borrow`].
    pub fn fast_bulk_read_bytes_borrow<'a>(&'a mut self, reads: &'a [BulkReadData]) -> (r: Result<
        FastBulkRead<'a, Port::Error>,
        TransferError<Port::Error>,
    >)
        requires
            old(self).wf(),
            old(self).spec_baud_rate() > 0,
            spec_unique_motor_ids(reads@),
            spec_fast_bulk_response_len(reads@) <= u16::MAX,
        ensures
            final(self).keeps_config(*old(self)),
            (r matches Err(TransferError::WriteError(WriteError::BufferTooSmall(_)))) <==> spec_frame(
                packet_id::BROADCAST,
                instruction_id::FAST_BULK_READ,
                spec_bulk_read_parameters(reads@),
            ).len() > old(self).spec_write_capacity(),
            !(r matches Err(TransferError::WriteError(_))) ==> final(self).spec_sent() == spec_frame(
                packet_id::BROADCAST,
                instruction_id::FAST_BULK_READ,
                spec_bulk_read_parameters(reads@),
            ),
            r matches Ok(reader) ==> {
                &&& reader.wf()
                &&& reader.spec_reads() == reads@
                &&& reader.spec_index() == 0
                &&& exists|data: Seq<u8>| #[trigger]
                    spec_status_packet(data) && data[4] == packet_id::BROADCAST && reader.spec_parameters()
                        == data.skip(8)
            },
            spec_fast_reply_outcome(
                *old(self),
                *final(self),
                r,
                (|reader: FastBulkRead<'a, Port::Error>, data: Seq<u8>| reader.spec_parameters() == data.skip(8)),
            ),
    {
        self.fast_bulk_read_bytes(reads)
    }
}

/// Each read adds at least four parameters to the response.
proof fn lemma_reads_bounded(reads: Seq<BulkReadData>)
    ensures
        4 * reads.len() <= spec_fast_bulk_response_len(reads),
    decreases reads.len(),
{
    if reads.len() > 0 {
        lemma_reads_bounded(reads.drop_last());
    }
}

} // verus!
