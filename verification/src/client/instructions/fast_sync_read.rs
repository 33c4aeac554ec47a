//! The fast sync read instruction, used to read the same data from multiple motors with a single status packet.
use vstd::prelude::*;

use core::marker::PhantomData;

use crate::bus::data::Data;
use crate::bus::frame::spec_frame;
use crate::bus::{instruction_id, packet_id};
use crate::client::client::{spec_fast_reply_outcome, spec_status_packet, Client};
use crate::client::instructions::sync_read::{spec_sync_read_parameters, sync_read_parameters};
use crate::error::{
    alert_of, spec_alert, spec_error_number, ExpectedCount, InvalidMessage, InvalidPacketId, InvalidParameterCount,
    MotorError, ReadError, TransferError, WriteError,
};
use crate::serial_port::SerialPort;
use crate::Response;

verus! {

/// The reply of one motor block (`error + motor ID + data`) of a fast read response,
/// with the data decoded as a `T`.
pub open spec fn spec_motor_block<T: Data, E>(block: Seq<u8>) -> Result<Response<T>, ReadError<E>> {
    if spec_error_number(block[0]) != 0 {
        Err(ReadError::MotorError(MotorError { raw: block[0] }))
    } else if block.len() - 2 != T::ENCODED_SIZE {
        Err(
            ReadError::InvalidMessage(
                InvalidMessage::InvalidParameterCount(
                    InvalidParameterCount {
                        actual: (block.len() - 2) as usize,
                        expected: ExpectedCount::Exact(T::ENCODED_SIZE as usize),
                    },
                ),
            ),
        )
    } else {
        Ok(Response { motor_id: block[1], alert: spec_alert(block[0]), data: T::spec_decode(block.skip(2)) })
    }
}

/// The error field of a motor block decides what the block gives. A non-zero error number (the lower 7 bits)
/// is the motor's error, reported with the whole error byte, whatever the alert bit. With error number 0 (only
/// the alert bit may be set: a hardware error flag, no failed instruction) a block with the data of a `T` is the
/// motor's reply: the motor ID, the alert bit and the decoded data; other blocks have a wrong data length.
/// Setting the alert bit of a block does not change whether it is an error, nor the data it gives.
pub proof fn lemma_motor_block<T: Data, E>(block: Seq<u8>)
    requires
        block.len() >= 2,
    ensures
        block[0] % 128 != 0 ==> spec_motor_block::<T, E>(block) == Err::<Response<T>, ReadError<E>>(
            ReadError::MotorError(MotorError { raw: block[0] }),
        ),
        block[0] % 128 == 0 && block.len() == 2 + T::ENCODED_SIZE ==> spec_motor_block::<T, E>(block) == Ok::<
            Response<T>,
            ReadError<E>,
        >(Response { motor_id: block[1], alert: block[0] >= 128, data: T::spec_decode(block.skip(2)) }),
        block[0] % 128 == 0 && block.len() != 2 + T::ENCODED_SIZE ==> spec_motor_block::<T, E>(block) == Err::<
            Response<T>,
            ReadError<E>,
        >(
            ReadError::InvalidMessage(
                InvalidMessage::InvalidParameterCount(
                    InvalidParameterCount {
                        actual: (block.len() - 2) as usize,
                        expected: ExpectedCount::Exact(T::ENCODED_SIZE as usize),
                    },
                ),
            ),
        ),
        block[0] < 128 ==> ({
            let flagged = block.update(0, (block[0] + 128) as u8);
            &&& (spec_motor_block::<T, E>(block) is Ok <==> spec_motor_block::<T, E>(flagged) is Ok)
            &&& (spec_motor_block::<T, E>(block) matches Ok(response) ==> spec_motor_block::<T, E>(flagged) == Ok::<
                Response<T>,
                ReadError<E>,
            >(Response { alert: true, ..response }))
        }),
{
    if block[0] < 128 {
        let flagged = block.update(0, (block[0] + 128) as u8);
        assert(flagged[0] == block[0] + 128);
        assert(flagged[0] % 128 == block[0] % 128);
        assert(flagged.skip(2) =~= block.skip(2));
    }
}

/// Parse a single `error + motor ID + data` block from a fast sync read response.
///
/// A block whose error number (the lower 7 bits of its first byte) is not zero is the motor's error;
/// otherwise it is the reply of the motor with the ID in its second byte, whose data is decoded as a `T`.
pub fn parse_motor_block<T: Data, E>(block: &[u8]) -> (r: Result<Response<T>, ReadError<E>>)
    requires
        block@.len() >= 2,
    ensures
        r == spec_motor_block::<T, E>(block@),
        block@[0] % 128 != 0 ==> r == Err::<Response<T>, ReadError<E>>(
            ReadError::MotorError(MotorError { raw: block@[0] }),
        ),
        r matches Ok(response) ==> {
            &&& block@[0] % 128 == 0
            &&& block@.len() == 2 + T::ENCODED_SIZE
            &&& response.motor_id == block@[1]
            &&& response.alert == (block@[0] >= 128)
            &&& response.data == T::spec_decode(block@.skip(2))
        },
        block@[0] % 128 == 0 && block@.len() == 2 + T::ENCODED_SIZE ==> r is Ok,
{
    let error = block[0];
    if let Err(e) = MotorError::check(error) {
        return Err(ReadError::MotorError(e));
    }
    let data = vstd::slice::slice_subrange(block, 2, block.len());
    assert(data@ =~= block@.skip(2));
    match T::decode(data) {
        Ok(value) => Ok(Response { motor_id: block[1], alert: alert_of(error), data: value }),
        Err(e) => Err(ReadError::InvalidMessage(e)),
    }
}

/// What splitting off and parsing the next motor block did to the state (`parameters`, `remaining`) of a fast sync
/// read with `count` data bytes per motor, and what it returned: the reply of the block, or nothing once every
/// motor was yielded or the response is too short for the next block.
pub open spec fn spec_next_sync_block<T: Data, E>(
    parameters: Seq<u8>,
    count: u16,
    remaining: nat,
    new_parameters: Seq<u8>,
    new_remaining: nat,
    r: Option<Result<Response<T>, ReadError<E>>>,
) -> bool {
    let block_len = 2 + count;
    if remaining == 0 || parameters.len() < block_len {
        &&& r is None
        &&& new_parameters == parameters
        &&& new_remaining == remaining
    } else {
        let rest = parameters.skip(block_len);
        &&& r == Some(spec_motor_block::<T, E>(parameters.take(block_len)))
        &&& new_parameters == (if rest.len() >= 2 {
            rest.skip(2)
        } else {
            Seq::empty()
        })
        &&& new_remaining == remaining - 1
    }
}

/// A fast sync read response is a run of motor blocks, each `error + motor ID + data` followed by its two CRC
/// bytes. While motors remain, reading the next reply of such a run gives what the first block gives and leaves
/// the blocks after its CRC, one motor fewer remaining.
pub proof fn lemma_next_sync_block_of_run<T: Data, E>(
    block: Seq<u8>,
    crc: Seq<u8>,
    rest: Seq<u8>,
    count: u16,
    remaining: nat,
    new_parameters: Seq<u8>,
    new_remaining: nat,
    r: Option<Result<Response<T>, ReadError<E>>>,
)
    requires
        remaining > 0,
        block.len() == 2 + count,
        crc.len() == 2,
        spec_next_sync_block::<T, E>(block + crc + rest, count, remaining, new_parameters, new_remaining, r),
    ensures
        r == Some(spec_motor_block::<T, E>(block)),
        new_parameters == rest,
        new_remaining == remaining - 1,
{
    let parameters = block + crc + rest;
    assert(parameters.take(block.len() as int) =~= block);
    assert(parameters.skip(block.len() as int) =~= crc + rest);
    assert((crc + rest).skip(2) =~= rest);
}

/// A fast sync read operation that yields the parsed value of each motor.
///
/// Returned by [`Client::fast_sync_read`].
/// The entire response is read from the bus before this is returned;
/// reading it simply splits the response into the per-motor replies.
pub struct FastSyncRead<'a, T, E> {
    /// The unparsed per-motor blocks, starting at the error byte of the first motor.
    parameters: &'a [u8],
    /// The number of data bytes in each motor block.
    count: u16,
    /// The number of motor replies that have not been yielded yet.
    remaining: usize,
    data: PhantomData<(T, E)>,
}

impl<'a, T: Data, E> FastSyncRead<'a, T, E> {
    /// The unparsed motor blocks that are left.
    pub closed spec fn spec_parameters(&self) -> Seq<u8> {
        self.parameters@
    }

    /// The number of data bytes in each motor block.
    pub closed spec fn spec_count(&self) -> u16 {
        self.count
    }

    /// The number of motor replies that have not been yielded yet.
    pub closed spec fn spec_remaining(&self) -> nat {
        self.remaining as nat
    }

    /// Split the per-motor blocks of a fast sync read response, starting at the error byte of the first motor,
    /// into the replies of `motors` motors with `count` data bytes each.
    pub fn new(parameters: &'a [u8], count: u16, motors: usize) -> (r: Self)
        ensures
            r.spec_parameters() == parameters@,
            r.spec_count() == count,
            r.spec_remaining() == motors,
    {
        Self { parameters, count, remaining: motors, data: PhantomData }
    }

    /// The reply of the next motor, or [`None`] once every motor has been yielded.
    ///
    /// Each motor block is `error (1) + motor ID (1) + data (count) + CRC (2)`. The CRC of the last block doubles
    /// as the packet CRC and is stripped while reading the packet, so it may be absent.
    /// A response too short for the next block ends the replies.
    pub fn read_next(&mut self) -> (r: Option<Result<Response<T>, ReadError<E>>>)
        ensures
            final(self).spec_count() == old(self).spec_count(),
            spec_next_sync_block::<T, E>(
                old(self).spec_parameters(),
                old(self).spec_count(),
                old(self).spec_remaining(),
                final(self).spec_parameters(),
                final(self).spec_remaining(),
                r,
            ),
    {
        if self.remaining == 0 {
            return None;
        }
        let block_len = 2 + self.count as usize;
        if self.parameters.len() < block_len {
            return None;
        }
        let block = vstd::slice::slice_subrange(self.parameters, 0, block_len);
        let rest = vstd::slice::slice_subrange(self.parameters, block_len, self.parameters.len());
        assert(block@ =~= old(self).spec_parameters().take(block_len as int));
        assert(rest@ =~= old(self).spec_parameters().skip(block_len as int));
        if rest.len() >= 2 {
            let tail = vstd::slice::slice_subrange(rest, 2, rest.len());
            assert(tail@ =~= rest@.skip(2));
            self.parameters = tail;
        } else {
            let empty: &'a [u8] = &[];
            assert(empty@ =~= Seq::<u8>::empty());
            self.parameters = empty;
        }
        self.remaining = self.remaining - 1;
        Some(parse_motor_block(block))
    }
}

impl<Port: SerialPort> Client<Port> {
    /// Read a value from multiple motors in one command using the fast sync read instruction.
    ///
    /// Like [`Client::sync_read`], the fast sync read instruction reads the same number of bytes from the same
    /// address from multiple motors. Unlike the regular sync read, all motors reply with a single status packet.
    /// This reduces the communication overhead, at the cost of losing the entire response if a single motor
    /// fails to reply.
    ///
    /// The returned [`FastSyncRead`] yields the [`Response`] of each motor,
    /// in the same order as `motor_ids`.
    pub fn fast_sync_read<'a, T: Data>(&'a mut self, motor_ids: &'a [u8], address: u16) -> (r: Result<
        FastSyncRead<'a, T, Port::Error>,
        TransferError<Port::Error>,
    >)
        requires
            old(self).wf(),
            old(self).spec_baud_rate() > 0,
            (T::ENCODED_SIZE + 4) * motor_ids@.len() <= u32::MAX,
        ensures
            final(self).keeps_config(*old(self)),
            (r matches Err(TransferError::WriteError(WriteError::BufferTooSmall(_)))) <==> spec_frame(
                packet_id::BROADCAST,
                instruction_id::FAST_SYNC_READ,
                spec_sync_read_parameters(address, T::ENCODED_SIZE, motor_ids@),
            ).len() > old(self).spec_write_capacity(),
            !(r matches Err(TransferError::WriteError(_))) ==> final(self).spec_sent() == spec_frame(
                packet_id::BROADCAST,
                instruction_id::FAST_SYNC_READ,
                spec_sync_read_parameters(address, T::ENCODED_SIZE, motor_ids@),
            ),
            r matches Ok(reader) ==> {
                &&& reader.spec_count() == T::ENCODED_SIZE
                &&& reader.spec_remaining() == motor_ids@.len()
                &&& exists|data: Seq<u8>| #[trigger]
                    spec_status_packet(data) && data[4] == packet_id::BROADCAST && reader.spec_parameters()
                        == data.skip(8)
            },
            spec_fast_reply_outcome(
                *old(self),
                *final(self),
                r,
                (|reader: FastSyncRead<'a, T, Port::Error>, data: Seq<u8>| reader.spec_parameters() == data.skip(8)),
            ),
    {
        let count = T::ENCODED_SIZE;
        let motors = motor_ids.len();
        assert(motors * 4 <= u32::MAX) by (nonlinear_arith)
            requires
                (count + 4) * motors <= u32::MAX,
        ;
        let parameters = sync_read_parameters(address, count, motor_ids);
        if let Err(e) = self.write_packet(packet_id::BROADCAST, instruction_id::FAST_SYNC_READ, parameters.as_slice()) {
            return Err(TransferError::WriteError(e));
        }
        // Each motor block in the response is: error (1) + motor ID (1) + data (`count`) + CRC (2).
        let expected_parameters = (count as u32 + 4) * motors as u32;
        let response = match self.read_status_packet(#[verifier::truncate] (expected_parameters as u16)) {
            Ok(response) => response,
            Err(e) => return Err(TransferError::ReadError(e)),
        };
        if let Err(e) = InvalidPacketId::check(response.packet_id(), packet_id::BROADCAST) {
            return Err(TransferError::ReadError(ReadError::InvalidMessage(InvalidMessage::InvalidPacketId(e))));
        }
        let reader = FastSyncRead::new(response.error_and_parameters(), count, motor_ids.len());
        let r: Result<FastSyncRead<'a, T, Port::Error>, TransferError<Port::Error>> = Ok(reader);
        assert(spec_status_packet(response.spec_data()) && response.spec_data()[4] == packet_id::BROADCAST
            && r->Ok_0.spec_parameters() == response.spec_data().skip(8));
        r
    }
}

} // verus!
