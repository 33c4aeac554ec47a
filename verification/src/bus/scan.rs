//! What the received bytes amount to: garbage, an incomplete message, or a whole message and what it carries.
use vstd::prelude::*;

use crate::bus::bytestuff::{spec_unstuff, unstuff_inplace};
use crate::bus::endian::{read_u16_le, spec_le_value};
use crate::bus::frame::{
    lemma_frame_len, lemma_frame_roundtrip, spec_body, spec_decode_message, spec_frame, spec_frame_fits,
    spec_length_field, spec_packet,
};
use crate::bus::{
    find_header, instruction_id, lemma_garbage_len_unique, spec_garbage_len, spec_header_prefix, HEADER_SIZE,
};
use crate::checksum::{calculate_checksum, spec_checksum};
use crate::error::{
    spec_error_number, BufferTooSmallError, ExpectedCount, InvalidChecksum, InvalidInstruction, InvalidMessage,
    InvalidParameterCount, MotorError, ReadError,
};

verus! {

/// How far the received bytes, starting at a header, make up a message.
#[derive(Debug, Clone, Copy, PartialEq, Eq, Structural)]
pub enum MessageScan {
    /// More bytes are needed: the header or the rest of the message has not arrived yet.
    Incomplete,
    /// The length field announces a message of `required_size` bytes, more than the read buffer can hold.
    TooLarge { required_size: usize },
    /// A whole message of `len` bytes, as announced by its length field, has arrived.
    Complete { len: usize },
}

/// How far `received`, which starts at a header, makes up a message for a read buffer of `read_capacity` bytes.
///
/// A message is the header followed by as many bytes as its length field says.
pub open spec fn spec_scan_message(received: Seq<u8>, read_capacity: nat) -> MessageScan {
    if received.len() <= HEADER_SIZE {
        MessageScan::Incomplete
    } else {
        let len = HEADER_SIZE + spec_length_field(received);
        if len > read_capacity {
            MessageScan::TooLarge { required_size: len as usize }
        } else if received.len() < len {
            MessageScan::Incomplete
        } else {
            MessageScan::Complete { len: len as usize }
        }
    }
}

/// Decide how far `received`, which starts at a header, makes up a message for a read buffer of
/// `read_capacity` bytes.
pub fn scan_message(received: &[u8], read_capacity: usize) -> (r: MessageScan)
    ensures
        r == spec_scan_message(received@, read_capacity as nat),
        r matches MessageScan::TooLarge { required_size } ==> required_size > read_capacity && required_size
            == HEADER_SIZE + spec_length_field(received@),
        r matches MessageScan::Complete { len } ==> HEADER_SIZE <= len <= received@.len() && len <= read_capacity
            && len == HEADER_SIZE + spec_length_field(received@),
{
    if received.len() <= HEADER_SIZE {
        return MessageScan::Incomplete;
    }
    let length_field = read_u16_le(vstd::slice::slice_subrange(received, 5, 7)) as usize;
    proof {
        assert(received@.subrange(5, 7).take(2) =~= received@.subrange(5, 7));
    }
    let len = HEADER_SIZE + length_field;
    if len > read_capacity {
        MessageScan::TooLarge { required_size: len }
    } else if received.len() < len {
        MessageScan::Incomplete
    } else {
        MessageScan::Complete { len }
    }
}

/// The checksum that a message carries in its last two bytes.
pub open spec fn spec_message_checksum(message: Seq<u8>) -> nat {
    spec_le_value(message.skip(message.len() - 2))
}

/// The checksum of the bytes of a message before its checksum field.
pub open spec fn spec_computed_checksum(message: Seq<u8>) -> u16 {
    spec_checksum(0, message.take(message.len() - 2))
}

/// The error of a whole message that can not be decoded, if any: a wrong checksum, or (with a correct checksum)
/// a length field too small to hold the instruction ID and the checksum.
pub open spec fn spec_message_error<E>(message: Seq<u8>) -> Option<ReadError<E>> {
    if spec_message_checksum(message) != spec_computed_checksum(message) {
        Some(
            ReadError::InvalidMessage(
                InvalidMessage::InvalidChecksum(
                    InvalidChecksum {
                        message: spec_message_checksum(message) as u16,
                        computed: spec_computed_checksum(message),
                    },
                ),
            ),
        )
    } else if message.len() < HEADER_SIZE + 3 {
        Some(
            ReadError::InvalidMessage(
                InvalidMessage::InvalidParameterCount(
                    InvalidParameterCount {
                        actual: (message.len() - HEADER_SIZE) as usize,
                        expected: ExpectedCount::Min(3),
                    },
                ),
            ),
        )
    } else {
        None
    }
}

/// A decoded status packet without its error field.
pub open spec fn spec_status_field_missing(data: Seq<u8>) -> bool {
    data[7] == instruction_id::STATUS && data.len() < HEADER_SIZE + 2
}

/// The error for a status packet without its error field.
pub open spec fn spec_status_field_missing_error<E>() -> ReadError<E> {
    ReadError::InvalidMessage(
        InvalidMessage::InvalidParameterCount(InvalidParameterCount { actual: 0, expected: ExpectedCount::Min(1) }),
    )
}

/// What a whole message gives: the decoded packet (its header and de-stuffed body), or the error of the message.
pub open spec fn spec_message_result<E>(message: Seq<u8>) -> Result<Seq<u8>, ReadError<E>> {
    match spec_message_error::<E>(message) {
        Some(e) => Err(e),
        None => {
            let data = spec_decode_message(message);
            if spec_status_field_missing(data) {
                Err(spec_status_field_missing_error())
            } else {
                Ok(data)
            }
        },
    }
}

/// What reading a message from the received bytes gives with a read buffer of `read_capacity` bytes:
/// `None` while more bytes are needed, otherwise the result and the number of leading bytes used up.
///
/// Leading bytes before the first (possibly partial) header prefix are garbage and are skipped.
/// A header announcing a message too large for the read buffer uses up only the header;
/// any other message is used up whole, whatever it gives.
pub open spec fn spec_read_step<E>(received: Seq<u8>, read_capacity: nat) -> Option<(Result<Seq<u8>, ReadError<E>>, nat)> {
    let garbage = spec_garbage_len(received);
    let message = received.skip(garbage as int);
    match spec_scan_message(message, read_capacity) {
        MessageScan::Incomplete => None,
        MessageScan::TooLarge { required_size } => Some(
            (
                Err(ReadError::BufferFull(BufferTooSmallError { required_size, total_size: read_capacity as usize })),
                (garbage + HEADER_SIZE) as nat,
            ),
        ),
        MessageScan::Complete { len } => Some((spec_message_result(message.take(len as int)), (garbage + len) as nat)),
    }
}

/// What a status response gives for the decoded packet `data`: the packet itself if it is a status packet
/// without error number, otherwise the error. The alert bit alone is no error.
pub open spec fn spec_status_result<E>(data: Seq<u8>) -> Result<Seq<u8>, ReadError<E>> {
    if data[7] != instruction_id::STATUS {
        Err(
            ReadError::InvalidMessage(
                InvalidMessage::InvalidInstruction(
                    InvalidInstruction { actual: data[7], expected: instruction_id::STATUS },
                ),
            ),
        )
    } else if spec_error_number(data[8]) != 0 {
        Err(ReadError::MotorError(MotorError { raw: data[8] }))
    } else {
        Ok(data)
    }
}

/// What reading a status response from the received bytes gives: as [`spec_read_step`], with a packet
/// checked by [`spec_status_result`].
pub open spec fn spec_status_read_step<E>(received: Seq<u8>, read_capacity: nat) -> Option<
    (Result<Seq<u8>, ReadError<E>>, nat),
> {
    match spec_read_step::<E>(received, read_capacity) {
        Some((Ok(data), used)) => Some((spec_status_result(data), used)),
        other => other,
    }
}

/// What one bus writes, another reads back: received bytes that start with the message framed for a packet
/// give that packet (header, instruction ID and parameters) and use up exactly the message, whatever follows it,
/// as long as the message fits the read buffer and is not a status packet without its error field.
pub proof fn lemma_read_step_of_frame<E>(
    packet_id: u8,
    instruction_id: u8,
    parameters: Seq<u8>,
    rest: Seq<u8>,
    read_capacity: nat,
)
    requires
        spec_frame_fits(instruction_id, parameters),
        spec_frame(packet_id, instruction_id, parameters).len() <= read_capacity,
        instruction_id == instruction_id::STATUS ==> parameters.len() >= 1,
    ensures
        spec_read_step::<E>(spec_frame(packet_id, instruction_id, parameters) + rest, read_capacity) == Some(
            (
                Ok::<Seq<u8>, ReadError<E>>(spec_packet(packet_id, instruction_id, parameters)),
                spec_frame(packet_id, instruction_id, parameters).len(),
            ),
        ),
{
    let frame = spec_frame(packet_id, instruction_id, parameters);
    let received = frame + rest;
    lemma_frame_roundtrip(packet_id, instruction_id, parameters);
    lemma_frame_len(packet_id, instruction_id, parameters);
    assert forall|k: int| 0 <= k < 4 && 0 + k < received.len() implies #[trigger] received[0 + k]
        == spec_header_prefix()[k] by {
        assert(frame.take(4)[k] == spec_header_prefix()[k]);
    }
    lemma_garbage_len_unique(received, 0);
    assert(received.skip(0) =~= received);
    assert(received.subrange(5, 7) =~= frame.subrange(5, 7));
    assert(received.take(frame.len() as int) =~= frame);
    crate::bus::endian::lemma_le_bytes_len(spec_body(instruction_id, parameters).len() + 2, 2);
    let data = spec_packet(packet_id, instruction_id, parameters);
    assert(data[7] == instruction_id);
    assert(data.len() == HEADER_SIZE + 1 + parameters.len());
}

/// Check the checksum and the length of a whole message.
pub fn check_message<E>(message: &[u8]) -> (r: Result<(), ReadError<E>>)
    requires
        message@.len() >= HEADER_SIZE,
    ensures
        r is Ok <==> spec_message_error::<E>(message@) is None,
        r matches Err(e) ==> spec_message_error::<E>(message@) == Some(e),
        r matches Err(ReadError::InvalidMessage(InvalidMessage::InvalidChecksum(c))) ==> c.message != c.computed,
{
    let len = message.len();
    let parameters_end = len - 2;
    let checksum_message = read_u16_le(vstd::slice::slice_subrange(message, parameters_end, len));
    let checksum_computed = calculate_checksum(0, vstd::slice::slice_subrange(message, 0, parameters_end));
    proof {
        assert(message@.subrange(parameters_end as int, len as int).take(2) =~= message@.skip(len - 2));
        assert(message@.subrange(0, parameters_end as int) =~= message@.take(len - 2));
    }
    if checksum_message != checksum_computed {
        return Err(ReadError::InvalidMessage(InvalidMessage::InvalidChecksum(InvalidChecksum {
            message: checksum_message,
            computed: checksum_computed,
        })));
    }
    if len < HEADER_SIZE + 3 {
        return Err(ReadError::InvalidMessage(InvalidMessage::InvalidParameterCount(InvalidParameterCount {
            actual: len - HEADER_SIZE,
            expected: ExpectedCount::Min(3),
        })));
    }
    Ok(())
}

/// Read a message from the received bytes, for a read buffer of `read_capacity` bytes.
///
/// Returns `None` while more bytes are needed. Otherwise returns what the first message gives (the decoded
/// packet: header and de-stuffed body, without the checksum) and the number of leading bytes it used up,
/// garbage before it included. This is the decision a [`crate::bus::Bus`] makes on the bytes it receives.
pub fn read_message<E>(received: &[u8], read_capacity: usize) -> (r: Option<(Result<Vec<u8>, ReadError<E>>, usize)>)
    ensures
        match spec_read_step::<E>(received@, read_capacity as nat) {
            None => r is None,
            Some((expected, used)) => r matches Some((result, n)) && n == used && match result {
                Ok(data) => expected == Ok::<Seq<u8>, ReadError<E>>(data@),
                Err(e) => expected == Err::<Seq<u8>, ReadError<E>>(e),
            },
        },
{
    let garbage = find_header(received);
    let message = vstd::slice::slice_subrange(received, garbage, received.len());
    match scan_message(message, read_capacity) {
        MessageScan::Incomplete => None,
        MessageScan::TooLarge { required_size } => Some((
            Err(ReadError::BufferFull(BufferTooSmallError { required_size, total_size: read_capacity })),
            garbage + HEADER_SIZE,
        )),
        MessageScan::Complete { len } => {
            let whole = vstd::slice::slice_subrange(message, 0, len);
            assert(whole@ == message@.take(len as int));
            if let Err(e) = check_message(whole) {
                return Some((Err(e), garbage + len));
            }
            let data = decode_message(whole);
            if data[7] == instruction_id::STATUS && data.len() < HEADER_SIZE + 2 {
                return Some((Err(status_field_missing_error()), garbage + len));
            }
            Some((Ok(data), garbage + len))
        },
    }
}

/// The error for a status packet without its error field.
fn status_field_missing_error<E>() -> (r: ReadError<E>)
    ensures
        r == spec_status_field_missing_error::<E>(),
{
    ReadError::InvalidMessage(InvalidMessage::InvalidParameterCount(InvalidParameterCount {
        actual: 0,
        expected: ExpectedCount::Min(1),
    }))
}

/// Decode a whole message: its header followed by its de-stuffed body, without the checksum.
fn decode_message(message: &[u8]) -> (r: Vec<u8>)
    requires
        message@.len() >= HEADER_SIZE + 3,
    ensures
        r@ == spec_decode_message(message@),
        r@.len() >= HEADER_SIZE + 1,
{
    let len = message.len();
    let mut data: Vec<u8> = Vec::new();
    let mut i: usize = 0;
    while i < len - 2
        invariant
            len == message@.len(),
            len >= HEADER_SIZE + 3,
            i <= len - 2,
            data@ == message@.take(i as int),
        decreases len - 2 - i,
    {
        data.push(message[i]);
        i = i + 1;
        assert(data@ =~= message@.take(i as int));
    }
    let ghost body = message@.subrange(HEADER_SIZE as int, len - 2);
    let count = {
        let (_head, rest) = data.as_mut_slice().split_at_mut(HEADER_SIZE);
        assert(rest@ =~= body);
        unstuff_inplace(rest)
    };
    proof {
        crate::bus::bus::lemma_unstuff_len_ge_one(body);
        crate::bus::bytestuff::lemma_unstuff_len_le(body);
    }
    data.truncate(HEADER_SIZE + count);
    assert(data@ =~= message@.take(HEADER_SIZE as int) + spec_unstuff(body));
    data
}

} // verus!
