//! Low level interface to a DYNAMIXEL Protocol 2.0 bus.
use vstd::prelude::*;

pub mod bytestuff;
pub mod bus;
pub mod frame;
pub mod packet;
pub mod data;
pub mod endian;
pub mod instruction_id;
pub mod packet_id;
pub mod scan;

use core::time::Duration;

use crate::time::{duration_from_nanos, spec_duration_of_nanos};

pub use packet::{InstructionPacket, Packet, StatusPacket};
pub use data::Data;
pub use bus::Bus;

verus! {

/// Prefix of a packet.
///
/// All packets start with this prefix, and they can not contain it in the body.
///
/// In other words: if you see this in the data stream, it must be the start of a packet.
pub const HEADER_PREFIX: [u8; 4] = [0xFF, 0xFF, 0xFD, 0x00];

/// The size of a message header, including the pre-amble, packet ID and length.
///
/// Excludes the instruction ID, the error field of status packets, the parameters and the CRC.
pub const HEADER_SIZE: usize = 7;

/// The size of the largest message: the 16 bit length field counts the bytes after the header.
///
/// A larger write buffer is used only up to this size.
pub const MAX_MESSAGE_SIZE: usize = HEADER_SIZE + 0xFFFF;

/// The size of the largest message that a write buffer of `buffer_len` bytes can hold.
pub open spec fn spec_message_limit(buffer_len: nat) -> nat {
    if buffer_len < MAX_MESSAGE_SIZE {
        buffer_len
    } else {
        MAX_MESSAGE_SIZE as nat
    }
}

/// The size of the largest message that a write buffer of `buffer_len` bytes can hold:
/// its size, but no more than [`MAX_MESSAGE_SIZE`].
pub fn message_limit(buffer_len: usize) -> (r: usize)
    ensures
        r == spec_message_limit(buffer_len as nat),
{
    if buffer_len < MAX_MESSAGE_SIZE {
        buffer_len
    } else {
        MAX_MESSAGE_SIZE
    }
}

/// Default buffer type.
pub type DefaultBuffer = Vec<u8>;

/// The header prefix, as a sequence.
pub open spec fn spec_header_prefix() -> Seq<u8> {
    seq![0xFFu8, 0xFFu8, 0xFDu8, 0x00u8]
}

/// The bytes of `buffer` from position `i` agree with the header prefix, as far as both reach.
pub open spec fn prefix_matches_at(buffer: Seq<u8>, i: int) -> bool {
    forall|k: int| 0 <= k < 4 && i + k < buffer.len() ==> #[trigger] buffer[i + k] == spec_header_prefix()[k]
}

/// The position of the first (possibly partial) header prefix in `buffer` at or after `i`,
/// or the length of the buffer if there is none.
pub open spec fn spec_garbage_from(buffer: Seq<u8>, i: int) -> int
    decreases buffer.len() - i,
{
    if i >= buffer.len() {
        buffer.len() as int
    } else if prefix_matches_at(buffer, i) {
        i
    } else {
        spec_garbage_from(buffer, i + 1)
    }
}

/// The number of leading bytes of `buffer` that can not be the start of a message:
/// the bytes before the first position where the header prefix matches as far as the buffer reaches.
pub open spec fn spec_garbage_len(buffer: Seq<u8>) -> nat {
    spec_garbage_from(buffer, 0) as nat
}

proof fn lemma_garbage_from(buffer: Seq<u8>, i: int)
    requires
        0 <= i <= buffer.len(),
    ensures
        i <= spec_garbage_from(buffer, i) <= buffer.len(),
        spec_garbage_from(buffer, i) < buffer.len() ==> prefix_matches_at(buffer, spec_garbage_from(buffer, i)),
        forall|j: int| i <= j < spec_garbage_from(buffer, i) ==> !prefix_matches_at(buffer, j),
    decreases buffer.len() - i,
{
    if i < buffer.len() && !prefix_matches_at(buffer, i) {
        lemma_garbage_from(buffer, i + 1);
    }
}

/// The garbage length is the first position where the header prefix matches, or the whole buffer.
pub proof fn lemma_garbage_len(buffer: Seq<u8>)
    ensures
        spec_garbage_len(buffer) <= buffer.len(),
        spec_garbage_len(buffer) < buffer.len() ==> prefix_matches_at(buffer, spec_garbage_len(buffer) as int),
        forall|j: int| 0 <= j < spec_garbage_len(buffer) ==> !prefix_matches_at(buffer, j),
{
    lemma_garbage_from(buffer, 0);
}

/// A position with the properties of the garbage length is the garbage length.
pub(crate) proof fn lemma_garbage_len_unique(buffer: Seq<u8>, r: int)
    requires
        0 <= r <= buffer.len(),
        r < buffer.len() ==> prefix_matches_at(buffer, r),
        forall|j: int| 0 <= j < r ==> !prefix_matches_at(buffer, j),
    ensures
        spec_garbage_len(buffer) == r,
{
    lemma_garbage_len(buffer);
    let g = spec_garbage_len(buffer) as int;
    if g < r {
        assert(!prefix_matches_at(buffer, g));
    } else if r < g {
        assert(!prefix_matches_at(buffer, r));
    }
}

/// Bytes arriving after the garbage of a stream do not change what was garbage before:
/// the garbage of the longer stream is the old garbage followed by the garbage of what remains.
pub proof fn lemma_garbage_extend(stream: Seq<u8>, more: Seq<u8>)
    ensures
        spec_garbage_len(stream) <= stream.len(),
        spec_garbage_len(stream + more) == spec_garbage_len(stream) + spec_garbage_len(
            (stream + more).skip(spec_garbage_len(stream) as int),
        ),
{
    let k = spec_garbage_len(stream) as int;
    let t = stream + more;
    let rest = t.skip(k);
    lemma_garbage_len(stream);
    lemma_garbage_len(rest);
    let r2 = spec_garbage_len(rest) as int;
    let r = k + r2;
    if r < t.len() {
        assert forall|m: int| 0 <= m < 4 && r + m < t.len() implies #[trigger] t[r + m] == spec_header_prefix()[m] by {
            assert(rest[r2 + m] == t[r + m]);
        }
    }
    assert forall|j: int| 0 <= j < r implies !prefix_matches_at(t, j) by {
        if prefix_matches_at(t, j) {
            if j < k {
                assert forall|m: int| 0 <= m < 4 && j + m < stream.len() implies #[trigger] stream[j + m]
                    == spec_header_prefix()[m] by {
                    assert(t[j + m] == stream[j + m]);
                }
                assert(prefix_matches_at(stream, j));
            } else {
                assert forall|m: int| 0 <= m < 4 && (j - k) + m < rest.len() implies #[trigger] rest[(j - k) + m]
                    == spec_header_prefix()[m] by {
                    assert(rest[(j - k) + m] == t[j + m]);
                }
                assert(prefix_matches_at(rest, j - k));
            }
        }
    }
    lemma_garbage_len_unique(t, r);
}

/// Find the potential starting position of a header.
///
/// This will return the first possible position of the header prefix.
/// Note that if the buffer ends with a partial header prefix,
/// the start position of the partial header prefix is returned.
pub fn find_header(buffer: &[u8]) -> (r: usize)
    ensures
        r == spec_garbage_len(buffer@),
        r <= buffer@.len(),
        r < buffer@.len() ==> prefix_matches_at(buffer@, r as int),
        forall|j: int| 0 <= j < r ==> !prefix_matches_at(buffer@, j),
{
    let prefix = HEADER_PREFIX;
    assert(prefix@ == spec_header_prefix());
    let n = buffer.len();
    let mut i: usize = 0;
    while i < n
        invariant
            n == buffer@.len(),
            i <= n,
            prefix@ == spec_header_prefix(),
            forall|j: int| 0 <= j < i ==> !prefix_matches_at(buffer@, j),
        decreases n - i,
    {
        let mut k: usize = 0;
        let mut matched = true;
        while k < 4 && k < n - i
            invariant
                n == buffer@.len(),
                i < n,
                k <= 4,
                prefix@ == spec_header_prefix(),
                matched ==> forall|m: int| 0 <= m < k ==> #[trigger] buffer@[i + m] == spec_header_prefix()[m],
                !matched ==> !prefix_matches_at(buffer@, i as int),
            decreases 4 - k,
        {
            if buffer[i + k] != prefix[k] {
                matched = false;
                assert(!(buffer@[i + k as int] == spec_header_prefix()[k as int]));
            }
            k = k + 1;
        }
        if matched {
            proof {
                lemma_garbage_len_unique(buffer@, i as int);
            }
            return i;
        }
        i = i + 1;
    }
    proof {
        lemma_garbage_len_unique(buffer@, n as int);
    }
    n
}

/// The time to transfer a message of `message_size` bytes at `baud_rate` bits per second, in nanoseconds,
/// rounded up.
///
/// Each byte takes ten bits on the wire: a start bit, eight data bits and a stop bit.
pub open spec fn spec_transfer_nanos(message_size: nat, baud_rate: nat) -> nat {
    ((message_size * 10 * 1_000_000_000 + baud_rate - 1) / baud_rate as int) as nat
}

/// Calculate the time required to transfer a message of a given size, in nanoseconds, rounded up.
pub fn transfer_nanos(message_size: u32, baud_rate: u32) -> (r: u128)
    requires
        baud_rate > 0,
    ensures
        r == spec_transfer_nanos(message_size as nat, baud_rate as nat),
        r <= message_size * 10 * 1_000_000_000,
{
    let total = message_size as u128 * 10 * 1_000_000_000;
    let r = (total + baud_rate as u128 - 1) / baud_rate as u128;
    assert(r <= total) by (nonlinear_arith)
        requires
            r == (total + baud_rate - 1) / baud_rate as int,
            baud_rate >= 1,
    ;
    r
}

/// Calculate the required time to transfer a message of a given size.
///
/// The size must include any headers and footers of the message.
/// The time is rounded up to a whole nanosecond.
pub fn message_transfer_time(message_size: u32, baud_rate: u32) -> (d: Duration)
    requires
        baud_rate > 0,
    ensures
        d == spec_duration_of_nanos(spec_transfer_nanos(message_size as nat, baud_rate as nat)),
{
    let total = transfer_nanos(message_size, baud_rate);
    duration_from_nanos(total)
}

} // verus!
