//! The bulk read instruction: read different data ranges from multiple motors.
use vstd::prelude::*;

use crate::bus::endian::spec_le_bytes;
use crate::bus::frame::spec_frame;
use crate::bus::{instruction_id, packet_id};
use crate::client::client::{spec_data_reply, spec_reply_read_outcome, Client};
use crate::client::instructions::push_u16_le;
use crate::client::BulkReadData;
use crate::error::{ReadError, WriteError};
use crate::response::spec_reply_header;
use crate::serial_port::SerialPort;
use crate::Response;

verus! {

/// The parameters of a bulk read: for each read the motor ID, the address and the count (little endian).
pub open spec fn spec_bulk_read_parameters(reads: Seq<BulkReadData>) -> Seq<u8>
    decreases reads.len(),
{
    if reads.len() == 0 {
        Seq::empty()
    } else {
        let read = reads.last();
        spec_bulk_read_parameters(reads.drop_last()) + seq![read.motor_id] + spec_le_bytes(read.address as nat, 2)
            + spec_le_bytes(read.count as nat, 2)
    }
}

/// No motor ID occurs twice among the reads: the protocol forbids it.
pub open spec fn spec_unique_motor_ids(reads: Seq<BulkReadData>) -> bool {
    forall|i: int, j: int| 0 <= i < j < reads.len() ==> reads[i].motor_id != reads[j].motor_id
}

/// The motor IDs of the reads are unique exactly when any two reads, at whatever positions, are for different
/// motors: a motor ID repeated anywhere in the reads, next to each other or not, makes them not unique.
pub proof fn lemma_unique_motor_ids(reads: Seq<BulkReadData>)
    ensures
        spec_unique_motor_ids(reads) <==> forall|i: int, j: int|
            0 <= i < reads.len() && 0 <= j < reads.len() && i != j ==> #[trigger] reads[i].motor_id
                != #[trigger] reads[j].motor_id,
        forall|i: int, j: int|
            0 <= i < reads.len() && 0 <= j < reads.len() && i != j && #[trigger] reads[i].motor_id
                == #[trigger] reads[j].motor_id ==> !spec_unique_motor_ids(reads),
{
    if spec_unique_motor_ids(reads) {
        assert forall|i: int, j: int|
            0 <= i < reads.len() && 0 <= j < reads.len() && i != j implies #[trigger] reads[i].motor_id
                != #[trigger] reads[j].motor_id by {
            if i > j {
                assert(reads[j].motor_id != reads[i].motor_id);
            }
        }
    }
}

/// Check that no motor ID occurs twice among the reads.
pub fn unique_motor_ids(reads: &[BulkReadData]) -> (r: bool)
    ensures
        r == spec_unique_motor_ids(reads@),
{
    let n = reads.len();
    let mut i: usize = 0;
    while i < n
        invariant
            n == reads@.len(),
            i <= n,
            forall|a: int, b: int| 0 <= a < i && a < b < n ==> reads@[a].motor_id != reads@[b].motor_id,
        decreases n - i,
    {
        let mut j: usize = i + 1;
        while j < n
            invariant
                n == reads@.len(),
                i < n,
                i + 1 <= j <= n,
                forall|b: int| i < b < j ==> reads@[i as int].motor_id != reads@[b].motor_id,
            decreases n - j,
        {
            if reads[i].motor_id == reads[j].motor_id {
                return false;
            }
            j = j + 1;
        }
        i = i + 1;
    }
    true
}

/// The parameters of a bulk read.
pub fn bulk_read_parameters(reads: &[BulkReadData]) -> (r: Vec<u8>)
    ensures
        r@ == spec_bulk_read_parameters(reads@),
        r@.len() == 5 * reads@.len(),
{
    let mut parameters = Vec::new();
    let mut i: usize = 0;
    while i < reads.len()
        invariant
            i <= reads@.len(),
            parameters@ == spec_bulk_read_parameters(reads@.take(i as int)),
            parameters@.len() == 5 * i,
        decreases reads@.len() - i,
    {
        assert(reads@.take(i + 1).drop_last() =~= reads@.take(i as int));
        let read = reads[i];
        parameters.push(read.motor_id);
        push_u16_le(&mut parameters, read.address);
        push_u16_le(&mut parameters, read.count);
        i = i + 1;
        assert(parameters@ =~= spec_bulk_read_parameters(reads@.take(i as int)));
    }
    assert(reads@.take(i as int) =~= reads@);
    parameters
}

impl<Port: SerialPort> Client<Port> {
    /// Read arbitrary data ranges from multiple motors.
    ///
    /// Unlike the sync read instruction, a bulk read can be used to read a different amount of data from a different address for each motor.
    ///
    /// See [`BulkReadBytes`] for how to consume the per-motor replies.
    ///
    /// The protocol forbids specifying the same motor ID multiple times: see [`unique_motor_ids`].
    pub fn bulk_read_bytes<'a>(&'a mut self, reads: &'a [BulkReadData]) -> (r: Result<
        BulkReadBytes<'a, Port>,
        WriteError<Port::Error>,
    >)
        requires
            old(self).wf(),
            old(self).spec_baud_rate() > 0,
            spec_unique_motor_ids(reads@),
            5 * reads@.len() + 12 <= usize::MAX,
        ensures
            r is Err ==> final(self).keeps_config(*old(self)),
            (r matches Err(WriteError::BufferTooSmall(_))) <==> spec_frame(
                packet_id::BROADCAST,
                instruction_id::BULK_READ,
                spec_bulk_read_parameters(reads@),
            ).len() > old(self).spec_write_capacity(),
            r matches Err(WriteError::Write(_)) ==> final(self).spec_sent() == spec_frame(
                packet_id::BROADCAST,
                instruction_id::BULK_READ,
                spec_bulk_read_parameters(reads@),
            ),
            r matches Ok(reader) ==> {
                &&& reader.wf()
                &&& reader.spec_client().keeps_config(*old(self))
                &&& reader.spec_client().spec_sent() == spec_frame(
                    packet_id::BROADCAST,
                    instruction_id::BULK_READ,
                    spec_bulk_read_parameters(reads@),
                )
                &&& reader.spec_reads() == reads@
                &&& reader.spec_index() == 0
            },
    {
        let parameters = bulk_read_parameters(reads);
        if let Err(e) = self.write_packet(packet_id::BROADCAST, instruction_id::BULK_READ, parameters.as_slice()) {
            return Err(e);
        }
        Ok(BulkReadBytes { client: self, bulk_read_data: reads, index: 0 })
    }

    /// Read arbitrary data ranges from multiple motors, borrowing each reply from the internal read buffer.
    ///
    /// Consume the replies with [`BulkReadBytes::read_next_borrow`].
    ///
    /// The protocol forbids specifying the same motor ID multiple times: see [`unique_motor_ids`].
    pub fn bulk_read_bytes_borrow<'a>(&'a mut self, reads: &'a [BulkReadData]) -> (r: Result<
        BulkReadBytes<'a, Port>,
        WriteError<Port::Error>,
    >)
        requires
            old(self).wf(),
            old(self).spec_baud_rate() > 0,
            spec_unique_motor_ids(reads@),
            5 * reads@.len() + 12 <= usize::MAX,
        ensures
            r is Err ==> final(self).keeps_config(*old(self)),
            (r matches Err(WriteError::BufferTooSmall(_))) <==> spec_frame(
                packet_id::BROADCAST,
                instruction_id::BULK_READ,
                spec_bulk_read_parameters(reads@),
            ).len() > old(self).spec_write_capacity(),
            r matches Err(WriteError::Write(_)) ==> final(self).spec_sent() == spec_frame(
                packet_id::BROADCAST,
                instruction_id::BULK_READ,
                spec_bulk_read_parameters(reads@),
            ),
            r matches Ok(reader) ==> {
                &&& reader.wf()
                &&& reader.spec_client().keeps_config(*old(self))
                &&& reader.spec_client().spec_sent() == spec_frame(
                    packet_id::BROADCAST,
                    instruction_id::BULK_READ,
                    spec_bulk_read_parameters(reads@),
                )
                &&& reader.spec_reads() == reads@
                &&& reader.spec_index() == 0
            },
    {
        self.bulk_read_bytes(reads)
    }
}

/// A bulk read operation that returns the unparsed bytes from each motor, one reply at a time.
///
/// The replies must be fully consumed before the client is used again:
/// call [`read_next`](Self::read_next) until it returns [`None`].
pub struct BulkReadBytes<'a, Port: SerialPort> {
    client: &'a mut Client<Port>,
    bulk_read_data: &'a [BulkReadData],
    index: usize,
}

impl<'a, Port: SerialPort> BulkReadBytes<'a, Port> {
    /// The client of the read, as it is now.
    pub closed spec fn spec_client(&self) -> Client<Port> {
        *self.client
    }

    /// The requested reads, in the order of the replies.
    pub closed spec fn spec_reads(&self) -> Seq<BulkReadData> {
        self.bulk_read_data@
    }

    /// The number of replies read so far.
    pub closed spec fn spec_index(&self) -> nat {
        self.index as nat
    }

    /// The client is well formed and knows its baud rate, and no more replies were read than reads requested.
    pub closed spec fn wf(&self) -> bool {
        &&& self.client.wf()
        &&& self.client.spec_baud_rate() > 0
        &&& self.index <= self.bulk_read_data@.len()
    }

    /// Get the number of responses that should still be received.
    pub fn remaining(&self) -> (r: usize)
        requires
            self.wf(),
        ensures
            r == self.spec_reads().len() - self.spec_index(),
    {
        self.bulk_read_data.len() - self.index
    }

    /// Read the next motor reply, or [`None`] once every motor has replied.
    pub fn read_next(&mut self) -> (r: Option<Result<Response<Vec<u8>>, ReadError<Port::Error>>>)
        requires
            old(self).wf(),
        ensures
            final(self).wf(),
            final(self).spec_client().keeps_config(old(self).spec_client()),
            final(self).spec_reads() == old(self).spec_reads(),
            r is None <==> old(self).spec_index() == old(self).spec_reads().len(),
            final(self).spec_index() == (if r is None { old(self).spec_index() } else { old(self).spec_index() + 1 }),
            r matches Some(Ok(response)) ==> exists|data: Seq<u8>| #[trigger]
                spec_data_reply(
                    data,
                    old(self).spec_reads()[old(self).spec_index() as int].motor_id,
                    old(self).spec_reads()[old(self).spec_index() as int].count as nat,
                ) && spec_reply_header(response, data) && response.data@ == data.skip(9),
            r matches Some(result) ==> spec_reply_read_outcome(
                old(self).spec_client(),
                final(self).spec_client(),
                old(self).spec_reads()[old(self).spec_index() as int].motor_id,
                old(self).spec_reads()[old(self).spec_index() as int].count as nat,
                result,
                (|response: Response<Vec<u8>>, data: Seq<u8>| spec_reply_header(response, data) && response.data@
                    == data.skip(9)),
            ),
    {
        if self.index >= self.bulk_read_data.len() {
            return None;
        }
        let read = self.bulk_read_data[self.index];
        assert(read == old(self).spec_reads()[old(self).spec_index() as int]);
        self.index = self.index + 1;
        let status = match self.client.read_reply(read.motor_id, read.count) {
            Ok(status) => status,
            Err(e) => return Some(Err(e)),
        };
        let r: Option<Result<Response<Vec<u8>>, ReadError<Port::Error>>> = Some(
            Ok(Response::<Vec<u8>>::from_status_owned(status)),
        );
        assert(spec_data_reply(status.spec_data(), read.motor_id, read.count as nat) && spec_reply_header(
            r->Some_0->Ok_0,
            status.spec_data(),
        ));
        r
    }

    /// Read the next motor reply borrowing the data from the internal read buffer, or [`None`] once every motor has replied.
    pub fn read_next_borrow(&mut self) -> (r: Option<Result<Response<&[u8]>, ReadError<Port::Error>>>)
        requires
            old(self).wf(),
        ensures
            final(self).wf(),
            final(self).spec_client().keeps_config(old(self).spec_client()),
            final(self).spec_reads() == old(self).spec_reads(),
            final(self).spec_index() == (if r is None { old(self).spec_index() } else { old(self).spec_index() + 1 }),
            r is None <==> old(self).spec_index() == old(self).spec_reads().len(),
            r matches Some(Ok(response)) ==> exists|data: Seq<u8>| #[trigger]
                spec_data_reply(
                    data,
                    old(self).spec_reads()[old(self).spec_index() as int].motor_id,
                    old(self).spec_reads()[old(self).spec_index() as int].count as nat,
                ) && spec_reply_header(response, data) && response.data@ == data.skip(9),
            r matches Some(result) ==> spec_reply_read_outcome(
                old(self).spec_client(),
                final(self).spec_client(),
                old(self).spec_reads()[old(self).spec_index() as int].motor_id,
                old(self).spec_reads()[old(self).spec_index() as int].count as nat,
                result,
                (|response: Response<&[u8]>, data: Seq<u8>| spec_reply_header(response, data) && response.data@
                    == data.skip(9)),
            ),
    {
        if self.index >= self.bulk_read_data.len() {
            return None;
        }
        let read = self.bulk_read_data[self.index];
        assert(read == old(self).spec_reads()[old(self).spec_index() as int]);
        self.index = self.index + 1;
        let status = match self.client.read_reply(read.motor_id, read.count) {
            Ok(status) => status,
            Err(e) => return Some(Err(e)),
        };
        let r: Option<Result<Response<&[u8]>, ReadError<Port::Error>>> = Some(Ok(Response::<&[u8]>::from_status(status)));
        assert(spec_data_reply(status.spec_data(), read.motor_id, read.count as nat) && spec_reply_header(
            r->Some_0->Ok_0,
            status.spec_data(),
        ));
        r
    }
}

} // verus!
