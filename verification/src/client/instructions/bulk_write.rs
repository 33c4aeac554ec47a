//! The bulk write instruction: write different data to different addresses of multiple motors.
use vstd::prelude::*;

use crate::bus::endian::spec_le_bytes;
use crate::bus::{instruction_id, packet_id};
use crate::client::client::{spec_broadcast_instruction, Client};
use crate::client::instructions::{push_bytes, push_u16_le};
use crate::client::BulkWriteData;
use crate::error::WriteError;
use crate::serial_port::SerialPort;

verus! {

/// The motor blocks of a bulk write: for each motor its ID, the address and the data length (little endian),
/// followed by the data.
pub open spec fn spec_bulk_write_blocks(writes: Seq<BulkWriteData<Vec<u8>>>) -> Seq<u8>
    decreases writes.len(),
{
    if writes.len() == 0 {
        Seq::empty()
    } else {
        let write = writes.last();
        spec_bulk_write_blocks(writes.drop_last()) + seq![write.motor_id] + spec_le_bytes(write.address as nat, 2)
            + spec_le_bytes(write.data@.len(), 2) + write.data@
    }
}

/// The data of every write fits the 16 bit length field of its block.
pub open spec fn spec_bulk_write_lengths_fit(writes: Seq<BulkWriteData<Vec<u8>>>) -> bool {
    forall|i: int| 0 <= i < writes.len() ==> (#[trigger] writes[i]).data@.len() <= u16::MAX
}

/// Check that the data of every write fits the 16 bit length field of its block.
pub fn bulk_write_lengths_fit(writes: &[BulkWriteData<Vec<u8>>]) -> (r: bool)
    ensures
        r == spec_bulk_write_lengths_fit(writes@),
{
    let mut i: usize = 0;
    while i < writes.len()
        invariant
            i <= writes@.len(),
            forall|j: int| 0 <= j < i ==> (#[trigger] writes@[j]).data@.len() <= u16::MAX,
        decreases writes@.len() - i,
    {
        if writes[i].data.len() > 0xFFFF {
            return false;
        }
        i = i + 1;
    }
    true
}

/// No motor ID occurs twice among the writes: the protocol forbids it.
pub open spec fn spec_unique_write_motor_ids(writes: Seq<BulkWriteData<Vec<u8>>>) -> bool {
    forall|i: int, j: int| 0 <= i < j < writes.len() ==> writes[i].motor_id != writes[j].motor_id
}

/// The motor IDs of the writes are unique exactly when any two writes, at whatever positions, are for different
/// motors: a motor ID repeated anywhere in the writes, next to each other or not, makes them not unique.
pub proof fn lemma_unique_write_motor_ids(writes: Seq<BulkWriteData<Vec<u8>>>)
    ensures
        spec_unique_write_motor_ids(writes) <==> forall|i: int, j: int|
            0 <= i < writes.len() && 0 <= j < writes.len() && i != j ==> #[trigger] writes[i].motor_id
                != #[trigger] writes[j].motor_id,
        forall|i: int, j: int|
            0 <= i < writes.len() && 0 <= j < writes.len() && i != j && #[trigger] writes[i].motor_id
                == #[trigger] writes[j].motor_id ==> !spec_unique_write_motor_ids(writes),
{
    if spec_unique_write_motor_ids(writes) {
        assert forall|i: int, j: int|
            0 <= i < writes.len() && 0 <= j < writes.len() && i != j implies #[trigger] writes[i].motor_id
                != #[trigger] writes[j].motor_id by {
            if i > j {
                assert(writes[j].motor_id != writes[i].motor_id);
            }
        }
    }
}

/// Check that no motor ID occurs twice among the writes.
pub fn unique_write_motor_ids(writes: &[BulkWriteData<Vec<u8>>]) -> (r: bool)
    ensures
        r == spec_unique_write_motor_ids(writes@),
{
    let n = writes.len();
    let mut i: usize = 0;
    while i < n
        invariant
            n == writes@.len(),
            i <= n,
            forall|a: int, b: int| 0 <= a < i && a < b < n ==> writes@[a].motor_id != writes@[b].motor_id,
        decreases n - i,
    {
        let mut j: usize = i + 1;
        while j < n
            invariant
                n == writes@.len(),
                i < n,
                i + 1 <= j <= n,
                forall|b: int| i < b < j ==> writes@[i as int].motor_id != writes@[b].motor_id,
            decreases n - j,
        {
            if writes[i].motor_id == writes[j].motor_id {
                return false;
            }
            j = j + 1;
        }
        i = i + 1;
    }
    true
}

/// The parameters of a bulk write.
pub fn bulk_write_parameters(writes: &[BulkWriteData<Vec<u8>>]) -> (r: Vec<u8>)
    requires
        spec_bulk_write_lengths_fit(writes@),
    ensures
        r@ == spec_bulk_write_blocks(writes@),
{
    let mut parameters = Vec::new();
    let mut i: usize = 0;
    while i < writes.len()
        invariant
            i <= writes@.len(),
            spec_bulk_write_lengths_fit(writes@),
            parameters@ == spec_bulk_write_blocks(writes@.take(i as int)),
        decreases writes@.len() - i,
    {
        assert(writes@.take(i + 1).drop_last() =~= writes@.take(i as int));
        let write = &writes[i];
        assert(write.data@.len() <= u16::MAX);
        parameters.push(write.motor_id);
        push_u16_le(&mut parameters, write.address);
        push_u16_le(&mut parameters, write.data.len() as u16);
        push_bytes(&mut parameters, write.data.as_slice());
        i = i + 1;
        assert(parameters@ =~= spec_bulk_write_blocks(writes@.take(i as int)));
    }
    assert(writes@.take(i as int) =~= writes@);
    parameters
}

impl<Port: SerialPort> Client<Port> {
    /// Synchronously write arbitrary data ranges to multiple motors.
    ///
    /// Each motor will perform the write as soon as it receives the instruction.
    /// This is the same for all motors, so all of them write their value at (nearly) the same time.
    ///
    /// The protocol forbids specifying the same motor ID more than once (see [`unique_write_motor_ids`]),
    /// and the data for each motor must fit the 16 bit length field of its block (see [`bulk_write_lengths_fit`]).
    pub fn bulk_write(&mut self, writes: &[BulkWriteData<Vec<u8>>]) -> (r: Result<(), WriteError<Port::Error>>)
        requires
            old(self).wf(),
            spec_unique_write_motor_ids(writes@),
            spec_bulk_write_lengths_fit(writes@),
            spec_bulk_write_blocks(writes@).len() + 16 <= usize::MAX,
        ensures
            spec_broadcast_instruction(*old(self), *final(self), instruction_id::BULK_WRITE, spec_bulk_write_blocks(writes@), r),
    {
        let parameters = bulk_write_parameters(writes);
        self.write_packet(packet_id::BROADCAST, instruction_id::BULK_WRITE, parameters.as_slice())
    }
}

} // verus!
