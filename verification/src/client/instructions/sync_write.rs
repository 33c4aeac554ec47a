//! The sync write instruction: write the same number of bytes to the same address of multiple motors.
use vstd::prelude::*;

use crate::bus::data::Data;
use crate::bus::endian::{lemma_le_bytes_len, spec_le_bytes};
use crate::bus::{instruction_id, packet_id};
use crate::client::client::{spec_broadcast_instruction, Client};
use crate::client::instructions::{push_bytes, push_u16_le, push_value};
use crate::client::SyncWriteData;
use crate::error::WriteError;
use crate::serial_port::SerialPort;

verus! {

/// The motor blocks of a sync write: for each motor its ID followed by its data.
pub open spec fn spec_sync_write_blocks(data: Seq<SyncWriteData<Vec<u8>>>) -> Seq<u8>
    decreases data.len(),
{
    if data.len() == 0 {
        Seq::empty()
    } else {
        spec_sync_write_blocks(data.drop_last()) + seq![data.last().motor_id] + data.last().data@
    }
}

/// The motor blocks of a sync write of values: for each motor its ID followed by the encoding of its value.
pub open spec fn spec_sync_write_value_blocks<T: Data>(data: Seq<SyncWriteData<T>>) -> Seq<u8>
    decreases data.len(),
{
    if data.len() == 0 {
        Seq::empty()
    } else {
        spec_sync_write_value_blocks(data.drop_last()) + seq![data.last().motor_id] + data.last().data.spec_encode()
    }
}

/// Every motor of a sync write gets `count` bytes of data.
pub open spec fn spec_sync_write_counts_match(count: u16, data: Seq<SyncWriteData<Vec<u8>>>) -> bool {
    forall|i: int| 0 <= i < data.len() ==> (#[trigger] data[i]).data@.len() == count
}

/// The parameters of a sync write: the address and the count (little endian), followed by the motor blocks.
pub open spec fn spec_sync_write_parameters(address: u16, count: u16, blocks: Seq<u8>) -> Seq<u8> {
    spec_le_bytes(address as nat, 2) + spec_le_bytes(count as nat, 2) + blocks
}

/// The motor blocks of a sync write are one byte longer than the data of each motor.
proof fn lemma_sync_write_blocks_len(count: u16, data: Seq<SyncWriteData<Vec<u8>>>)
    requires
        spec_sync_write_counts_match(count, data),
    ensures
        spec_sync_write_blocks(data).len() == data.len() * (1 + count),
    decreases data.len(),
{
    if data.len() > 0 {
        assert(spec_sync_write_counts_match(count, data.drop_last()));
        assert(data.last() == data[data.len() - 1]);
        lemma_sync_write_blocks_len(count, data.drop_last());
        assert(data.len() * (1 + count) == (data.len() - 1) * (1 + count) + (1 + count)) by (nonlinear_arith);
    }
}

/// The motor blocks of a sync write of values are one byte longer than the encoded size of each value.
proof fn lemma_sync_write_value_blocks_len<T: Data>(data: Seq<SyncWriteData<T>>)
    ensures
        spec_sync_write_value_blocks(data).len() == data.len() * (1 + T::ENCODED_SIZE),
    decreases data.len(),
{
    if data.len() > 0 {
        T::lemma_decode_encode(data.last().data);
        lemma_sync_write_value_blocks_len(data.drop_last());
        assert(data.len() * (1 + T::ENCODED_SIZE) == (data.len() - 1) * (1 + T::ENCODED_SIZE) + (1 + T::ENCODED_SIZE))
            by (nonlinear_arith);
    }
}

/// Check that every motor of a sync write gets `count` bytes of data.
pub fn sync_write_counts_match(count: u16, data: &[SyncWriteData<Vec<u8>>]) -> (r: bool)
    ensures
        r == spec_sync_write_counts_match(count, data@),
{
    let mut i: usize = 0;
    while i < data.len()
        invariant
            i <= data@.len(),
            forall|j: int| 0 <= j < i ==> (#[trigger] data@[j]).data@.len() == count,
        decreases data@.len() - i,
    {
        if data[i].data.len() != count as usize {
            return false;
        }
        i = i + 1;
    }
    true
}

/// The parameters of a sync write.
pub fn sync_write_parameters(address: u16, count: u16, data: &[SyncWriteData<Vec<u8>>]) -> (r: Vec<u8>)
    ensures
        r@ == spec_sync_write_parameters(address, count, spec_sync_write_blocks(data@)),
{
    let mut parameters = Vec::new();
    push_u16_le(&mut parameters, address);
    push_u16_le(&mut parameters, count);
    let ghost head = parameters@;
    let mut i: usize = 0;
    while i < data.len()
        invariant
            i <= data@.len(),
            head == spec_le_bytes(address as nat, 2) + spec_le_bytes(count as nat, 2),
            parameters@ == head + spec_sync_write_blocks(data@.take(i as int)),
        decreases data@.len() - i,
    {
        assert(data@.take(i + 1).drop_last() =~= data@.take(i as int));
        parameters.push(data[i].motor_id);
        push_bytes(&mut parameters, data[i].data.as_slice());
        i = i + 1;
        assert(parameters@ =~= head + spec_sync_write_blocks(data@.take(i as int)));
    }
    assert(data@.take(i as int) =~= data@);
    parameters
}

/// The parameters of a sync write of values.
pub fn sync_write_value_parameters<T: Data>(address: u16, data: &[SyncWriteData<T>]) -> (r: Vec<u8>)
    ensures
        r@ == spec_sync_write_parameters(address, T::ENCODED_SIZE, spec_sync_write_value_blocks(data@)),
{
    let mut parameters = Vec::new();
    push_u16_le(&mut parameters, address);
    push_u16_le(&mut parameters, T::ENCODED_SIZE);
    let ghost head = parameters@;
    let mut i: usize = 0;
    while i < data.len()
        invariant
            i <= data@.len(),
            head == spec_le_bytes(address as nat, 2) + spec_le_bytes(T::ENCODED_SIZE as nat, 2),
            parameters@ == head + spec_sync_write_value_blocks(data@.take(i as int)),
        decreases data@.len() - i,
    {
        assert(data@.take(i + 1).drop_last() =~= data@.take(i as int));
        parameters.push(data[i].motor_id);
        push_value(&mut parameters, &data[i].data);
        i = i + 1;
        assert(parameters@ =~= head + spec_sync_write_value_blocks(data@.take(i as int)));
    }
    assert(data@.take(i as int) =~= data@);
    parameters
}

impl<Port: SerialPort> Client<Port> {
    /// Synchronously write an arbitrary number of bytes to multiple motors.
    ///
    /// Each motor will perform the write as soon as it receives the instruction.
    /// This is the same for all motors, so all of them write their value at (nearly) the same time.
    ///
    /// Every motor must get exactly `count` bytes of data: see [`sync_write_counts_match`].
    pub fn sync_write_bytes(&mut self, address: u16, count: u16, data: &[SyncWriteData<Vec<u8>>]) -> (r: Result<
        (),
        WriteError<Port::Error>,
    >)
        requires
            old(self).wf(),
            spec_sync_write_counts_match(count, data@),
            data@.len() * (1 + count) + 20 <= usize::MAX,
        ensures
            spec_broadcast_instruction(
                *old(self),
                *final(self),
                instruction_id::SYNC_WRITE,
                spec_sync_write_parameters(address, count, spec_sync_write_blocks(data@)),
                r,
            ),
    {
        let parameters = sync_write_parameters(address, count, data);
        proof {
            lemma_sync_write_blocks_len(count, data@);
            lemma_le_bytes_len(address as nat, 2);
            lemma_le_bytes_len(count as nat, 2);
        }
        self.write_packet(packet_id::BROADCAST, instruction_id::SYNC_WRITE, parameters.as_slice())
    }

    /// Synchronously write a value to multiple motors.
    ///
    /// Each motor will perform the write as soon as it receives the instruction.
    /// This is the same for all motors, so all of them write their value at (nearly) the same time.
    pub fn sync_write<T: Data>(&mut self, address: u16, data: &[SyncWriteData<T>]) -> (r: Result<(), WriteError<Port::Error>>)
        requires
            old(self).wf(),
            data@.len() * (1 + T::ENCODED_SIZE) + 20 <= usize::MAX,
        ensures
            spec_broadcast_instruction(
                *old(self),
                *final(self),
                instruction_id::SYNC_WRITE,
                spec_sync_write_parameters(address, T::ENCODED_SIZE, spec_sync_write_value_blocks(data@)),
                r,
            ),
    {
        let parameters = sync_write_value_parameters(address, data);
        proof {
            lemma_sync_write_value_blocks_len::<T>(data@);
            lemma_le_bytes_len(address as nat, 2);
            lemma_le_bytes_len(T::ENCODED_SIZE as nat, 2);
        }
        self.write_packet(packet_id::BROADCAST, instruction_id::SYNC_WRITE, parameters.as_slice())
    }
}

} // verus!
