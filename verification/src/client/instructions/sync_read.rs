//! The sync read instruction: read the same number of bytes from the same address of multiple motors.
use vstd::prelude::*;

use core::marker::PhantomData;

use crate::bus::data::Data;
use crate::bus::endian::spec_le_bytes;
use crate::bus::frame::spec_frame;
use crate::bus::{instruction_id, packet_id};
use crate::client::client::{spec_data_reply, spec_reply_read_outcome, Client};
use crate::client::instructions::{push_bytes, push_u16_le};
use crate::error::{ReadError, WriteError};
use crate::response::spec_reply_header;
use crate::serial_port::SerialPort;
use crate::Response;

verus! {

/// The parameters of a sync read: the address and the count (little endian), followed by the motor IDs.
pub open spec fn spec_sync_read_parameters(address: u16, count: u16, motor_ids: Seq<u8>) -> Seq<u8> {
    spec_le_bytes(address as nat, 2) + spec_le_bytes(count as nat, 2) + motor_ids
}

/// The parameters of a sync read.
pub fn sync_read_parameters(address: u16, count: u16, motor_ids: &[u8]) -> (r: Vec<u8>)
    ensures
        r@ == spec_sync_read_parameters(address, count, motor_ids@),
        r@.len() == 4 + motor_ids@.len(),
{
    let mut parameters = Vec::new();
    push_u16_le(&mut parameters, address);
    push_u16_le(&mut parameters, count);
    push_bytes(&mut parameters, motor_ids);
    parameters
}

impl<Port: SerialPort> Client<Port> {
    /// Send a sync read instruction.
    fn write_sync_read(&mut self, motor_ids: &[u8], address: u16, count: u16) -> (r: Result<(), WriteError<Port::Error>>)
        requires
            old(self).wf(),
            motor_ids@.len() <= isize::MAX,
        ensures
            final(self).keeps_config(*old(self)),
            (r matches Err(WriteError::BufferTooSmall(_))) <==> spec_frame(
                packet_id::BROADCAST,
                instruction_id::SYNC_READ,
                spec_sync_read_parameters(address, count, motor_ids@),
            ).len() > old(self).spec_write_capacity(),
            r matches Err(WriteError::Write(_)) ==> final(self).spec_sent() == spec_frame(
                packet_id::BROADCAST,
                instruction_id::SYNC_READ,
                spec_sync_read_parameters(address, count, motor_ids@),
            ),
            r is Ok ==> final(self).spec_sent() == spec_frame(
                packet_id::BROADCAST,
                instruction_id::SYNC_READ,
                spec_sync_read_parameters(address, count, motor_ids@),
            ),
    {
        let parameters = sync_read_parameters(address, count, motor_ids);
        self.write_packet(packet_id::BROADCAST, instruction_id::SYNC_READ, parameters.as_slice())
    }

    /// Read a number of bytes from multiple motors in one command.
    ///
    /// See [`SyncReadBytes`] for how to consume the per-motor replies.
    pub fn sync_read_bytes<'a>(&'a mut self, motor_ids: &'a [u8], address: u16, count: u16) -> (r: Result<
        SyncReadBytes<'a, Port>,
        WriteError<Port::Error>,
    >)
        requires
            old(self).wf(),
            old(self).spec_baud_rate() > 0,
            motor_ids@.len() <= isize::MAX,
        ensures
            r is Err ==> final(self).keeps_config(*old(self)),
            (r matches Err(WriteError::BufferTooSmall(_))) <==> spec_frame(
                packet_id::BROADCAST,
                instruction_id::SYNC_READ,
                spec_sync_read_parameters(address, count, motor_ids@),
            ).len() > old(self).spec_write_capacity(),
            r matches Err(WriteError::Write(_)) ==> final(self).spec_sent() == spec_frame(
                packet_id::BROADCAST,
                instruction_id::SYNC_READ,
                spec_sync_read_parameters(address, count, motor_ids@),
            ),
            r matches Ok(reader) ==> {
                &&& reader.wf()
                &&& reader.spec_client().keeps_config(*old(self))
                &&& reader.spec_client().spec_sent() == spec_frame(
                    packet_id::BROADCAST,
                    instruction_id::SYNC_READ,
                    spec_sync_read_parameters(address, count, motor_ids@),
                )
                &&& reader.spec_motor_ids() == motor_ids@
                &&& reader.spec_count() == count
                &&& reader.spec_index() == 0
            },
    {
        if let Err(e) = self.write_sync_read(motor_ids, address, count) {
            return Err(e);
        }
        Ok(SyncReadBytes { client: self, count, motor_ids, index: 0 })
    }

    /// Read a number of bytes from multiple motors in one command, borrowing each reply from the read buffer.
    ///
    /// Consume the replies with [`SyncReadBytes::read_next_borrow`].
    pub fn sync_read_bytes_borrow<'a>(&'a mut self, motor_ids: &'a [u8], address: u16, count: u16) -> (r: Result<
        SyncReadBytes<'a, Port>,
        WriteError<Port::Error>,
    >)
        requires
            old(self).wf(),
            old(self).spec_baud_rate() > 0,
            motor_ids@.len() <= isize::MAX,
        ensures
            r is Err ==> final(self).keeps_config(*old(self)),
            (r matches Err(WriteError::BufferTooSmall(_))) <==> spec_frame(
                packet_id::BROADCAST,
                instruction_id::SYNC_READ,
                spec_sync_read_parameters(address, count, motor_ids@),
            ).len() > old(self).spec_write_capacity(),
            r matches Err(WriteError::Write(_)) ==> final(self).spec_sent() == spec_frame(
                packet_id::BROADCAST,
                instruction_id::SYNC_READ,
                spec_sync_read_parameters(address, count, motor_ids@),
            ),
            r matches Ok(reader) ==> {
                &&& reader.wf()
                &&& reader.spec_client().keeps_config(*old(self))
                &&& reader.spec_client().spec_sent() == spec_frame(
                    packet_id::BROADCAST,
                    instruction_id::SYNC_READ,
                    spec_sync_read_parameters(address, count, motor_ids@),
                )
                &&& reader.spec_motor_ids() == motor_ids@
                &&& reader.spec_count() == count
                &&& reader.spec_index() == 0
            },
    {
        self.sync_read_bytes(motor_ids, address, count)
    }

    /// Read values from multiple motors in one command.
    ///
    /// See [`SyncRead`] for how to consume the per-motor replies.
    pub fn sync_read<'a, T: Data>(&'a mut self, motor_ids: &'a [u8], address: u16) -> (r: Result<
        SyncRead<'a, T, Port>,
        WriteError<Port::Error>,
    >)
        requires
            old(self).wf(),
            old(self).spec_baud_rate() > 0,
            motor_ids@.len() <= isize::MAX,
        ensures
            r is Err ==> final(self).keeps_config(*old(self)),
            (r matches Err(WriteError::BufferTooSmall(_))) <==> spec_frame(
                packet_id::BROADCAST,
                instruction_id::SYNC_READ,
                spec_sync_read_parameters(address, T::ENCODED_SIZE, motor_ids@),
            ).len() > old(self).spec_write_capacity(),
            r matches Err(WriteError::Write(_)) ==> final(self).spec_sent() == spec_frame(
                packet_id::BROADCAST,
                instruction_id::SYNC_READ,
                spec_sync_read_parameters(address, T::ENCODED_SIZE, motor_ids@),
            ),
            r matches Ok(reader) ==> {
                &&& reader.wf()
                &&& reader.spec_client().keeps_config(*old(self))
                &&& reader.spec_client().spec_sent() == spec_frame(
                    packet_id::BROADCAST,
                    instruction_id::SYNC_READ,
                    spec_sync_read_parameters(address, T::ENCODED_SIZE, motor_ids@),
                )
                &&& reader.spec_motor_ids() == motor_ids@
                &&& reader.spec_index() == 0
            },
    {
        self.write_sync_read(motor_ids, address, T::ENCODED_SIZE)?;
        Ok(SyncRead { client: self, motor_ids, index: 0, data: PhantomData })
    }
}

/// A sync read operation that returns the unparsed bytes from each motor, one reply at a time.
///
/// The replies must be fully consumed before the client is used again:
/// call [`read_next`](Self::read_next) until it returns [`None`].
pub struct SyncReadBytes<'a, Port: SerialPort> {
    client: &'a mut Client<Port>,
    count: u16,
    motor_ids: &'a [u8],
    index: usize,
}

/// A sync read operation that returns the parsed value from each motor, one reply at a time.
///
/// The replies must be fully consumed before the client is used again:
/// call [`read_next`](Self::read_next) until it returns [`None`].
pub struct SyncRead<'a, T: Data, Port: SerialPort> {
    client: &'a mut Client<Port>,
    motor_ids: &'a [u8],
    index: usize,
    data: PhantomData<T>,
}

impl<'a, Port: SerialPort> SyncReadBytes<'a, Port> {
    /// The client of the read, as it is now.
    pub closed spec fn spec_client(&self) -> Client<Port> {
        *self.client
    }

    /// The motors that reply, in order.
    pub closed spec fn spec_motor_ids(&self) -> Seq<u8> {
        self.motor_ids@
    }

    /// The number of bytes each motor replies with.
    pub closed spec fn spec_count(&self) -> u16 {
        self.count
    }

    /// The number of replies read so far.
    pub closed spec fn spec_index(&self) -> nat {
        self.index as nat
    }

    /// The client is well formed and knows its baud rate, and no more replies were read than motors asked.
    pub closed spec fn wf(&self) -> bool {
        &&& self.client.wf()
        &&& self.client.spec_baud_rate() > 0
        &&& self.index <= self.motor_ids@.len()
    }

    /// The number of responses that should still be received.
    pub open spec fn spec_remaining(&self) -> int {
        self.spec_motor_ids().len() - self.spec_index()
    }

    /// `after` is `before` with one more reply read, as [`Self::read_next`] leaves it when it returns a reply.
    pub open spec fn spec_reply_read(before: Self, after: Self) -> bool {
        &&& after.wf()
        &&& after.spec_motor_ids() == before.spec_motor_ids()
        &&& before.spec_index() < before.spec_motor_ids().len()
        &&& after.spec_index() == before.spec_index() + 1
    }

    /// Get the number of responses that should still be received.
    pub fn remaining(&self) -> (r: usize)
        requires
            self.wf(),
        ensures
            r == self.spec_remaining(),
    {
        self.motor_ids.len() - self.index
    }

    /// Reading replies one at a time yields at most as many replies as remain, and each reply lowers the
    /// number of remaining replies by one: after `k` replies read from a state with `n` remaining, `k <= n`
    /// and `n - k` remain; once none remain, [`Self::read_next`] returns [`None`].
    pub proof fn lemma_remaining_after_replies(states: Seq<Self>)
        requires
            states.len() >= 1,
            states[0].wf(),
            forall|i: int| 0 <= i < states.len() - 1 ==> #[trigger] Self::spec_reply_read(states[i], states[i + 1]),
        ensures
            states.len() - 1 <= states[0].spec_remaining(),
            states.last().spec_remaining() == states[0].spec_remaining() - (states.len() - 1),
            states.last().spec_remaining() >= 0,
            states.last().spec_motor_ids() == states[0].spec_motor_ids(),
        decreases states.len(),
    {
        if states.len() > 1 {
            let shorter = states.drop_last();
            assert forall|i: int| 0 <= i < shorter.len() - 1 implies #[trigger] Self::spec_reply_read(
                shorter[i],
                shorter[i + 1],
            ) by {
                assert(Self::spec_reply_read(states[i], states[i + 1]));
            }
            Self::lemma_remaining_after_replies(shorter);
            let i = states.len() - 2;
            assert(Self::spec_reply_read(states[i], states[i + 1]));
            assert(shorter.last() == states[i]);
        }
    }

    /// Read the next motor reply, or [`None`] once every motor has replied.
    pub fn read_next(&mut self) -> (r: Option<Result<Response<Vec<u8>>, ReadError<Port::Error>>>)
        requires
            old(self).wf(),
        ensures
            final(self).wf(),
            final(self).spec_client().keeps_config(old(self).spec_client()),
            final(self).spec_motor_ids() == old(self).spec_motor_ids(),
            final(self).spec_count() == old(self).spec_count(),
            r is None <==> old(self).spec_index() == old(self).spec_motor_ids().len(),
            final(self).spec_index() == (if r is None { old(self).spec_index() } else { old(self).spec_index() + 1 }),
            r matches Some(Ok(response)) ==> exists|data: Seq<u8>| #[trigger]
                spec_data_reply(
                    data,
                    old(self).spec_motor_ids()[old(self).spec_index() as int],
                    old(self).spec_count() as nat,
                ) && spec_reply_header(response, data) && response.data@ == data.skip(9),
            r matches Some(result) ==> spec_reply_read_outcome(
                old(self).spec_client(),
                final(self).spec_client(),
                old(self).spec_motor_ids()[old(self).spec_index() as int],
                old(self).spec_count() as nat,
                result,
                (|response: Response<Vec<u8>>, data: Seq<u8>| spec_reply_header(response, data) && response.data@
                    == data.skip(9)),
            ),
    {
        if self.index >= self.motor_ids.len() {
            return None;
        }
        let motor_id = self.motor_ids[self.index];
        let count = self.count;
        assert(motor_id == old(self).spec_motor_ids()[old(self).spec_index() as int]);
        assert(count == old(self).spec_count());
        self.index = self.index + 1;
        let status = match self.client.read_reply(motor_id, count) {
            Ok(status) => status,
            Err(e) => return Some(Err(e)),
        };
        let r: Option<Result<Response<Vec<u8>>, ReadError<Port::Error>>> = Some(
            Ok(Response::<Vec<u8>>::from_status_owned(status)),
        );
        assert(spec_data_reply(status.spec_data(), motor_id, count as nat) && spec_reply_header(
            r->Some_0->Ok_0,
            status.spec_data(),
        ));
        r
    }

    /// Read the next motor reply borrowing the data from the internal read buffer, or [`None`] once every motor has replied.
    pub fn read_next_borrow(&mut self) -> (r: Option<Result<Response<&[u8]>, ReadError<Port::Error>>>)
        requires
            old(self).wf(),
        ensures
            final(self).wf(),
            final(self).spec_client().keeps_config(old(self).spec_client()),
            final(self).spec_motor_ids() == old(self).spec_motor_ids(),
            final(self).spec_count() == old(self).spec_count(),
            final(self).spec_index() == (if r is None { old(self).spec_index() } else { old(self).spec_index() + 1 }),
            r is None <==> old(self).spec_index() == old(self).spec_motor_ids().len(),
            r matches Some(Ok(response)) ==> exists|data: Seq<u8>| #[trigger]
                spec_data_reply(
                    data,
                    old(self).spec_motor_ids()[old(self).spec_index() as int],
                    old(self).spec_count() as nat,
                ) && spec_reply_header(response, data) && response.data@ == data.skip(9),
            r matches Some(result) ==> spec_reply_read_outcome(
                old(self).spec_client(),
                final(self).spec_client(),
                old(self).spec_motor_ids()[old(self).spec_index() as int],
                old(self).spec_count() as nat,
                result,
                (|response: Response<&[u8]>, data: Seq<u8>| spec_reply_header(response, data) && response.data@
                    == data.skip(9)),
            ),
    {
        if self.index >= self.motor_ids.len() {
            return None;
        }
        let motor_id = self.motor_ids[self.index];
        let count = self.count;
        assert(motor_id == old(self).spec_motor_ids()[old(self).spec_index() as int]);
        assert(count == old(self).spec_count());
        self.index = self.index + 1;
        let status = match self.client.read_reply(motor_id, count) {
            Ok(status) => status,
            Err(e) => return Some(Err(e)),
        };
        let r: Option<Result<Response<&[u8]>, ReadError<Port::Error>>> = Some(Ok(Response::<&[u8]>::from_status(status)));
        assert(spec_data_reply(status.spec_data(), motor_id, count as nat) && spec_reply_header(
            r->Some_0->Ok_0,
            status.spec_data(),
        ));
        r
    }
}

impl<'a, T: Data, Port: SerialPort> SyncRead<'a, T, Port> {
    /// The client of the read, as it is now.
    pub closed spec fn spec_client(&self) -> Client<Port> {
        *self.client
    }

    /// The motors that reply, in order.
    pub closed spec fn spec_motor_ids(&self) -> Seq<u8> {
        self.motor_ids@
    }

    /// The number of replies read so far.
    pub closed spec fn spec_index(&self) -> nat {
        self.index as nat
    }

    /// The client is well formed and knows its baud rate, and no more replies were read than motors asked.
    pub closed spec fn wf(&self) -> bool {
        &&& self.client.wf()
        &&& self.client.spec_baud_rate() > 0
        &&& self.index <= self.motor_ids@.len()
    }

    /// Get the number of responses that should still be received.
    pub fn remaining(&self) -> (r: usize)
        requires
            self.wf(),
        ensures
            r == self.spec_motor_ids().len() - self.spec_index(),
    {
        self.motor_ids.len() - self.index
    }

    /// Read the next motor reply, or [`None`] once every motor has replied.
    pub fn read_next(&mut self) -> (r: Option<Result<Response<T>, ReadError<Port::Error>>>)
        requires
            old(self).wf(),
        ensures
            final(self).wf(),
            final(self).spec_client().keeps_config(old(self).spec_client()),
            final(self).spec_motor_ids() == old(self).spec_motor_ids(),
            r is None <==> old(self).spec_index() == old(self).spec_motor_ids().len(),
            final(self).spec_index() == (if r is None { old(self).spec_index() } else { old(self).spec_index() + 1 }),
            r matches Some(Ok(response)) ==> exists|data: Seq<u8>| #[trigger]
                spec_data_reply(
                    data,
                    old(self).spec_motor_ids()[old(self).spec_index() as int],
                    T::ENCODED_SIZE as nat,
                ) && spec_reply_header(response, data) && response.data == T::spec_decode(data.skip(9)),
            r matches Some(result) ==> spec_reply_read_outcome(
                old(self).spec_client(),
                final(self).spec_client(),
                old(self).spec_motor_ids()[old(self).spec_index() as int],
                T::ENCODED_SIZE as nat,
                result,
                (|response: Response<T>, data: Seq<u8>| spec_reply_header(response, data) && response.data
                    == T::spec_decode(data.skip(9))),
            ),
    {
        if self.index >= self.motor_ids.len() {
            return None;
        }
        let motor_id = self.motor_ids[self.index];
        assert(motor_id == old(self).spec_motor_ids()[old(self).spec_index() as int]);
        self.index = self.index + 1;
        let status = match self.client.read_reply(motor_id, T::ENCODED_SIZE) {
            Ok(status) => status,
            Err(e) => return Some(Err(e)),
        };
        let value = match T::decode(status.parameters()) {
            Ok(value) => value,
            Err(e) => return Some(Err(ReadError::InvalidMessage(e))),
        };
        let r: Option<Result<Response<T>, ReadError<Port::Error>>> = Some(
            Ok(Response { motor_id: status.packet_id(), alert: status.alert(), data: value }),
        );
        assert(spec_data_reply(status.spec_data(), motor_id, T::ENCODED_SIZE as nat) && spec_reply_header(
            r->Some_0->Ok_0,
            status.spec_data(),
        ));
        r
    }
}

} // verus!
