//! [`Device`] is used to receive communication from a client and respond.
use vstd::prelude::*;

mod device;
pub use device::Device;

use crate::bus::endian::{lemma_le_u16_roundtrip, read_u16_le, spec_le_bytes, spec_le_value};
use crate::bus::instruction_id;
use crate::bus::packet::InstructionPacket;
use crate::client::instructions::clear::spec_clear_revolution_count;
use crate::client::instructions::read::spec_read_parameters;
use crate::client::instructions::sync_read::spec_sync_read_parameters;
use crate::client::instructions::sync_write::spec_sync_write_parameters;
use crate::client::instructions::write::spec_write_parameters;
use crate::client::FactoryResetKind;
use crate::error::{ExpectedCount, InvalidParameterCount};

verus! {

/// The options for the [Factory Reset](https://emanual.robotis.com/docs/en/dxl/protocol2/#factory-reset-0x06) instruction.
#[derive(Debug, Clone, Copy, PartialEq, Eq)]
pub enum FactoryReset {
    /// Reset all values to their factory defaults.
    All,
    /// Resets all values, except the ID.
    ExceptId,
    /// Resets all values, except the ID and baud rate.
    ExceptIdBaudRate,
    /// Reserved for future use.
    Unknown(u8),
}

/// The options for the [Clear](https://emanual.robotis.com/docs/en/dxl/protocol2/#clear-0x10) instruction.
#[derive(Debug, Clone, Copy, PartialEq, Eq)]
pub enum Clear {
    /// Reset the Present Position value to an absolute value within one rotation (0-4095).
    MultiTurns,
    /// Clear errors that occurred in DYNAMIXEL.
    /// If an error cannot be cleared or the conditions for clearance are not met, the error remains uncleared,
    /// and Result Fail (0x01) is displayed in the Error field of the Status Packet.
    /// Support only DYNAMIXEL Y series.
    Errors,
    /// Reserved for future use.
    Reserved(u8),
}

/// [`InstructionPacket`] can be converted into an [`Instruction`] with borrowed or owned data.
/// It contains the ID and parameters.
#[derive(Debug)]
pub struct Instruction<T> {
    /// The ID of the packet
    pub id: u8,
    /// The instruction as parsed into the [`Instructions`] enum
    pub instruction: Instructions<T>,
}

/// Instructions as defined in the [Dynamixel Protocol 2.0](https://emanual.robotis.com/docs/en/dxl/protocol2/#instruction-details).
///
/// The parameters are stored as a `&[u8]` slice or a `Vec<u8>`.
#[allow(missing_docs)]
#[derive(Debug)]
pub enum Instructions<T> {
    Ping,
    Read { address: u16, length: u16 },
    Write { address: u16, parameters: T },
    RegWrite { address: u16, parameters: T },
    Action,
    FactoryReset(FactoryReset),
    Reboot,
    Clear(Clear),
    SyncRead { address: u16, length: u16, ids: T },
    SyncWrite { address: u16, length: u16, parameters: T },
    BulkRead { parameters: T },
    BulkWrite { parameters: T },
    StatusPacket { error: u8, parameters: T },
    Unknown { instruction: u8, parameters: T },
}

/// The kind of factory reset that a parameter byte asks for.
pub open spec fn spec_factory_reset(raw: u8) -> FactoryReset {
    if raw == 0xFF {
        FactoryReset::All
    } else if raw == 0x01 {
        FactoryReset::ExceptId
    } else if raw == 0x02 {
        FactoryReset::ExceptIdBaudRate
    } else {
        FactoryReset::Unknown(raw)
    }
}

/// The kind of clear that a parameter byte asks for.
pub open spec fn spec_clear(raw: u8) -> Clear {
    if raw == 0x01 {
        Clear::MultiTurns
    } else if raw == 0x02 {
        Clear::Errors
    } else {
        Clear::Reserved(raw)
    }
}

/// The error for a parameter count that is not the expected one.
pub open spec fn spec_count_error(actual: nat, expected: ExpectedCount) -> InvalidParameterCount {
    InvalidParameterCount { actual: actual as usize, expected }
}

/// The instruction that `instruction_id` with `parameters` stands for, or the error for a wrong parameter count.
pub open spec fn spec_instructions(instruction_id: u8, p: Seq<u8>) -> Result<Instructions<Seq<u8>>, InvalidParameterCount> {
    let n = p.len();
    if instruction_id == instruction_id::PING {
        Ok(Instructions::Ping)
    } else if instruction_id == instruction_id::READ {
        if n != 4 {
            Err(spec_count_error(n, ExpectedCount::Exact(4)))
        } else {
            Ok(
                Instructions::Read {
                    address: spec_le_value(p.subrange(0, 2)) as u16,
                    length: spec_le_value(p.subrange(2, 4)) as u16,
                },
            )
        }
    } else if instruction_id == instruction_id::WRITE {
        if n < 2 {
            Err(spec_count_error(n, ExpectedCount::Min(2)))
        } else {
            Ok(Instructions::Write { address: spec_le_value(p.subrange(0, 2)) as u16, parameters: p.skip(2) })
        }
    } else if instruction_id == instruction_id::REG_WRITE {
        if n < 2 {
            Err(spec_count_error(n, ExpectedCount::Min(2)))
        } else {
            Ok(Instructions::RegWrite { address: spec_le_value(p.subrange(0, 2)) as u16, parameters: p.skip(2) })
        }
    } else if instruction_id == instruction_id::ACTION {
        Ok(Instructions::Action)
    } else if instruction_id == instruction_id::FACTORY_RESET {
        if n != 1 {
            Err(spec_count_error(n, ExpectedCount::Exact(1)))
        } else {
            Ok(Instructions::FactoryReset(spec_factory_reset(p[0])))
        }
    } else if instruction_id == instruction_id::REBOOT {
        Ok(Instructions::Reboot)
    } else if instruction_id == instruction_id::CLEAR {
        if n < 1 {
            Err(spec_count_error(n, ExpectedCount::Min(1)))
        } else {
            Ok(Instructions::Clear(spec_clear(p[0])))
        }
    } else if instruction_id == instruction_id::SYNC_READ {
        if n < 4 {
            Err(spec_count_error(n, ExpectedCount::Min(4)))
        } else {
            Ok(
                Instructions::SyncRead {
                    address: spec_le_value(p.subrange(0, 2)) as u16,
                    length: spec_le_value(p.subrange(2, 4)) as u16,
                    ids: p.skip(4),
                },
            )
        }
    } else if instruction_id == instruction_id::SYNC_WRITE {
        if n < 4 {
            Err(spec_count_error(n, ExpectedCount::Min(4)))
        } else {
            Ok(
                Instructions::SyncWrite {
                    address: spec_le_value(p.subrange(0, 2)) as u16,
                    length: spec_le_value(p.subrange(2, 4)) as u16,
                    parameters: p.skip(4),
                },
            )
        }
    } else if instruction_id == instruction_id::BULK_READ {
        Ok(Instructions::BulkRead { parameters: p })
    } else if instruction_id == instruction_id::BULK_WRITE {
        Ok(Instructions::BulkWrite { parameters: p })
    } else if instruction_id == instruction_id::STATUS {
        if n < 1 {
            Err(spec_count_error(n, ExpectedCount::Min(1)))
        } else {
            Ok(Instructions::StatusPacket { error: p[0], parameters: p.skip(1) })
        }
    } else {
        Ok(Instructions::Unknown { instruction: instruction_id, parameters: p })
    }
}

/// The instruction with its parameters as sequences of bytes.
pub open spec fn spec_instructions_view<T: View<V = Seq<u8>>>(i: Instructions<T>) -> Instructions<Seq<u8>> {
    match i {
        Instructions::Ping => Instructions::Ping,
        Instructions::Read { address, length } => Instructions::Read { address, length },
        Instructions::Write { address, parameters } => Instructions::Write { address, parameters: parameters@ },
        Instructions::RegWrite { address, parameters } => Instructions::RegWrite { address, parameters: parameters@ },
        Instructions::Action => Instructions::Action,
        Instructions::FactoryReset(f) => Instructions::FactoryReset(f),
        Instructions::Reboot => Instructions::Reboot,
        Instructions::Clear(c) => Instructions::Clear(c),
        Instructions::SyncRead { address, length, ids } => Instructions::SyncRead { address, length, ids: ids@ },
        Instructions::SyncWrite { address, length, parameters } => Instructions::SyncWrite {
            address,
            length,
            parameters: parameters@,
        },
        Instructions::BulkRead { parameters } => Instructions::BulkRead { parameters: parameters@ },
        Instructions::BulkWrite { parameters } => Instructions::BulkWrite { parameters: parameters@ },
        Instructions::StatusPacket { error, parameters } => Instructions::StatusPacket { error, parameters: parameters@ },
        Instructions::Unknown { instruction, parameters } => Instructions::Unknown { instruction, parameters: parameters@ },
    }
}

/// The address and the count that lead the parameters of an instruction are read back from their encoding.
proof fn lemma_address_count(address: u16, count: u16, rest: Seq<u8>)
    ensures
        ({
            let p = spec_le_bytes(address as nat, 2) + spec_le_bytes(count as nat, 2) + rest;
            &&& p.len() == 4 + rest.len()
            &&& spec_le_value(p.subrange(0, 2)) as u16 == address
            &&& spec_le_value(p.subrange(2, 4)) as u16 == count
            &&& p.skip(4) == rest
        }),
{
    lemma_le_u16_roundtrip(address);
    lemma_le_u16_roundtrip(count);
    let p = spec_le_bytes(address as nat, 2) + spec_le_bytes(count as nat, 2) + rest;
    assert(p.subrange(0, 2) =~= spec_le_bytes(address as nat, 2));
    assert(p.subrange(2, 4) =~= spec_le_bytes(count as nat, 2));
    assert(p.skip(4) =~= rest);
}

/// A device reads a read instruction of a client back as the address and the count that the client asked for.
pub proof fn lemma_read_instruction_roundtrip(address: u16, count: u16)
    ensures
        spec_instructions(instruction_id::READ, spec_read_parameters(address, count)) == Ok::<
            Instructions<Seq<u8>>,
            InvalidParameterCount,
        >(Instructions::Read { address, length: count }),
{
    lemma_address_count(address, count, Seq::empty());
    assert(spec_read_parameters(address, count) =~= spec_le_bytes(address as nat, 2) + spec_le_bytes(count as nat, 2)
        + Seq::<u8>::empty());
}

/// A device reads a write instruction of a client back as the address and the data that the client wrote.
pub proof fn lemma_write_instruction_roundtrip(address: u16, data: Seq<u8>)
    ensures
        spec_instructions(instruction_id::WRITE, spec_write_parameters(address, data)) == Ok::<
            Instructions<Seq<u8>>,
            InvalidParameterCount,
        >(Instructions::Write { address, parameters: data }),
        spec_instructions(instruction_id::REG_WRITE, spec_write_parameters(address, data)) == Ok::<
            Instructions<Seq<u8>>,
            InvalidParameterCount,
        >(Instructions::RegWrite { address, parameters: data }),
{
    lemma_le_u16_roundtrip(address);
    let p = spec_write_parameters(address, data);
    assert(p.subrange(0, 2) =~= spec_le_bytes(address as nat, 2));
    assert(p.skip(2) =~= data);
}

/// A device reads a sync read instruction of a client back as the address, the count and the motor IDs that
/// the client asked for.
pub proof fn lemma_sync_read_instruction_roundtrip(address: u16, count: u16, motor_ids: Seq<u8>)
    ensures
        spec_instructions(instruction_id::SYNC_READ, spec_sync_read_parameters(address, count, motor_ids)) == Ok::<
            Instructions<Seq<u8>>,
            InvalidParameterCount,
        >(Instructions::SyncRead { address, length: count, ids: motor_ids }),
{
    lemma_address_count(address, count, motor_ids);
}

/// A device reads a sync write instruction of a client back as the address, the count and the motor blocks
/// that the client wrote.
pub proof fn lemma_sync_write_instruction_roundtrip(address: u16, count: u16, blocks: Seq<u8>)
    ensures
        spec_instructions(instruction_id::SYNC_WRITE, spec_sync_write_parameters(address, count, blocks)) == Ok::<
            Instructions<Seq<u8>>,
            InvalidParameterCount,
        >(Instructions::SyncWrite { address, length: count, parameters: blocks }),
{
    lemma_address_count(address, count, blocks);
}

/// The factory reset that a device reads for each kind of factory reset that a client sends.
pub open spec fn spec_factory_reset_of(kind: FactoryResetKind) -> FactoryReset {
    match kind {
        FactoryResetKind::ResetAll => FactoryReset::All,
        FactoryResetKind::KeepId => FactoryReset::ExceptId,
        FactoryResetKind::KeepIdAndBaudRate => FactoryReset::ExceptIdBaudRate,
    }
}

/// A device reads a factory reset instruction of a client back as the kind of reset that the client asked for.
pub proof fn lemma_factory_reset_instruction_roundtrip(kind: FactoryResetKind)
    ensures
        spec_instructions(instruction_id::FACTORY_RESET, seq![kind.spec_raw()]) == Ok::<
            Instructions<Seq<u8>>,
            InvalidParameterCount,
        >(Instructions::FactoryReset(spec_factory_reset_of(kind))),
{
}

/// The factory reset parameter is the byte the protocol defines for each kind: `0xFF` resets everything, `0x01`
/// keeps the ID, `0x02` keeps the ID and the baud rate; each kind has its own byte. A device reads a factory reset
/// instruction with one parameter byte as the kind that byte stands for, and any other byte as unknown, keeping
/// the byte; any other number of parameters is an error.
pub proof fn lemma_factory_reset_bytes(kind: FactoryResetKind, p: Seq<u8>)
    ensures
        (kind.spec_raw() == 0xFFu8) <==> kind is ResetAll,
        (kind.spec_raw() == 0x01u8) <==> kind is KeepId,
        (kind.spec_raw() == 0x02u8) <==> kind is KeepIdAndBaudRate,
        p.len() == 1 && p[0] == 0xFFu8 ==> spec_instructions(instruction_id::FACTORY_RESET, p) == Ok::<
            Instructions<Seq<u8>>,
            InvalidParameterCount,
        >(Instructions::FactoryReset(FactoryReset::All)),
        p.len() == 1 && p[0] == 0x01u8 ==> spec_instructions(instruction_id::FACTORY_RESET, p) == Ok::<
            Instructions<Seq<u8>>,
            InvalidParameterCount,
        >(Instructions::FactoryReset(FactoryReset::ExceptId)),
        p.len() == 1 && p[0] == 0x02u8 ==> spec_instructions(instruction_id::FACTORY_RESET, p) == Ok::<
            Instructions<Seq<u8>>,
            InvalidParameterCount,
        >(Instructions::FactoryReset(FactoryReset::ExceptIdBaudRate)),
        p.len() == 1 && p[0] != 0xFFu8 && p[0] != 0x01u8 && p[0] != 0x02u8 ==> spec_instructions(
            instruction_id::FACTORY_RESET,
            p,
        ) == Ok::<Instructions<Seq<u8>>, InvalidParameterCount>(Instructions::FactoryReset(FactoryReset::Unknown(p[0]))),
        p.len() != 1 ==> spec_instructions(instruction_id::FACTORY_RESET, p) == Err::<
            Instructions<Seq<u8>>,
            InvalidParameterCount,
        >(InvalidParameterCount { actual: p.len() as usize, expected: ExpectedCount::Exact(1) }),
{
}

/// The clear parameter starts with the byte the protocol defines for each kind: `0x01` resets the multi-turn
/// position, `0x02` clears errors. A device reads a clear instruction by that first byte, keeping any other first
/// byte as reserved; a clear instruction without parameters is an error.
pub proof fn lemma_clear_bytes(p: Seq<u8>)
    ensures
        p.len() >= 1 && p[0] == 0x01u8 ==> spec_instructions(instruction_id::CLEAR, p) == Ok::<
            Instructions<Seq<u8>>,
            InvalidParameterCount,
        >(Instructions::Clear(Clear::MultiTurns)),
        p.len() >= 1 && p[0] == 0x02u8 ==> spec_instructions(instruction_id::CLEAR, p) == Ok::<
            Instructions<Seq<u8>>,
            InvalidParameterCount,
        >(Instructions::Clear(Clear::Errors)),
        p.len() >= 1 && p[0] != 0x01u8 && p[0] != 0x02u8 ==> spec_instructions(instruction_id::CLEAR, p) == Ok::<
            Instructions<Seq<u8>>,
            InvalidParameterCount,
        >(Instructions::Clear(Clear::Reserved(p[0]))),
        p.len() == 0 ==> spec_instructions(instruction_id::CLEAR, p) is Err,
{
}

/// A device reads the instruction of a client to clear the revolution counter back as such.
pub proof fn lemma_clear_revolution_counter_roundtrip()
    ensures
        spec_instructions(instruction_id::CLEAR, spec_clear_revolution_count()) == Ok::<
            Instructions<Seq<u8>>,
            InvalidParameterCount,
        >(Instructions::Clear(Clear::MultiTurns)),
{
}

/// Read a little endian `u16` at `offset` of `parameters`.
fn read_u16_at(parameters: &[u8], offset: usize) -> (r: u16)
    requires
        offset + 2 <= parameters@.len(),
    ensures
        r == spec_le_value(parameters@.subrange(offset as int, offset + 2)) as u16,
{
    let n = parameters.len();
    assert(offset + 2 <= n);
    let bytes = vstd::slice::slice_subrange(parameters, offset, offset + 2);
    assert(bytes@.take(2) =~= parameters@.subrange(offset as int, offset + 2));
    read_u16_le(bytes)
}

/// The rest of `parameters` from `offset` on.
fn skip<'a>(parameters: &'a [u8], offset: usize) -> (r: &'a [u8])
    requires
        offset <= parameters@.len(),
    ensures
        r@ == parameters@.skip(offset as int),
{
    let r = vstd::slice::slice_subrange(parameters, offset, parameters.len());
    assert(r@ =~= parameters@.skip(offset as int));
    r
}

/// Parse the parameters of an instruction.
pub fn parse_instructions<'a>(instruction_id: u8, parameters: &'a [u8]) -> (r: Result<
    Instructions<&'a [u8]>,
    InvalidParameterCount,
>)
    ensures
        r matches Ok(i) ==> spec_instructions(instruction_id, parameters@) == Ok::<
            Instructions<Seq<u8>>,
            InvalidParameterCount,
        >(spec_instructions_view(i)),
        r matches Err(e) ==> spec_instructions(instruction_id, parameters@) == Err::<
            Instructions<Seq<u8>>,
            InvalidParameterCount,
        >(e),
{
    let n = parameters.len();
    if instruction_id == instruction_id::PING {
        Ok(Instructions::Ping)
    } else if instruction_id == instruction_id::READ {
        InvalidParameterCount::check(n, 4)?;
        Ok(Instructions::Read { address: read_u16_at(parameters, 0), length: read_u16_at(parameters, 2) })
    } else if instruction_id == instruction_id::WRITE {
        InvalidParameterCount::check_min(n, 2)?;
        Ok(Instructions::Write { address: read_u16_at(parameters, 0), parameters: skip(parameters, 2) })
    } else if instruction_id == instruction_id::REG_WRITE {
        InvalidParameterCount::check_min(n, 2)?;
        Ok(Instructions::RegWrite { address: read_u16_at(parameters, 0), parameters: skip(parameters, 2) })
    } else if instruction_id == instruction_id::ACTION {
        Ok(Instructions::Action)
    } else if instruction_id == instruction_id::FACTORY_RESET {
        InvalidParameterCount::check(n, 1)?;
        let reset_type = match parameters[0] {
            0xFF => FactoryReset::All,
            0x01 => FactoryReset::ExceptId,
            0x02 => FactoryReset::ExceptIdBaudRate,
            p => FactoryReset::Unknown(p),
        };
        Ok(Instructions::FactoryReset(reset_type))
    } else if instruction_id == instruction_id::REBOOT {
        Ok(Instructions::Reboot)
    } else if instruction_id == instruction_id::CLEAR {
        InvalidParameterCount::check_min(n, 1)?;
        match parameters[0] {
            0x01 => Ok(Instructions::Clear(Clear::MultiTurns)),
            0x02 => Ok(Instructions::Clear(Clear::Errors)),
            p => Ok(Instructions::Clear(Clear::Reserved(p))),
        }
    } else if instruction_id == instruction_id::SYNC_READ {
        InvalidParameterCount::check_min(n, 4)?;
        Ok(
            Instructions::SyncRead {
                address: read_u16_at(parameters, 0),
                length: read_u16_at(parameters, 2),
                ids: skip(parameters, 4),
            },
        )
    } else if instruction_id == instruction_id::SYNC_WRITE {
        InvalidParameterCount::check_min(n, 4)?;
        Ok(
            Instructions::SyncWrite {
                address: read_u16_at(parameters, 0),
                length: read_u16_at(parameters, 2),
                parameters: skip(parameters, 4),
            },
        )
    } else if instruction_id == instruction_id::BULK_READ {
        Ok(Instructions::BulkRead { parameters })
    } else if instruction_id == instruction_id::BULK_WRITE {
        Ok(Instructions::BulkWrite { parameters })
    } else if instruction_id == instruction_id::STATUS {
        InvalidParameterCount::check_min(n, 1)?;
        Ok(Instructions::StatusPacket { error: parameters[0], parameters: skip(parameters, 1) })
    } else {
        Ok(Instructions::Unknown { instruction: instruction_id, parameters })
    }
}

/// Copy the parameters of an instruction into owned buffers.
pub fn instructions_to_owned(instruction: Instructions<&[u8]>) -> (r: Instructions<Vec<u8>>)
    ensures
        spec_instructions_view(r) == spec_instructions_view(instruction),
{
    match instruction {
        Instructions::Ping => Instructions::Ping,
        Instructions::Read { address, length } => Instructions::Read { address, length },
        Instructions::Write { address, parameters } => Instructions::Write {
            address,
            parameters: vstd::slice::slice_to_vec(parameters),
        },
        Instructions::RegWrite { address, parameters } => Instructions::RegWrite {
            address,
            parameters: vstd::slice::slice_to_vec(parameters),
        },
        Instructions::Action => Instructions::Action,
        Instructions::FactoryReset(f) => Instructions::FactoryReset(f),
        Instructions::Reboot => Instructions::Reboot,
        Instructions::Clear(c) => Instructions::Clear(c),
        Instructions::SyncRead { address, length, ids } => Instructions::SyncRead {
            address,
            length,
            ids: vstd::slice::slice_to_vec(ids),
        },
        Instructions::SyncWrite { address, length, parameters } => Instructions::SyncWrite {
            address,
            length,
            parameters: vstd::slice::slice_to_vec(parameters),
        },
        Instructions::BulkRead { parameters } => Instructions::BulkRead { parameters: vstd::slice::slice_to_vec(parameters) },
        Instructions::BulkWrite { parameters } => Instructions::BulkWrite {
            parameters: vstd::slice::slice_to_vec(parameters),
        },
        Instructions::StatusPacket { error, parameters } => Instructions::StatusPacket {
            error,
            parameters: vstd::slice::slice_to_vec(parameters),
        },
        Instructions::Unknown { instruction, parameters } => Instructions::Unknown {
            instruction,
            parameters: vstd::slice::slice_to_vec(parameters),
        },
    }
}

impl<'a> Instruction<&'a [u8]> {
    /// Parse an instruction packet, borrowing its parameters.
    pub fn try_from_packet(packet: InstructionPacket<'a>) -> (r: Result<Self, InvalidParameterCount>)
        requires
            packet.spec_data().len() > 7,
        ensures
            r matches Ok(i) ==> i.id == packet.spec_data()[4] && spec_instructions(
                packet.spec_data()[7],
                packet.spec_data().skip(8),
            ) == Ok::<Instructions<Seq<u8>>, InvalidParameterCount>(spec_instructions_view(i.instruction)),
            r matches Err(e) ==> spec_instructions(packet.spec_data()[7], packet.spec_data().skip(8)) == Err::<
                Instructions<Seq<u8>>,
                InvalidParameterCount,
            >(e),
    {
        let id = packet.packet_id();
        let instruction = parse_instructions(packet.instruction_id(), packet.parameters())?;
        Ok(Instruction { id, instruction })
    }
}

impl Instruction<Vec<u8>> {
    /// Parse an instruction packet, copying its parameters.
    pub fn try_from_packet(packet: InstructionPacket<'_>) -> (r: Result<Self, InvalidParameterCount>)
        requires
            packet.spec_data().len() > 7,
        ensures
            r matches Ok(i) ==> i.id == packet.spec_data()[4] && spec_instructions(
                packet.spec_data()[7],
                packet.spec_data().skip(8),
            ) == Ok::<Instructions<Seq<u8>>, InvalidParameterCount>(spec_instructions_view(i.instruction)),
            r matches Err(e) ==> spec_instructions(packet.spec_data()[7], packet.spec_data().skip(8)) == Err::<
                Instructions<Seq<u8>>,
                InvalidParameterCount,
            >(e),
    {
        let id = packet.packet_id();
        let instruction = parse_instructions(packet.instruction_id(), packet.parameters())?;
        Ok(Instruction { id, instruction: instructions_to_owned(instruction) })
    }
}

} // verus!
