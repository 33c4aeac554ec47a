//! The layout of a message on the wire.
//!
//! A message is the header prefix, the packet ID, the length of the rest of the message,
//! the byte-stuffed body (instruction ID and parameters) and the checksum of everything before it.
use vstd::prelude::*;

use crate::bus::bytestuff::{lemma_stuff_len, lemma_unstuff_stuff, spec_stuff, spec_unstuff};
use crate::bus::endian::{lemma_le_bytes_len, lemma_le_value_bytes, pow256, spec_le_bytes, spec_le_value};
use crate::bus::{spec_header_prefix, HEADER_SIZE};
use crate::checksum::spec_checksum;

verus! {

/// The header of a message: the prefix, the packet ID and the length field.
pub open spec fn spec_header(packet_id: u8, length: nat) -> Seq<u8> {
    spec_header_prefix() + seq![packet_id] + spec_le_bytes(length, 2)
}

/// The stuffed body of a message with the given instruction ID and parameters.
pub open spec fn spec_body(instruction_id: u8, parameters: Seq<u8>) -> Seq<u8> {
    spec_stuff(seq![instruction_id] + parameters)
}

/// The message that carries `parameters` for `instruction_id` to (or from) `packet_id`.
pub open spec fn spec_frame(packet_id: u8, instruction_id: u8, parameters: Seq<u8>) -> Seq<u8> {
    let body = spec_body(instruction_id, parameters);
    let head = spec_header(packet_id, body.len() + 2);
    head + body + spec_le_bytes(spec_checksum(0, head + body) as nat, 2)
}

/// The message for the given contents fits the 16 bit length field of the header.
pub open spec fn spec_frame_fits(instruction_id: u8, parameters: Seq<u8>) -> bool {
    spec_body(instruction_id, parameters).len() + 2 <= 0xFFFF
}

/// The length field of a message: the number of bytes after the header.
pub open spec fn spec_length_field(message: Seq<u8>) -> nat {
    spec_le_value(message.subrange(5, 7))
}

/// The message starts with the header prefix, holds at least the instruction ID, and ends with the checksum
/// of everything before it.
pub open spec fn spec_checked_message(message: Seq<u8>) -> bool {
    &&& message.len() >= HEADER_SIZE + 3
    &&& message.take(4) == spec_header_prefix()
    &&& spec_le_value(message.skip(message.len() - 2)) == spec_checksum(0, message.take(message.len() - 2))
}

/// A complete message: checked, and exactly as long as its length field says.
pub open spec fn spec_valid_message(message: Seq<u8>) -> bool {
    &&& spec_checked_message(message)
    &&& message.len() == HEADER_SIZE + spec_length_field(message)
}

/// The packet that a message carries: its header followed by its de-stuffed body, without the checksum.
pub open spec fn spec_decode_message(message: Seq<u8>) -> Seq<u8> {
    message.take(HEADER_SIZE as int) + spec_unstuff(message.subrange(HEADER_SIZE as int, message.len() - 2))
}

/// The packet that a message for the given contents carries.
pub open spec fn spec_packet(packet_id: u8, instruction_id: u8, parameters: Seq<u8>) -> Seq<u8> {
    spec_header(packet_id, spec_body(instruction_id, parameters).len() + 2) + seq![instruction_id] + parameters
}

/// The size of a message for the given contents.
pub proof fn lemma_frame_len(packet_id: u8, instruction_id: u8, parameters: Seq<u8>)
    ensures
        spec_frame(packet_id, instruction_id, parameters).len() == HEADER_SIZE + spec_body(instruction_id, parameters).len()
            + 2,
        spec_body(instruction_id, parameters).len() >= 1 + parameters.len(),
{
    let body = spec_body(instruction_id, parameters);
    lemma_le_bytes_len(body.len() + 2, 2);
    lemma_le_bytes_len(spec_checksum(0, spec_header(packet_id, body.len() + 2) + body) as nat, 2);
    lemma_stuff_len(seq![instruction_id] + parameters);
}

/// A message is read back as the packet that was framed: a framed message is valid, and decoding it gives
/// the header, the instruction ID and the parameters it was made of.
#[verifier::spinoff_prover]
#[verifier::rlimit(40)]
pub proof fn lemma_frame_roundtrip(packet_id: u8, instruction_id: u8, parameters: Seq<u8>)
    requires
        spec_frame_fits(instruction_id, parameters),
    ensures
        spec_valid_message(spec_frame(packet_id, instruction_id, parameters)),
        spec_decode_message(spec_frame(packet_id, instruction_id, parameters)) == spec_packet(
            packet_id,
            instruction_id,
            parameters,
        ),
{
    let body = spec_body(instruction_id, parameters);
    let head = spec_header(packet_id, body.len() + 2);
    let crc = spec_checksum(0, head + body);
    let frame = spec_frame(packet_id, instruction_id, parameters);
    lemma_frame_len(packet_id, instruction_id, parameters);
    lemma_le_bytes_len(body.len() + 2, 2);
    lemma_le_bytes_len(crc as nat, 2);
    assert(head.len() == HEADER_SIZE);
    // The prefix.
    assert(frame.take(4) =~= spec_header_prefix());
    // The length field.
    assert(frame.subrange(5, 7) =~= spec_le_bytes(body.len() + 2, 2));
    lemma_le_value_bytes(body.len() + 2, 2);
    reveal_with_fuel(pow256, 3);
    vstd::arithmetic::div_mod::lemma_small_mod(body.len() + 2, 0x10000);
    // The checksum.
    assert(frame.skip(frame.len() - 2) =~= spec_le_bytes(crc as nat, 2));
    assert(frame.take(frame.len() - 2) =~= head + body);
    lemma_le_value_bytes(crc as nat, 2);
    vstd::arithmetic::div_mod::lemma_small_mod(crc as nat, 0x10000);
    // The decoded packet.
    assert(frame.take(HEADER_SIZE as int) =~= head);
    assert(frame.subrange(HEADER_SIZE as int, frame.len() - 2) =~= body);
    lemma_unstuff_stuff(seq![instruction_id] + parameters);
    assert(head + (seq![instruction_id] + parameters) =~= spec_packet(packet_id, instruction_id, parameters));
}

/// A receiver of a framed message reads back the packet ID, the instruction ID and the parameters it was made of.
pub proof fn lemma_receive_frame(packet_id: u8, instruction_id: u8, parameters: Seq<u8>)
    requires
        spec_frame_fits(instruction_id, parameters),
    ensures
        ({
            let frame = spec_frame(packet_id, instruction_id, parameters);
            let data = spec_decode_message(frame);
            &&& spec_valid_message(frame)
            &&& data.len() == HEADER_SIZE + 1 + parameters.len()
            &&& data[4] == packet_id
            &&& data[7] == instruction_id
            &&& data.skip(HEADER_SIZE + 1) == parameters
        }),
{
    lemma_frame_roundtrip(packet_id, instruction_id, parameters);
    let body = spec_body(instruction_id, parameters);
    lemma_le_bytes_len(body.len() + 2, 2);
    let data = spec_packet(packet_id, instruction_id, parameters);
    assert(data.skip(HEADER_SIZE + 1) =~= parameters);
}

} // verus!
