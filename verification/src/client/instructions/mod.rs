//! The instructions that a client sends, one module per instruction.
use vstd::prelude::*;

use crate::bus::data::Data;
use crate::bus::endian::{lemma_le_bytes_len, spec_le_bytes, write_u16_le};

pub mod action;
pub mod bulk_read;
pub mod bulk_write;
pub mod clear;
pub mod factory_reset;
pub mod fast_bulk_read;
pub mod fast_sync_read;
pub mod ping;
pub mod read;
pub mod reboot;
pub mod reg_write;
pub mod sync_read;
pub mod sync_write;
pub mod write;

verus! {

/// Append the little endian bytes of a `u16` to a buffer.
pub(crate) fn push_u16_le(buffer: &mut Vec<u8>, value: u16)
    ensures
        final(buffer)@ == old(buffer)@ + spec_le_bytes(value as nat, 2),
        final(buffer)@.len() == old(buffer)@.len() + 2,
{
    proof {
        lemma_le_bytes_len(value as nat, 2);
    }
    let mut bytes = vec![0u8, 0u8];
    write_u16_le(bytes.as_mut_slice(), value);
    assert(bytes@.skip(2) =~= Seq::<u8>::empty());
    buffer.push(bytes[0]);
    buffer.push(bytes[1]);
    assert(buffer@ =~= old(buffer)@ + bytes@);
}

/// Append bytes to a buffer.
pub(crate) fn push_bytes(buffer: &mut Vec<u8>, data: &[u8])
    ensures
        final(buffer)@ == old(buffer)@ + data@,
{
    let mut i: usize = 0;
    while i < data.len()
        invariant
            i <= data@.len(),
            buffer@ == old(buffer)@ + data@.take(i as int),
        decreases data@.len() - i,
    {
        buffer.push(data[i]);
        i = i + 1;
        assert(buffer@ =~= old(buffer)@ + data@.take(i as int));
    }
    assert(data@.take(i as int) =~= data@);
}

/// Append the encoding of a value to a buffer.
pub(crate) fn push_value<T: Data>(buffer: &mut Vec<u8>, value: &T)
    ensures
        final(buffer)@ == old(buffer)@ + value.spec_encode(),
{
    proof {
        T::lemma_decode_encode(*value);
    }
    let mut bytes: Vec<u8> = vec![0u8; T::ENCODED_SIZE as usize];
    let encoded = value.encode(bytes.as_mut_slice());
    assert(encoded is Ok);
    assert(bytes@ =~= value.spec_encode());
    push_bytes(buffer, bytes.as_slice());
}

} // verus!
