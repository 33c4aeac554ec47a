//! The CRC-16 checksum used by the DYNAMIXEL Protocol 2.0.
//!
//! The checksum is a CRC-16 with polynomial `0x8005`, processed most significant bit first,
//! without reflection and without a final XOR.
use vstd::prelude::*;

verus! {

/// The generator polynomial of the checksum.
pub const POLYNOMIAL: u16 = 0x8005;

/// One bit step of the CRC register: shift left, and reduce by the polynomial when the top bit falls out.
pub open spec fn crc_shift(c: u16) -> u16 {
    if c & 0x8000u16 != 0 {
        ((c << 1u16) ^ POLYNOMIAL) as u16
    } else {
        (c << 1u16) as u16
    }
}

/// The CRC register after absorbing one byte.
pub open spec fn crc_byte(crc: u16, byte: u8) -> u16 {
    let c0 = (crc ^ ((byte as u16) << 8u16)) as u16;
    crc_shift(crc_shift(crc_shift(crc_shift(crc_shift(crc_shift(crc_shift(crc_shift(c0))))))))
}

/// The checksum of `data`, continuing from the register value `crc`.
pub open spec fn spec_checksum(crc: u16, data: Seq<u8>) -> u16
    decreases data.len(),
{
    if data.len() == 0 {
        crc
    } else {
        crc_byte(spec_checksum(crc, data.drop_last()), data.last())
    }
}

fn shift(c: u16) -> (r: u16)
    ensures
        r == crc_shift(c),
{
    if c & 0x8000u16 != 0 {
        (c << 1u16) ^ POLYNOMIAL
    } else {
        c << 1u16
    }
}

fn absorb_byte(crc: u16, byte: u8) -> (r: u16)
    ensures
        r == crc_byte(crc, byte),
{
    let mut c: u16 = crc ^ ((byte as u16) << 8u16);
    c = shift(c);
    c = shift(c);
    c = shift(c);
    c = shift(c);
    c = shift(c);
    c = shift(c);
    c = shift(c);
    c = shift(c);
    c
}

/// Calculate the checksum of `data`, starting from the register value `crc`.
///
/// Pass `0` as `crc` to compute the checksum of a whole message.
/// Passing the checksum of a first part continues the computation over a second part.
pub fn calculate_checksum(crc: u16, data: &[u8]) -> (r: u16)
    ensures
        r == spec_checksum(crc, data@),
{
    let mut acc: u16 = crc;
    let mut i: usize = 0;
    while i < data.len()
        invariant
            i <= data@.len(),
            acc == spec_checksum(crc, data@.take(i as int)),
        decreases data@.len() - i,
    {
        assert(data@.take(i as int + 1).drop_last() =~= data@.take(i as int));
        acc = absorb_byte(acc, data[i]);
        i = i + 1;
    }
    assert(data@.take(i as int) =~= data@);
    acc
}

/// Checksumming two parts one after the other gives the checksum of their concatenation.
pub proof fn lemma_checksum_concat(crc: u16, a: Seq<u8>, b: Seq<u8>)
    ensures
        spec_checksum(spec_checksum(crc, a), b) == spec_checksum(crc, a + b),
    decreases b.len(),
{
    if b.len() == 0 {
        assert(a + b =~= a);
    } else {
        lemma_checksum_concat(crc, a, b.drop_last());
        assert((a + b).drop_last() =~= a + b.drop_last());
        assert((a + b).last() == b.last());
    }
}

} // verus!
