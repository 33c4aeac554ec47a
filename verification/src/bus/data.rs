//! Fixed-size values that can be read or written over the bus.
use vstd::prelude::*;

use crate::bus::endian::{decode_le, encode_le, lemma_le_bytes_len, lemma_le_value_bytes, pow256, spec_le_bytes, spec_le_value};
use crate::bus::packet::StatusPacket;
use crate::error::{
    spec_error_number, BufferTooSmallError, ExpectedCount, InvalidMessage, InvalidParameterCount, MotorError, ReadError,
};
use crate::response::{spec_reply_header, Response};

verus! {

/// A fixed-size type that can be read or written over the bus.
pub trait Data: Sized {
    /// The size in bytes of the encoded value.
    const ENCODED_SIZE: u16;

    /// The bytes that encode the value.
    spec fn spec_encode(&self) -> Seq<u8>;

    /// The value that bytes of the encoded size decode to.
    spec fn spec_decode(bytes: Seq<u8>) -> Self;

    /// Encode the value into the given buffer.
    fn encode(&self, buffer: &mut [u8]) -> (r: Result<(), BufferTooSmallError>)
        ensures
            r is Ok <==> Self::ENCODED_SIZE <= old(buffer)@.len(),
            r matches Err(e) ==> e == (BufferTooSmallError {
                required_size: Self::ENCODED_SIZE as usize,
                total_size: old(buffer)@.len() as usize,
            }) && final(buffer)@ == old(buffer)@,
            r is Ok ==> final(buffer)@ == self.spec_encode() + old(buffer)@.skip(Self::ENCODED_SIZE as int),
    ;

    /// Decode the value from the given buffer.
    fn decode(buffer: &[u8]) -> (r: Result<Self, InvalidMessage>)
        ensures
            r is Ok <==> buffer@.len() == Self::ENCODED_SIZE,
            r matches Ok(v) ==> v == Self::spec_decode(buffer@),
            r matches Err(e) ==> e == InvalidMessage::InvalidParameterCount(InvalidParameterCount {
                actual: buffer@.len() as usize,
                expected: ExpectedCount::Exact(Self::ENCODED_SIZE as usize),
            }),
    ;

    /// Decoding the encoding of a value gives the value back, and the encoding has the encoded size.
    proof fn lemma_decode_encode(v: Self)
        ensures
            v.spec_encode().len() == Self::ENCODED_SIZE,
            Self::spec_decode(v.spec_encode()) == v,
    ;
}

/// Encode the `n` low bytes of `value` at the front of `buffer`, if it is large enough.
fn encode_number(value: u128, n: usize, buffer: &mut [u8]) -> (r: Result<(), BufferTooSmallError>)
    ensures
        r is Ok <==> n <= old(buffer)@.len(),
        r matches Err(e) ==> e == (BufferTooSmallError { required_size: n, total_size: old(buffer)@.len() as usize })
            && final(buffer)@ == old(buffer)@,
        r is Ok ==> final(buffer)@ == spec_le_bytes(value as nat, n as nat) + old(buffer)@.skip(n as int),
{
    BufferTooSmallError::check(n, buffer.len())?;
    encode_le(value, n, buffer);
    Ok(())
}

/// Decode the little endian value of `buffer`, which must be exactly `n` bytes long.
fn decode_number(buffer: &[u8], n: usize) -> (r: Result<u128, InvalidMessage>)
    requires
        n <= 16,
    ensures
        r is Ok <==> buffer@.len() == n,
        r matches Ok(v) ==> v == spec_le_value(buffer@),
        r matches Err(e) ==> e == InvalidMessage::InvalidParameterCount(
            InvalidParameterCount { actual: buffer@.len() as usize, expected: ExpectedCount::Exact(n) },
        ),
{
    match InvalidParameterCount::check(buffer.len(), n) {
        Ok(()) => Ok(decode_le(buffer)),
        Err(e) => Err(InvalidMessage::InvalidParameterCount(e)),
    }
}

proof fn lemma_unsigned_roundtrip(v: nat, n: nat)
    requires
        v < pow256(n),
    ensures
        spec_le_bytes(v, n).len() == n,
        spec_le_value(spec_le_bytes(v, n)) == v,
{
    lemma_le_bytes_len(v, n);
    lemma_le_value_bytes(v, n);
    vstd::arithmetic::div_mod::lemma_small_mod(v, pow256(n));
}

proof fn lemma_pow256_values()
    ensures
        pow256(1) == 0x100,
        pow256(2) == 0x1_0000,
        pow256(4) == 0x1_0000_0000,
        pow256(8) == 0x1_0000_0000_0000_0000,
        pow256(16) == 0x1_0000_0000_0000_0000_0000_0000_0000_0000,
{
    reveal_with_fuel(pow256, 17);
}

impl Data for u8 {
    const ENCODED_SIZE: u16 = 1;

    open spec fn spec_encode(&self) -> Seq<u8> {
        spec_le_bytes(*self as nat, 1)
    }

    open spec fn spec_decode(bytes: Seq<u8>) -> Self {
        spec_le_value(bytes) as u8
    }

    fn encode(&self, buffer: &mut [u8]) -> (r: Result<(), BufferTooSmallError>) {
        encode_number(*self as u128, 1, buffer)
    }

    fn decode(buffer: &[u8]) -> (r: Result<Self, InvalidMessage>) {
        let v = decode_number(buffer, 1)?;
        proof {
            crate::bus::endian::lemma_le_value_bound(buffer@);
            lemma_pow256_values();
        }
        Ok(v as u8)
    }

    proof fn lemma_decode_encode(v: Self) {
        lemma_pow256_values();
        lemma_unsigned_roundtrip(v as nat, 1);
    }
}

impl Data for u16 {
    const ENCODED_SIZE: u16 = 2;

    open spec fn spec_encode(&self) -> Seq<u8> {
        spec_le_bytes(*self as nat, 2)
    }

    open spec fn spec_decode(bytes: Seq<u8>) -> Self {
        spec_le_value(bytes) as u16
    }

    fn encode(&self, buffer: &mut [u8]) -> (r: Result<(), BufferTooSmallError>) {
        encode_number(*self as u128, 2, buffer)
    }

    fn decode(buffer: &[u8]) -> (r: Result<Self, InvalidMessage>) {
        let v = decode_number(buffer, 2)?;
        proof {
            crate::bus::endian::lemma_le_value_bound(buffer@);
            lemma_pow256_values();
        }
        Ok(v as u16)
    }

    proof fn lemma_decode_encode(v: Self) {
        lemma_pow256_values();
        lemma_unsigned_roundtrip(v as nat, 2);
    }
}

impl Data for u32 {
    const ENCODED_SIZE: u16 = 4;

    open spec fn spec_encode(&self) -> Seq<u8> {
        spec_le_bytes(*self as nat, 4)
    }

    open spec fn spec_decode(bytes: Seq<u8>) -> Self {
        spec_le_value(bytes) as u32
    }

    fn encode(&self, buffer: &mut [u8]) -> (r: Result<(), BufferTooSmallError>) {
        encode_number(*self as u128, 4, buffer)
    }

    fn decode(buffer: &[u8]) -> (r: Result<Self, InvalidMessage>) {
        let v = decode_number(buffer, 4)?;
        proof {
            crate::bus::endian::lemma_le_value_bound(buffer@);
            lemma_pow256_values();
        }
        Ok(v as u32)
    }

    proof fn lemma_decode_encode(v: Self) {
        lemma_pow256_values();
        lemma_unsigned_roundtrip(v as nat, 4);
    }
}

impl Data for u64 {
    const ENCODED_SIZE: u16 = 8;

    open spec fn spec_encode(&self) -> Seq<u8> {
        spec_le_bytes(*self as nat, 8)
    }

    open spec fn spec_decode(bytes: Seq<u8>) -> Self {
        spec_le_value(bytes) as u64
    }

    fn encode(&self, buffer: &mut [u8]) -> (r: Result<(), BufferTooSmallError>) {
        encode_number(*self as u128, 8, buffer)
    }

    fn decode(buffer: &[u8]) -> (r: Result<Self, InvalidMessage>) {
        let v = decode_number(buffer, 8)?;
        proof {
            crate::bus::endian::lemma_le_value_bound(buffer@);
            lemma_pow256_values();
        }
        Ok(v as u64)
    }

    proof fn lemma_decode_encode(v: Self) {
        lemma_pow256_values();
        lemma_unsigned_roundtrip(v as nat, 8);
    }
}

impl Data for u128 {
    const ENCODED_SIZE: u16 = 16;

    open spec fn spec_encode(&self) -> Seq<u8> {
        spec_le_bytes(*self as nat, 16)
    }

    open spec fn spec_decode(bytes: Seq<u8>) -> Self {
        spec_le_value(bytes) as u128
    }

    fn encode(&self, buffer: &mut [u8]) -> (r: Result<(), BufferTooSmallError>) {
        encode_number(*self as u128, 16, buffer)
    }

    fn decode(buffer: &[u8]) -> (r: Result<Self, InvalidMessage>) {
        let v = decode_number(buffer, 16)?;
        proof {
            crate::bus::endian::lemma_le_value_bound(buffer@);
            lemma_pow256_values();
        }
        Ok(v as u128)
    }

    proof fn lemma_decode_encode(v: Self) {
        lemma_pow256_values();
        lemma_unsigned_roundtrip(v as nat, 16);
    }
}

impl Data for i8 {
    const ENCODED_SIZE: u16 = 1;

    open spec fn spec_encode(&self) -> Seq<u8> {
        spec_le_bytes((*self as u8) as nat, 1)
    }

    open spec fn spec_decode(bytes: Seq<u8>) -> Self {
        (spec_le_value(bytes) as u8) as i8
    }

    fn encode(&self, buffer: &mut [u8]) -> (r: Result<(), BufferTooSmallError>) {
        encode_number((*self as u8) as u128, 1, buffer)
    }

    fn decode(buffer: &[u8]) -> (r: Result<Self, InvalidMessage>) {
        let v = decode_number(buffer, 1)?;
        proof {
            crate::bus::endian::lemma_le_value_bound(buffer@);
            lemma_pow256_values();
        }
        Ok((v as u8) as i8)
    }

    proof fn lemma_decode_encode(v: Self) {
        lemma_pow256_values();
        lemma_unsigned_roundtrip((v as u8) as nat, 1);
        assert(((v as u8) as i8) == v) by (bit_vector);
    }
}

impl Data for i16 {
    const ENCODED_SIZE: u16 = 2;

    open spec fn spec_encode(&self) -> Seq<u8> {
        spec_le_bytes((*self as u16) as nat, 2)
    }

    open spec fn spec_decode(bytes: Seq<u8>) -> Self {
        (spec_le_value(bytes) as u16) as i16
    }

    fn encode(&self, buffer: &mut [u8]) -> (r: Result<(), BufferTooSmallError>) {
        encode_number((*self as u16) as u128, 2, buffer)
    }

    fn decode(buffer: &[u8]) -> (r: Result<Self, InvalidMessage>) {
        let v = decode_number(buffer, 2)?;
        proof {
            crate::bus::endian::lemma_le_value_bound(buffer@);
            lemma_pow256_values();
        }
        Ok((v as u16) as i16)
    }

    proof fn lemma_decode_encode(v: Self) {
        lemma_pow256_values();
        lemma_unsigned_roundtrip((v as u16) as nat, 2);
        assert(((v as u16) as i16) == v) by (bit_vector);
    }
}

impl Data for i32 {
    const ENCODED_SIZE: u16 = 4;

    open spec fn spec_encode(&self) -> Seq<u8> {
        spec_le_bytes((*self as u32) as nat, 4)
    }

    open spec fn spec_decode(bytes: Seq<u8>) -> Self {
        (spec_le_value(bytes) as u32) as i32
    }

    fn encode(&self, buffer: &mut [u8]) -> (r: Result<(), BufferTooSmallError>) {
        encode_number((*self as u32) as u128, 4, buffer)
    }

    fn decode(buffer: &[u8]) -> (r: Result<Self, InvalidMessage>) {
        let v = decode_number(buffer, 4)?;
        proof {
            crate::bus::endian::lemma_le_value_bound(buffer@);
            lemma_pow256_values();
        }
        Ok((v as u32) as i32)
    }

    proof fn lemma_decode_encode(v: Self) {
        lemma_pow256_values();
        lemma_unsigned_roundtrip((v as u32) as nat, 4);
        assert(((v as u32) as i32) == v) by (bit_vector);
    }
}

impl Data for i64 {
    const ENCODED_SIZE: u16 = 8;

    open spec fn spec_encode(&self) -> Seq<u8> {
        spec_le_bytes((*self as u64) as nat, 8)
    }

    open spec fn spec_decode(bytes: Seq<u8>) -> Self {
        (spec_le_value(bytes) as u64) as i64
    }

    fn encode(&self, buffer: &mut [u8]) -> (r: Result<(), BufferTooSmallError>) {
        encode_number((*self as u64) as u128, 8, buffer)
    }

    fn decode(buffer: &[u8]) -> (r: Result<Self, InvalidMessage>) {
        let v = decode_number(buffer, 8)?;
        proof {
            crate::bus::endian::lemma_le_value_bound(buffer@);
            lemma_pow256_values();
        }
        Ok((v as u64) as i64)
    }

    proof fn lemma_decode_encode(v: Self) {
        lemma_pow256_values();
        lemma_unsigned_roundtrip((v as u64) as nat, 8);
        assert(((v as u64) as i64) == v) by (bit_vector);
    }
}

impl Data for i128 {
    const ENCODED_SIZE: u16 = 16;

    open spec fn spec_encode(&self) -> Seq<u8> {
        spec_le_bytes((*self as u128) as nat, 16)
    }

    open spec fn spec_decode(bytes: Seq<u8>) -> Self {
        (spec_le_value(bytes) as u128) as i128
    }

    fn encode(&self, buffer: &mut [u8]) -> (r: Result<(), BufferTooSmallError>) {
        encode_number((*self as u128) as u128, 16, buffer)
    }

    fn decode(buffer: &[u8]) -> (r: Result<Self, InvalidMessage>) {
        let v = decode_number(buffer, 16)?;
        proof {
            crate::bus::endian::lemma_le_value_bound(buffer@);
            lemma_pow256_values();
        }
        Ok((v as u128) as i128)
    }

    proof fn lemma_decode_encode(v: Self) {
        lemma_pow256_values();
        lemma_unsigned_roundtrip((v as u128) as nat, 16);
        assert(((v as u128) as i128) == v) by (bit_vector);
    }
}

/// Decode the parameters of a status packet as a value, after checking the error field for a motor error.
pub fn decode_status_packet<T: Data, E>(status_packet: StatusPacket<'_>) -> (r: Result<Response<T>, ReadError<E>>)
    requires
        status_packet.wf(),
    ensures
        ({
            let data = status_packet.spec_data();
            &&& (spec_error_number(data[8]) != 0 ==> r == Err::<Response<T>, ReadError<E>>(
                ReadError::MotorError(MotorError { raw: data[8] }),
            ))
            &&& (spec_error_number(data[8]) == 0 && data.len() != 9 + T::ENCODED_SIZE ==> r == Err::<
                Response<T>,
                ReadError<E>,
            >(
                ReadError::InvalidMessage(
                    InvalidMessage::InvalidParameterCount(
                        InvalidParameterCount {
                            actual: (data.len() - 9) as usize,
                            expected: ExpectedCount::Exact(T::ENCODED_SIZE as usize),
                        },
                    ),
                ),
            ))
            &&& (r matches Ok(response) ==> {
                &&& spec_error_number(data[8]) == 0
                &&& data.len() == 9 + T::ENCODED_SIZE
                &&& spec_reply_header(response, data)
                &&& response.data == T::spec_decode(data.skip(9))
            })
        }),
{
    if let Err(e) = MotorError::check(status_packet.error()) {
        return Err(ReadError::MotorError(e));
    }
    match T::decode(status_packet.parameters()) {
        Ok(value) => Ok(Response { motor_id: status_packet.packet_id(), alert: status_packet.alert(), data: value }),
        Err(e) => Err(ReadError::InvalidMessage(e)),
    }
}

/// Copy the parameters of a status packet into a response, after checking the error field for a motor error.
pub fn decode_status_packet_bytes(status_packet: StatusPacket<'_>) -> (r: Result<Response<Vec<u8>>, MotorError>)
    requires
        status_packet.wf(),
    ensures
        r is Ok <==> spec_error_number(status_packet.spec_data()[8]) == 0,
        r matches Err(e) ==> e.raw == status_packet.spec_data()[8],
        r matches Ok(response) ==> spec_reply_header(response, status_packet.spec_data()) && response.data@
            == status_packet.spec_data().skip(9),
{
    MotorError::check(status_packet.error())?;
    Ok(Response::<Vec<u8>>::from_status_owned(status_packet))
}

/// Borrow the parameters of a status packet in a response, after checking the error field for a motor error.
pub fn decode_status_packet_bytes_borrow<'a>(status_packet: StatusPacket<'a>) -> (r: Result<Response<&'a [u8]>, MotorError>)
    requires
        status_packet.wf(),
    ensures
        r is Ok <==> spec_error_number(status_packet.spec_data()[8]) == 0,
        r matches Err(e) ==> e.raw == status_packet.spec_data()[8],
        r matches Ok(response) ==> spec_reply_header(response, status_packet.spec_data()) && response.data@
            == status_packet.spec_data().skip(9),
{
    MotorError::check(status_packet.error())?;
    Ok(Response::<&[u8]>::from_status(status_packet))
}

} // verus!
