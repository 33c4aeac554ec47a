//! Error types of the library.
use vstd::prelude::*;
use vstd::std_specs::convert::FromSpecImpl;

verus! {

/// An error that can occur while initializing a bus.
#[derive(Debug)]
pub enum InitializeError<E> {
    /// Failed to get the configuration of the serial port.
    GetConfiguration(E),
    /// Failed to get the baud rate from the configuration of the serial port.
    GetBaudRate(E),
}

/// An error that can occur during a read/write transfer.
#[derive(Debug)]
pub enum TransferError<E> {
    /// The write of failed.
    WriteError(WriteError<E>),
    /// The read failed.
    ReadError(ReadError<E>),
}

/// An error that can occur during a write transfer.
#[derive(Debug)]
pub enum WriteError<E> {
    /// The write buffer is too small to contain the whole stuffed message.
    BufferTooSmall(BufferTooSmallError),
    /// Failed to discard the input buffer before writing the instruction.
    DiscardBuffer(E),
    /// Failed to write the instruction.
    Write(E),
}

/// The buffer is too small to hold the entire message.
///
/// Consider increasing the size of the buffer.
/// Keep in mind that the write buffer needs to be large enough to account for byte stuffing.
#[derive(Debug, Clone, Copy, PartialEq, Eq, Structural)]
pub struct BufferTooSmallError {
    /// The required size of the buffer.
    pub required_size: usize,
    /// The total size of the buffer.
    pub total_size: usize,
}

/// An error that can occur during a read transfer.
#[derive(Debug)]
pub enum ReadError<E> {
    /// The read buffer is too small to contain the whole stuffed message.
    BufferFull(BufferTooSmallError),
    /// Failed to read from the serial port.
    Io(E),
    /// A timeout occurred while waiting for a response.
    Timeout,
    /// The received message is invalid.
    InvalidMessage(InvalidMessage),
    /// The motor reported an error instead of a valid response.
    ///
    /// This error is not returned when a motor signals a hardware error,
    /// since the instruction has still been exectuted.
    ///
    /// Instead, the `alert` bit in the response will be set.
    MotorError(MotorError),
}

/// The received message is not valid.
#[derive(Debug, Clone, Copy, PartialEq, Eq)]
pub enum InvalidMessage {
    /// The header does not start with the proper prefix.
    InvalidHeaderPrefix(InvalidHeaderPrefix),
    /// The message checksum is invalid.
    InvalidChecksum(InvalidChecksum),
    /// The message has an invalid packet ID.
    InvalidPacketId(InvalidPacketId),
    /// The message has an invalid instruction.
    InvalidInstruction(InvalidInstruction),
    /// The message has an invalid parameter count.
    InvalidParameterCount(InvalidParameterCount),
}

/// An error reported by the motor.
#[derive(Debug, Clone, Copy, PartialEq, Eq, Structural)]
pub struct MotorError {
    /// The raw error as returned by the motor.
    pub raw: u8,
}

/// The lower 7 bits of an error field: the error number.
pub open spec fn spec_error_number(raw: u8) -> u8 {
    (raw % 128) as u8
}

/// The 8th bit of an error field: the alert bit.
pub open spec fn spec_alert(raw: u8) -> bool {
    raw >= 128
}

/// An error field is made of its error number (the lower 7 bits) and its alert bit (the 8th bit).
pub proof fn lemma_error_field_parts(raw: u8)
    ensures
        raw == spec_error_number(raw) + (if spec_alert(raw) { 128int } else { 0int }),
{
}

/// The alert bit is the top bit of an error field and the error number the other seven: a field below 128 is its
/// own error number without the alert bit, and setting the alert bit of it keeps that error number.
pub proof fn lemma_error_field(raw: u8)
    ensures
        spec_error_number(raw) < 128,
        spec_alert(raw) <==> raw >= 128,
        raw < 128 ==> spec_error_number(raw) == raw,
        raw < 128 ==> spec_error_number((raw + 128) as u8) == raw && spec_alert((raw + 128) as u8),
{
}

/// The error number of an error field, computed with the bit operations of the protocol.
pub fn error_number_of(raw: u8) -> (r: u8)
    ensures
        r == spec_error_number(raw),
{
    assert(raw & !0x80u8 == raw % 128) by (bit_vector);
    raw & !0x80u8
}

/// The alert bit of an error field, computed with the bit operations of the protocol.
pub fn alert_of(raw: u8) -> (r: bool)
    ensures
        r == spec_alert(raw),
{
    assert((raw & 0x80u8 != 0) == (raw >= 128)) by (bit_vector);
    raw & 0x80u8 != 0
}

impl MotorError {
    /// The error number reported by the motor.
    ///
    /// This is the lower 7 bits of the raw error field.
    pub fn error_number(&self) -> (r: u8)
        ensures
            r == spec_error_number(self.raw),
    {
        error_number_of(self.raw)
    }

    /// The alert bit from the error field of the response.
    ///
    /// This is the 8th bit of the raw error field.
    ///
    /// If this bit is set, you can normally check the "Hardware Error" register for more details.
    /// Consult the manual of your motor for more information.
    pub fn alert(&self) -> (r: bool)
        ensures
            r == spec_alert(self.raw),
    {
        alert_of(self.raw)
    }

    /// Check for a motor error in the response.
    ///
    /// This ignores the `alert` bit,
    /// since it indicates a hardware error and not a failed instruction.
    pub fn check(raw: u8) -> (r: Result<(), Self>)
        ensures
            r is Ok <==> spec_error_number(raw) == 0,
            r matches Err(e) ==> e.raw == raw,
    {
        if error_number_of(raw) == 0 {
            Ok(())
        } else {
            Err(Self { raw })
        }
    }
}

/// The received message has an invalid header prefix.
#[derive(Debug, Clone, Copy, PartialEq, Eq)]
pub struct InvalidHeaderPrefix {
    /// The actual prefix.
    pub actual: [u8; 4],
    /// The expected prefix.
    pub expected: [u8; 4],
}

/// The received message has an invalid checksum value.
#[derive(Debug, Clone, Copy, PartialEq, Eq, Structural)]
pub struct InvalidChecksum {
    /// The checksum from the messsage.
    pub message: u16,
    /// The actual checksum.
    pub computed: u16,
}

/// The received message has an invalid or unexpected packet ID.
#[derive(Debug, Clone, Copy, PartialEq, Eq, Structural)]
pub struct InvalidPacketId {
    /// The actual packet ID.
    pub actual: u8,
    /// The expected packet ID (if a specific ID was expected).
    pub expected: Option<u8>,
}

/// The received message has an invalid or unexpected instruction value.
#[derive(Debug, Clone, Copy, PartialEq, Eq, Structural)]
pub struct InvalidInstruction {
    /// The actual instruction ID.
    pub actual: u8,
    /// The expected instruction id.
    pub expected: u8,
}

/// The expected number of parameters.
#[derive(Debug, Clone, Copy, PartialEq, Eq, Structural)]
pub enum ExpectedCount {
    /// The exact number of expected parameters.
    Exact(usize),
    /// An upper limit on the expected number of parameters.
    Max(usize),
    /// A lower limit on the expected number of parameters.
    Min(usize),
}

/// The received message has an invalid or unexpected parameter count.
#[derive(Debug, Clone, Copy, PartialEq, Eq, Structural)]
pub struct InvalidParameterCount {
    /// The actual parameter count.
    pub actual: usize,
    /// The expected parameter count.
    pub expected: ExpectedCount,
}

impl BufferTooSmallError {
    /// Check if a buffer is large enough for the required total size.
    pub fn check(required_size: usize, total_size: usize) -> (r: Result<(), Self>)
        ensures
            r is Ok <==> required_size <= total_size,
            r matches Err(e) ==> e == (BufferTooSmallError { required_size, total_size }),
    {
        if required_size <= total_size {
            Ok(())
        } else {
            Err(Self { required_size, total_size })
        }
    }
}

impl InvalidHeaderPrefix {
    /// Check if the header prefix matches the expected value.
    pub fn check(actual: &[u8], expected: [u8; 4]) -> (r: Result<(), Self>)
        requires
            actual@.len() >= 4,
        ensures
            r is Ok <==> actual@ == expected@,
            r matches Err(e) ==> e.expected == expected && e.actual@ == actual@.take(4),
    {
        if actual.len() == 4 && actual[0] == expected[0] && actual[1] == expected[1] && actual[2] == expected[2]
            && actual[3] == expected[3] {
            assert(actual@ =~= expected@);
            Ok(())
        } else {
            let prefix = [actual[0], actual[1], actual[2], actual[3]];
            assert(prefix@ =~= actual@.take(4));
            Err(Self { actual: prefix, expected })
        }
    }
}

impl InvalidPacketId {
    /// Check if the packet ID matches the expected value.
    pub fn check(actual: u8, expected: u8) -> (r: Result<(), Self>)
        ensures
            r is Ok <==> actual == expected,
            r matches Err(e) ==> e == (InvalidPacketId { actual, expected: Some(expected) }),
    {
        if actual == expected {
            Ok(())
        } else {
            Err(Self { actual, expected: Some(expected) })
        }
    }

    /// Check if the packet ID matches the expected value, but don't report an error if the ID is the broadcast ID.
    pub fn check_ignore_broadcast(actual: u8, expected: u8) -> (r: Result<(), Self>)
        ensures
            r is Ok <==> (expected == crate::bus::packet_id::BROADCAST || actual == expected),
            r matches Err(e) ==> e == (InvalidPacketId { actual, expected: Some(expected) }),
    {
        if expected == crate::bus::packet_id::BROADCAST {
            Ok(())
        } else {
            Self::check(actual, expected)
        }
    }
}

impl InvalidInstruction {
    /// Check if the instruction ID is the expected value.
    pub fn check(actual: u8, expected: u8) -> (r: Result<(), Self>)
        ensures
            r is Ok <==> actual == expected,
            r matches Err(e) ==> e == (InvalidInstruction { actual, expected }),
    {
        if actual == expected {
            Ok(())
        } else {
            Err(Self { actual, expected })
        }
    }
}

impl InvalidParameterCount {
    /// Check if the parameter count matches the expected count.
    pub fn check(actual: usize, expected: usize) -> (r: Result<(), Self>)
        ensures
            r is Ok <==> actual == expected,
            r matches Err(e) ==> e == (InvalidParameterCount { actual, expected: ExpectedCount::Exact(expected) }),
    {
        if actual == expected {
            Ok(())
        } else {
            Err(Self { actual, expected: ExpectedCount::Exact(expected) })
        }
    }

    /// Check if the parameter count is at or below the max count.
    pub fn check_max(actual: usize, max: usize) -> (r: Result<(), Self>)
        ensures
            r is Ok <==> actual <= max,
            r matches Err(e) ==> e == (InvalidParameterCount { actual, expected: ExpectedCount::Max(max) }),
    {
        if actual <= max {
            Ok(())
        } else {
            Err(Self { actual, expected: ExpectedCount::Max(max) })
        }
    }

    /// Check if the parameter count is at or above the min count.
    pub fn check_min(actual: usize, min: usize) -> (r: Result<(), Self>)
        ensures
            r is Ok <==> actual >= min,
            r matches Err(e) ==> e == (InvalidParameterCount { actual, expected: ExpectedCount::Min(min) }),
    {
        if actual >= min {
            Ok(())
        } else {
            Err(Self { actual, expected: ExpectedCount::Min(min) })
        }
    }
}

impl<E> From<WriteError<E>> for TransferError<E> {
    fn from(other: WriteError<E>) -> (r: Self) {
        Self::WriteError(other)
    }
}

impl<E> FromSpecImpl<WriteError<E>> for TransferError<E> {
    open spec fn obeys_from_spec() -> bool {
        true
    }

    open spec fn from_spec(other: WriteError<E>) -> Self {
        Self::WriteError(other)
    }
}

impl<E> From<ReadError<E>> for TransferError<E> {
    fn from(other: ReadError<E>) -> (r: Self) {
        Self::ReadError(other)
    }
}

impl<E> FromSpecImpl<ReadError<E>> for TransferError<E> {
    open spec fn obeys_from_spec() -> bool {
        true
    }

    open spec fn from_spec(other: ReadError<E>) -> Self {
        Self::ReadError(other)
    }
}

impl<E> From<InvalidMessage> for TransferError<E> {
    fn from(other: InvalidMessage) -> (r: Self) {
        Self::ReadError(ReadError::InvalidMessage(other))
    }
}

impl<E> FromSpecImpl<InvalidMessage> for TransferError<E> {
    open spec fn obeys_from_spec() -> bool {
        true
    }

    open spec fn from_spec(other: InvalidMessage) -> Self {
        Self::ReadError(ReadError::InvalidMessage(other))
    }
}

impl<E> From<BufferTooSmallError> for WriteError<E> {
    fn from(other: BufferTooSmallError) -> (r: Self) {
        Self::BufferTooSmall(other)
    }
}

impl<E> FromSpecImpl<BufferTooSmallError> for WriteError<E> {
    open spec fn obeys_from_spec() -> bool {
        true
    }

    open spec fn from_spec(other: BufferTooSmallError) -> Self {
        Self::BufferTooSmall(other)
    }
}

impl<E> From<BufferTooSmallError> for ReadError<E> {
    fn from(other: BufferTooSmallError) -> (r: Self) {
        Self::BufferFull(other)
    }
}

impl<E> FromSpecImpl<BufferTooSmallError> for ReadError<E> {
    open spec fn obeys_from_spec() -> bool {
        true
    }

    open spec fn from_spec(other: BufferTooSmallError) -> Self {
        Self::BufferFull(other)
    }
}

impl<E> From<InvalidMessage> for ReadError<E> {
    fn from(other: InvalidMessage) -> (r: Self) {
        Self::InvalidMessage(other)
    }
}

impl<E> FromSpecImpl<InvalidMessage> for ReadError<E> {
    open spec fn obeys_from_spec() -> bool {
        true
    }

    open spec fn from_spec(other: InvalidMessage) -> Self {
        Self::InvalidMessage(other)
    }
}

impl<E> From<MotorError> for ReadError<E> {
    fn from(other: MotorError) -> (r: Self) {
        Self::MotorError(other)
    }
}

impl<E> FromSpecImpl<MotorError> for ReadError<E> {
    open spec fn obeys_from_spec() -> bool {
        true
    }

    open spec fn from_spec(other: MotorError) -> Self {
        Self::MotorError(other)
    }
}

impl<E> From<InvalidPacketId> for ReadError<E> {
    fn from(other: InvalidPacketId) -> (r: Self) {
        Self::InvalidMessage(InvalidMessage::InvalidPacketId(other))
    }
}

impl<E> FromSpecImpl<InvalidPacketId> for ReadError<E> {
    open spec fn obeys_from_spec() -> bool {
        true
    }

    open spec fn from_spec(other: InvalidPacketId) -> Self {
        Self::InvalidMessage(InvalidMessage::InvalidPacketId(other))
    }
}

impl<E> From<InvalidInstruction> for ReadError<E> {
    fn from(other: InvalidInstruction) -> (r: Self) {
        Self::InvalidMessage(InvalidMessage::InvalidInstruction(other))
    }
}

impl<E> FromSpecImpl<InvalidInstruction> for ReadError<E> {
    open spec fn obeys_from_spec() -> bool {
        true
    }

    open spec fn from_spec(other: InvalidInstruction) -> Self {
        Self::InvalidMessage(InvalidMessage::InvalidInstruction(other))
    }
}

impl<E> From<InvalidParameterCount> for ReadError<E> {
    fn from(other: InvalidParameterCount) -> (r: Self) {
        Self::InvalidMessage(InvalidMessage::InvalidParameterCount(other))
    }
}

impl<E> FromSpecImpl<InvalidParameterCount> for ReadError<E> {
    open spec fn obeys_from_spec() -> bool {
        true
    }

    open spec fn from_spec(other: InvalidParameterCount) -> Self {
        Self::InvalidMessage(InvalidMessage::InvalidParameterCount(other))
    }
}

impl<E> From<InvalidChecksum> for ReadError<E> {
    fn from(other: InvalidChecksum) -> (r: Self) {
        Self::InvalidMessage(InvalidMessage::InvalidChecksum(other))
    }
}

impl<E> FromSpecImpl<InvalidChecksum> for ReadError<E> {
    open spec fn obeys_from_spec() -> bool {
        true
    }

    open spec fn from_spec(other: InvalidChecksum) -> Self {
        Self::InvalidMessage(InvalidMessage::InvalidChecksum(other))
    }
}

impl From<InvalidParameterCount> for InvalidMessage {
    fn from(other: InvalidParameterCount) -> (r: Self) {
        Self::InvalidParameterCount(other)
    }
}

impl FromSpecImpl<InvalidParameterCount> for InvalidMessage {
    open spec fn obeys_from_spec() -> bool {
        true
    }

    open spec fn from_spec(other: InvalidParameterCount) -> Self {
        Self::InvalidParameterCount(other)
    }
}

impl From<InvalidPacketId> for InvalidMessage {
    fn from(other: InvalidPacketId) -> (r: Self) {
        Self::InvalidPacketId(other)
    }
}

impl FromSpecImpl<InvalidPacketId> for InvalidMessage {
    open spec fn obeys_from_spec() -> bool {
        true
    }

    open spec fn from_spec(other: InvalidPacketId) -> Self {
        Self::InvalidPacketId(other)
    }
}

impl From<InvalidHeaderPrefix> for InvalidMessage {
    fn from(other: InvalidHeaderPrefix) -> (r: Self) {
        Self::InvalidHeaderPrefix(other)
    }
}

impl FromSpecImpl<InvalidHeaderPrefix> for InvalidMessage {
    open spec fn obeys_from_spec() -> bool {
        true
    }

    open spec fn from_spec(other: InvalidHeaderPrefix) -> Self {
        Self::InvalidHeaderPrefix(other)
    }
}

} // verus!
