//! The serial port abstraction that a bus communicates through.
use vstd::prelude::*;

use core::time::Duration;

verus! {

/// A serial port, as used by a DYNAMIXEL Protocol 2.0 bus.
///
/// Implement this trait for the serial port (or other transport) of your platform.
/// The serial port must be configured to use 8 bit characters, 1 stop bit, no parity and no flow control.
pub trait SerialPort {
    /// The error type returned by the serial port when reading, writing or changing its configuration.
    type Error;

    /// A point in time that can be used as a deadline for I/O operations.
    type Instant;

    /// Get the current baud rate of the serial port.
    fn baud_rate(&self) -> Result<u32, Self::Error>;

    /// Set the baud rate of the serial port.
    fn set_baud_rate(&mut self, baud_rate: u32) -> Result<(), Self::Error>;

    /// Discard the input buffer of the serial port. May be a no-op on some platforms.
    fn discard_input_buffer(&mut self) -> Result<(), Self::Error>;

    /// Read available bytes into the front of `buffer`,
    /// blocking until at least one byte is available or the deadline expires.
    ///
    /// Returns the number of bytes read, which is at most the length of `buffer`.
    /// The bus relies on this bound to keep track of the received bytes, so every implementation must keep it.
    fn read(&mut self, buffer: &mut [u8], deadline: &Self::Instant) -> (r: Result<usize, Self::Error>)
        ensures
            r matches Ok(n) ==> n <= old(buffer)@.len(),
            final(buffer)@.len() == old(buffer)@.len(),
    ;

    /// Write all bytes in the buffer to the serial port.
    fn write_all(&mut self, buffer: &[u8]) -> Result<(), Self::Error>;

    /// Make a deadline to expire after the given timeout.
    fn make_deadline(&self, timeout: Duration) -> Self::Instant;

    /// Check if an error indicates that the deadline of a read expired.
    fn is_timeout_error(error: &Self::Error) -> bool;
}

} // verus!
