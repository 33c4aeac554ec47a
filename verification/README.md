# dynamixel2

An implementation of the DYNAMIXEL Protocol 2.0, with its logic verified by Verus.

The library (`src/`) frames instruction and status packets (header, byte stuffing, CRC-16 checksum),
reads and validates packets from a serial port, and implements the instructions of the protocol on the
client side (`Client`: ping, read, write, registered write, action, reboot, clear, factory reset, sync and
bulk reads and writes, and their fast variants) and on the device side (`Device`: parsing instructions and
sending status packets). The serial port is abstracted by the `SerialPort` trait.

Verus verifies every function in `src/`; the public ones carry contracts that state what they do, including laws such as:

- de-stuffing undoes stuffing, and stuffed data never holds the header prefix;
- a framed message is a valid message that decodes to the packet it was made of;
- a device parses the parameters a client encodes back into the same instruction;
- values decode to what was encoded;
- a read gives what the bytes received from the serial port hold: garbage is skipped, and the first message
  gives its decoded packet or its error (wrong checksum, message too large for the read buffer, too short),
  with the bytes after it left for the next read.

`app/` holds the command line tool: argument parsing, logging, and a `SerialPort` for `serial2`.

Layout of `src/`:

- `checksum`: the CRC-16 of the protocol;
- `bus`: byte stuffing, framing, packets, little endian values, deciding what received bytes amount to
  (`bus::scan`), and the `Bus` that reads and writes messages;
- `client`: the `Client` and one module per instruction;
- `device`: the `Device` and the parsing of instructions;
- `error`, `response`, `serial_port`, `time`, `motor_id`: errors, replies, the serial port trait,
  durations and motor IDs on the command line.
