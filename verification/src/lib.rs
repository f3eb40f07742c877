//! Protocol engine for a UHF RFID reader module spoken to over a serial
//! byte channel: frame encoding and decoding with checksum, payload builders
//! for each supported command, chunked memory-bank access, and the firmware
//! upload handshake state machine.
//!
//! Everything here is pure logic on byte values. The serial transport itself
//! (opening the port, writing, timed reads) lives outside this crate; callers
//! feed the bytes they read into these functions and send the bytes these
//! functions build.

pub mod chunked;
pub mod device;
pub mod firmware;
pub mod protocol;
