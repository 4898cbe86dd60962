//! The bus capability that the driver is written against.
//!
//! The sensor sits on a register-addressed serial bus. The driver needs
//! three primitives of it: a combined write-then-read burst (select a
//! sub-address, then read a fixed-size burst back), a single-byte register
//! read, and a single-byte register write. Every primitive may fail with a
//! transport-specific error, and nothing is promised of the bytes a
//! transaction returns: the device on the other end decides them. The
//! driver therefore states what it does for every possible response, and an
//! embedding supplies an implementation backed by real hardware (or by a
//! script, for tests).

use vstd::prelude::*;

verus! {

/// A duplex register bus. Implementations perform the transactions; the
/// driver promises nothing of their outcomes and decodes whatever comes
/// back.
pub trait Transport {
    /// Transport-specific failure (no acknowledgment, timeout, ...).
    type Error;

    /// Combined write-then-read: write `subaddress` to the device at
    /// `address`, then read exactly 7 bytes back into `buffer` in the same
    /// bus operation.
    fn write_read(&mut self, address: u8, subaddress: u8, buffer: &mut [u8; 7]) -> Result<
        (),
        Self::Error,
    >;

    /// Read one byte from register `subaddress` of the device at `address`.
    fn read(&mut self, address: u8, subaddress: u8) -> Result<u8, Self::Error>;

    /// Write one byte to register `subaddress` of the device at `address`.
    fn write(&mut self, address: u8, subaddress: u8, value: u8) -> Result<(), Self::Error>;
}

} // verus!
