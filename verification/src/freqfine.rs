//! The frequency-trim register, read side.
//!
//! A thin accessor around one register: it fetches the raw trim byte over
//! the bus. Converting a trim byte into an output data rate in Hz is a
//! floating-point formula that the embedding applies to the byte returned
//! here.

use vstd::prelude::*;

use crate::transport::Transport;

verus! {

/// Sub-address of the register.
pub const ADDR: u8 = 0x63;

/// The frequency-trim register of one device.
pub struct FreqFine {
    /// Bus address of the device.
    pub address: u8,
    value: u8,
}

impl FreqFine {
    /// The trim value this accessor holds.
    pub closed spec fn spec_value(&self) -> u8 {
        self.value
    }

    /// The bus address this accessor speaks to.
    pub closed spec fn spec_address(&self) -> u8 {
        self.address
    }

    /// An accessor holding trim value `value` for the device at `address`.
    pub fn new(value: u8, address: u8) -> (r: Self)
        ensures
            r.spec_address() == address,
            r.spec_value() == value,
    {
        FreqFine { address, value }
    }

    /// The trim value this accessor holds.
    pub fn value(&self) -> (r: u8)
        ensures
            r == self.spec_value(),
    {
        self.value
    }

    /// Read the raw trim byte from the register. The byte is whatever the
    /// device answered; the accessor itself is left unchanged.
    pub fn read_freq<T: Transport>(&mut self, bus: &mut T) -> (r: Result<u8, T::Error>)
        ensures
            *final(self) == *old(self),
    {
        bus.read(self.address, ADDR)
    }
}

} // verus!
