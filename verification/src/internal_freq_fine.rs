//! The frequency-trim register, write side.
//!
//! The sibling of `freqfine`: it pushes a held trim value out to the same
//! register instead of reading it.

use vstd::prelude::*;

use crate::transport::Transport;

verus! {

/// Sub-address of the register.
pub const ADDR: u8 = 0x63;

/// The frequency-trim register of one device, held for writing.
#[allow(non_camel_case_types)]
pub struct freq_fine {
    /// Bus address of the device.
    pub address: u8,
    value: u8,
}

impl freq_fine {
    /// The trim value this accessor holds.
    pub closed spec fn spec_value(&self) -> u8 {
        self.value
    }

    /// The bus address this accessor speaks to.
    pub closed spec fn spec_address(&self) -> u8 {
        self.address
    }

    /// An accessor holding trim value `value` for the device at `address`.
    pub fn new(value: u8, address: u8) -> (r: Self)
        ensures
            r.spec_address() == address,
            r.spec_value() == value,
    {
        freq_fine { address, value }
    }

    /// The trim value this accessor holds.
    pub fn value(&self) -> (r: u8)
        ensures
            r == self.spec_value(),
    {
        self.value
    }

    /// Write the held trim value to the register. The accessor itself is
    /// left unchanged; a transport failure is propagated unchanged.
    pub fn read_freq<T: Transport>(&mut self, bus: &mut T) -> (r: Result<(), T::Error>)
        ensures
            *final(self) == *old(self),
    {
        bus.write(self.address, ADDR, self.value)
    }
}

} // verus!
