//! The sound unit, as a stub: its registers accept writes and read as zero.
use vstd::prelude::*;

use crate::Address;

verus! {

#[derive(Clone, Copy, Debug, PartialEq, Eq, Structural)]
pub struct Sound {}

/// Whether `address` is a sound register.
pub open spec fn is_sound_register(address: Address) -> bool {
    0xFF10 <= address <= 0xFF3F
}

impl Sound {
    pub fn new() -> (r: Self)
        ensures
            r == (Sound {  }),
    {
        Sound {  }
    }

    /// Reads a sound register; synthesis is not emulated, so it reads as zero.
    pub fn read(&self, address: Address) -> (r: u8)
        requires
            is_sound_register(address),
        ensures
            r == 0,
    {
        0
    }

    /// Accepts a write to a sound register.
    pub fn write(&mut self, address: Address, data: u8)
        requires
            is_sound_register(address),
        ensures
            *final(self) == *old(self),
    {
    }
}

} // verus!
