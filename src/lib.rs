//! Core of an emulator for the first 8-bit handheld (DMG): CPU interpreter,
//! memory bus, cartridge bank controllers, picture unit, timer and
//! interrupt controller.
use vstd::prelude::*;

pub mod arithmetic;
pub mod interruption;
pub mod timer;
pub mod cartridges;
pub mod ppu;
pub mod joypad;
pub mod sound;
pub mod bus;
pub mod cpu;
pub mod debugger;
pub mod mother_board;

verus! {

/// A location on the 16-bit address bus.
pub type Address = u16;

} // verus!
