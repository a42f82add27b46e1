//! A cartridge without a bank controller: two fixed ROM banks and, when the
//! header declares it, one bank of RAM.
use vstd::prelude::*;

use super::header::RamSize;
use super::{
    ram_offset, rom_read, zeroed_ram, Mbc, MbcState,
    BANK_SIZE_RAM, BANK_SIZE_ROM,
};
use crate::Address;

verus! {

pub struct RomOnly {
    pub rom_banks: Vec<u8>,
    pub ram_banks: Vec<u8>,
}

impl RomOnly {
    /// A controller over the ROM `banks` (a whole number of 16 KiB banks)
    /// with zeroed RAM of the size the header declares.
    pub fn new(banks: Vec<u8>, ram_size: &RamSize) -> (r: Self)
        requires
            banks.len() >= BANK_SIZE_ROM,
            banks.len() % BANK_SIZE_ROM == 0,
        ensures
            r.state().wf(),
            r.state() == (MbcState {
                mbc1: false,
                rom: banks@,
                ram: Seq::new(
                    (ram_size.spec_num_of_banks() * BANK_SIZE_RAM) as nat,
                    |i: int| 0u8,
                ),
                rom_bank: 1,
                ram_bank: 0,
                ram_banking: false,
                ram_enabled: true,
            }),
    {
        let ram_banks = zeroed_ram(ram_size.num_of_banks());
        RomOnly { rom_banks: banks, ram_banks }
    }

    /// The number of 16 KiB banks in the ROM.
    pub fn rom_bank_count(&self) -> (r: usize)
        requires
            self.state().wf(),
        ensures
            r == self.state().rom_banks(),
            r > 0,
    {
        self.rom_banks.len() / BANK_SIZE_ROM
    }
}

impl Mbc for RomOnly {
    open spec fn state(&self) -> MbcState {
        MbcState {
            mbc1: false,
            rom: self.rom_banks@,
            ram: self.ram_banks@,
            rom_bank: 1,
            ram_bank: 0,
            ram_banking: false,
            ram_enabled: true,
        }
    }

    fn current_rom_bank(&self) -> (r: usize) {
        1
    }

    fn current_ram_bank(&self) -> (r: usize) {
        0
    }

    fn read(&self, address: Address) -> (r: u8) {
        if address < 0x8000 {
            rom_read(&self.rom_banks, 1, address)
        } else if self.ram_banks.len() > 0 {
            let i = ram_offset(&self.ram_banks, 0, address);
            self.ram_banks[i]
        } else {
            0xFF
        }
    }

    fn write(&mut self, address: Address, data: u8) {
        if address >= 0xA000 && self.ram_banks.len() > 0 {
            let i = ram_offset(&self.ram_banks, 0, address);
            self.ram_banks.set(i, data);
        }
    }
}

} // verus!
