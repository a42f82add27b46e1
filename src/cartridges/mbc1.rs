//! The MBC1 controller: up to 128 ROM banks and four RAM banks, switched by
//! writes into ROM space.
use vstd::prelude::*;

use super::header::RamSize;
use super::{
    ram_offset, rom_read, zeroed_ram, BankError, Mbc, MbcState,
    BANK_SIZE_RAM, BANK_SIZE_ROM,
};
use crate::Address;

verus! {

/// What the secondary bank register (0x4000-0x5FFF) drives.
#[derive(Clone, Copy, Debug, PartialEq, Eq, Structural)]
pub enum BankMode {
    /// Bits 5-6 of the ROM bank number.
    Rom,
    /// The RAM bank number.
    Ram,
}

/// Whether external RAM answers.
#[derive(Clone, Copy, Debug, PartialEq, Eq, Structural)]
pub enum RamMode {
    Disable,
    Enable,
}

pub struct Mbc1 {
    pub rom_banks: Vec<u8>,
    pub ram_banks: Vec<u8>,
    pub current_rom_bank: usize,
    pub current_ram_bank: usize,
    pub bank_mode: BankMode,
    pub ram_mode: RamMode,
}

impl Mbc1 {
    /// A controller over the ROM `banks` with zeroed RAM of the declared
    /// size: ROM bank 1, RAM bank 0, ROM banking mode, RAM disabled.
    pub fn new(banks: Vec<u8>, ram_size: &RamSize) -> (r: Self)
        requires
            banks.len() >= BANK_SIZE_ROM,
            banks.len() % BANK_SIZE_ROM == 0,
        ensures
            r.state().wf(),
            r.state() == (MbcState {
                mbc1: true,
                rom: banks@,
                ram: Seq::new(
                    (ram_size.spec_num_of_banks() * BANK_SIZE_RAM) as nat,
                    |i: int| 0u8,
                ),
                rom_bank: 1,
                ram_bank: 0,
                ram_banking: false,
                ram_enabled: false,
            }),
    {
        let ram_banks = zeroed_ram(ram_size.num_of_banks());
        Mbc1 {
            rom_banks: banks,
            ram_banks,
            current_rom_bank: 1,
            current_ram_bank: 0,
            bank_mode: BankMode::Rom,
            ram_mode: RamMode::Disable,
        }
    }

    /// Selects ROM bank `num` directly, when the ROM has that bank.
    pub fn switch_bank(&mut self, num: usize) -> (r: Result<(), BankError>)
        requires
            old(self).state().wf(),
        ensures
            final(self).state().wf(),
            (num < old(self).state().rom_banks() && num < 128) <==> r is Ok,
            r is Ok ==> final(self).state() == (MbcState { rom_bank: num as nat, ..old(self).state() }),
            r is Err ==> final(self).state() == old(self).state(),
    {
        if num >= self.rom_banks.len() / BANK_SIZE_ROM || num >= 128 {
            Err(BankError::OutOfRange)
        } else {
            self.current_rom_bank = num;
            Ok(())
        }
    }

    /// The number of 16 KiB banks in the ROM.
    pub fn rom_bank_count(&self) -> (r: usize)
        requires
            self.state().wf(),
        ensures
            r == self.state().rom_banks(),
            r > 0,
    {
        self.rom_banks.len() / BANK_SIZE_ROM
    }
}

impl Mbc for Mbc1 {
    open spec fn state(&self) -> MbcState {
        MbcState {
            mbc1: true,
            rom: self.rom_banks@,
            ram: self.ram_banks@,
            rom_bank: self.current_rom_bank as nat,
            ram_bank: self.current_ram_bank as nat,
            ram_banking: self.bank_mode == BankMode::Ram,
            ram_enabled: self.ram_mode == RamMode::Enable,
        }
    }

    fn current_rom_bank(&self) -> (r: usize) {
        self.current_rom_bank
    }

    fn current_ram_bank(&self) -> (r: usize) {
        self.current_ram_bank
    }

    fn read(&self, address: Address) -> (r: u8) {
        if address < 0x8000 {
            rom_read(&self.rom_banks, self.current_rom_bank, address)
        } else if self.ram_banks.len() > 0 && self.ram_mode == RamMode::Enable {
            let i = ram_offset(&self.ram_banks, self.current_ram_bank, address);
            self.ram_banks[i]
        } else {
            0xFF
        }
    }

    fn write(&mut self, address: Address, data: u8) {
        if address >= 0xA000 {
            if self.ram_banks.len() > 0 && self.ram_mode == RamMode::Enable {
                let i = ram_offset(&self.ram_banks, self.current_ram_bank, address);
                self.ram_banks.set(i, data);
            }
        } else if address < 0x2000 {
            self.ram_mode = if data % 16 == 0x0A {
                RamMode::Enable
            } else {
                RamMode::Disable
            };
        } else if address < 0x4000 {
            // A low bank number of zero selects bank one.
            let low = if data % 32 == 0 {
                1
            } else {
                (data % 32) as usize
            };
            self.current_rom_bank = (self.current_rom_bank / 32) * 32 + low;
        } else if address < 0x6000 {
            match self.bank_mode {
                BankMode::Rom => {
                    self.current_rom_bank = (data % 4) as usize * 32 + self.current_rom_bank % 32;
                },
                BankMode::Ram => {
                    self.current_ram_bank = (data % 4) as usize;
                },
            }
        } else {
            self.bank_mode = if data % 2 == 1 {
                BankMode::Ram
            } else {
                BankMode::Rom
            };
        }
    }
}

} // verus!
