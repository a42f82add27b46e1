//! Cartridges: ROM and external RAM behind a memory bank controller.
use vstd::prelude::*;

pub mod header;
pub mod mbc1;
pub mod rom_only;

use crate::Address;
use header::{spec_ram_size, spec_rom_size, CartridgeHeader, RamSize, RomSize};
use mbc1::Mbc1;
use rom_only::RomOnly;

verus! {

/// Bytes in one ROM bank.
pub const BANK_SIZE_ROM: usize = 0x4000;

/// Bytes in one external RAM bank.
pub const BANK_SIZE_RAM: usize = 0x2000;

/// What a bank controller holds, seen as plain values: the whole ROM, the
/// whole external RAM, and the bank registers. Both controllers share it.
pub struct MbcState {
    /// Whether the controller is an MBC1 (otherwise the ROM has no controller).
    pub mbc1: bool,
    pub rom: Seq<u8>,
    pub ram: Seq<u8>,
    /// Selected ROM bank for 0x4000-0x7FFF: bits 0-4 from the low register,
    /// bits 5-6 from the secondary register.
    pub rom_bank: nat,
    /// Selected external RAM bank.
    pub ram_bank: nat,
    /// MBC1 banking mode: `true` for RAM banking, `false` for ROM banking.
    pub ram_banking: bool,
    /// Whether external RAM is enabled.
    pub ram_enabled: bool,
}

impl MbcState {
    pub open spec fn wf(&self) -> bool {
        &&& self.rom.len() >= BANK_SIZE_ROM
        &&& self.rom.len() % 0x4000 == 0
        &&& self.rom.len() <= usize::MAX
        &&& self.ram.len() % 0x2000 == 0
        &&& self.ram.len() <= 16 * BANK_SIZE_RAM
        &&& self.rom_bank < 128
        &&& self.ram_bank < 4
        &&& !self.mbc1 ==> (self.rom_bank == 1 && self.ram_bank == 0 && !self.ram_banking
            && self.ram_enabled)
    }

    pub open spec fn rom_banks(&self) -> int {
        self.rom.len() as int / 0x4000
    }

    pub open spec fn ram_banks(&self) -> int {
        self.ram.len() as int / 0x2000
    }

    /// Index into the ROM of a read at 0x4000-0x7FFF; bank numbers wrap
    /// around the number of banks the ROM has.
    pub open spec fn rom_index(&self, a: Address) -> int {
        (self.rom_bank as int % self.rom_banks()) * 0x4000 + (a - 0x4000)
    }

    /// Index into the RAM of an access at 0xA000-0xBFFF.
    pub open spec fn ram_index(&self, a: Address) -> int {
        (self.ram_bank as int % self.ram_banks()) * 0x2000 + (a - 0xA000)
    }

    /// Whether 0xA000-0xBFFF reaches external RAM now.
    pub open spec fn ram_accessible(&self) -> bool {
        self.ram.len() > 0 && self.ram_enabled
    }
}

/// Whether the cartridge answers at `a`.
pub open spec fn is_cart_address(a: Address) -> bool {
    a < 0x8000 || (0xA000 <= a < 0xC000)
}

/// What a read at `a` returns. External RAM that is absent or disabled reads
/// as 0xFF.
pub open spec fn spec_cart_read(s: MbcState, a: Address) -> u8 {
    if a < 0x4000 {
        s.rom[a as int]
    } else if a < 0x8000 {
        s.rom[s.rom_index(a)]
    } else if s.ram_accessible() {
        s.ram[s.ram_index(a)]
    } else {
        0xFF
    }
}

/// The controller after a write of `d` at `a`. Writes into ROM space are
/// bank-control operations on an MBC1 and are dropped without a controller.
pub open spec fn spec_cart_write(s: MbcState, a: Address, d: u8) -> MbcState {
    if 0xA000 <= a {
        if s.ram_accessible() {
            MbcState { ram: s.ram.update(s.ram_index(a), d), ..s }
        } else {
            s
        }
    } else if !s.mbc1 {
        s
    } else if a < 0x2000 {
        MbcState { ram_enabled: d % 16 == 0xA, ..s }
    } else if a < 0x4000 {
        MbcState {
            rom_bank: ((s.rom_bank / 32) * 32 + (if d % 32 == 0 { 1 } else { d % 32 })) as nat,
            ..s
        }
    } else if a < 0x6000 {
        if s.ram_banking {
            MbcState { ram_bank: (d % 4) as nat, ..s }
        } else {
            MbcState { rom_bank: ((d % 4) * 32 + s.rom_bank % 32) as nat, ..s }
        }
    } else {
        MbcState { ram_banking: d % 2 == 1, ..s }
    }
}

/// What every bank controller offers the bus.
pub trait Mbc {
    spec fn state(&self) -> MbcState;

    /// The selected ROM bank register.
    fn current_rom_bank(&self) -> (r: usize)
        requires
            self.state().wf(),
        ensures
            r == self.state().rom_bank,
    ;

    /// The selected RAM bank register.
    fn current_ram_bank(&self) -> (r: usize)
        requires
            self.state().wf(),
        ensures
            r == self.state().ram_bank,
    ;

    /// Reads ROM or external RAM.
    fn read(&self, address: Address) -> (r: u8)
        requires
            self.state().wf(),
            is_cart_address(address),
        ensures
            r == spec_cart_read(self.state(), address),
    ;

    /// Writes external RAM, or a bank-control register in ROM space.
    fn write(&mut self, address: Address, data: u8)
        requires
            old(self).state().wf(),
            is_cart_address(address),
        ensures
            final(self).state().wf(),
            final(self).state() == spec_cart_write(old(self).state(), address, data),
    ;
}

/// Reads the ROM at `a` (below 0x8000) with `bank` mapped at 0x4000-0x7FFF.
pub(crate) fn rom_read(rom: &Vec<u8>, bank: usize, a: Address) -> (r: u8)
    requires
        rom.len() >= BANK_SIZE_ROM,
        rom.len() % BANK_SIZE_ROM == 0,
        a < 0x8000,
    ensures
        r == if a < 0x4000 {
            rom@[a as int]
        } else {
            rom@[(bank as int % (rom.len() as int / 0x4000)) * 0x4000 + (a
                - 0x4000)]
        },
{
    if a < 0x4000 {
        rom[a as usize]
    } else {
        let n = rom.len() / BANK_SIZE_ROM;
        let b = bank % n;
        let off = (a - 0x4000) as usize;
        proof {
            let len = rom.len() as int;
            assert(b < n);
            assert(n * 0x4000 == len);
            assert(b * 0x4000 + off < len) by (nonlinear_arith)
                requires
                    b < n,
                    n * 0x4000 == len,
                    off < 0x4000,
            ;
        }
        rom[b * BANK_SIZE_ROM + off]
    }
}

/// The index into `ram` of an access at `a` (0xA000-0xBFFF) with `bank`
/// selected.
pub(crate) fn ram_offset(ram: &Vec<u8>, bank: usize, a: Address) -> (r: usize)
    requires
        ram.len() > 0,
        ram.len() % BANK_SIZE_RAM == 0,
        0xA000 <= a < 0xC000,
    ensures
        r == (bank as int % (ram.len() as int / 0x2000)) * 0x2000 + (a
            - 0xA000),
        r < ram.len(),
{
    let n = ram.len() / BANK_SIZE_RAM;
    let b = bank % n;
    let off = (a - 0xA000) as usize;
    proof {
        let len = ram.len() as int;
        assert(n * 0x2000 == len);
        assert(b * 0x2000 + off < len) by (nonlinear_arith)
            requires
                b < n,
                n * 0x2000 == len,
                off < 0x2000,
        ;
    }
    b * BANK_SIZE_RAM + off
}

/// A zero-filled RAM of `banks` banks.
pub(crate) fn zeroed_ram(banks: usize) -> (r: Vec<u8>)
    requires
        banks <= 16,
    ensures
        r@ == Seq::new((banks * BANK_SIZE_RAM) as nat, |i: int| 0u8),
{
    let n = banks * BANK_SIZE_RAM;
    let mut r: Vec<u8> = Vec::new();
    let mut i: usize = 0;
    while i < n
        invariant
            i <= n,
            r@ == Seq::new(i as nat, |j: int| 0u8),
        decreases n - i,
    {
        r.push(0);
        i = i + 1;
        assert(r@ =~= Seq::new(i as nat, |j: int| 0u8));
    }
    r
}

/// Why a ROM image was refused.
#[derive(Clone, Copy, Debug, PartialEq, Eq, Structural)]
pub enum LoadError {
    /// The image is empty or not a whole number of 16 KiB banks.
    InvalidSize,
    /// The header checksum at 0x014D does not match the header.
    ChecksumMismatch,
    /// The cartridge-type byte names a controller this core does not have.
    UnsupportedCartridgeType,
    /// The ROM-size byte names no known size.
    UnsupportedRomSize,
    /// The RAM-size byte names no known size.
    UnsupportedRamSize,
}

/// One step of the header checksum: `x - byte - 1`, modulo 256.
pub open spec fn checksum_step(x: u8, byte: u8) -> u8 {
    ((x + 512 - byte - 1) % 256) as u8
}

/// The checksum over the first `n` bytes from 0x0134 on.
pub open spec fn checksum_prefix(b: Seq<u8>, n: nat) -> u8
    decreases n,
{
    if n == 0 {
        0
    } else {
        checksum_step(checksum_prefix(b, (n - 1) as nat), b[0x134 + n - 1])
    }
}

/// The header checksum: bytes 0x0134 through 0x014C folded with
/// `x = x - byte - 1`, starting from zero.
pub open spec fn header_checksum(b: Seq<u8>) -> u8 {
    checksum_prefix(b, 25)
}

/// The controller kinds this core emulates, by cartridge-type byte.
pub open spec fn is_rom_only_type(t: u8) -> bool {
    t == 0x00 || t == 0x08 || t == 0x09
}

pub open spec fn is_mbc1_type(t: u8) -> bool {
    t == 0x01 || t == 0x02 || t == 0x03
}

/// The first reason to refuse `b` as a ROM image, if there is one.
pub open spec fn spec_load_error(b: Seq<u8>) -> Option<LoadError> {
    if b.len() == 0 || b.len() % 0x4000 != 0 {
        Some(LoadError::InvalidSize)
    } else if header_checksum(b) != b[0x14D] {
        Some(LoadError::ChecksumMismatch)
    } else if !is_rom_only_type(b[0x147]) && !is_mbc1_type(b[0x147]) {
        Some(LoadError::UnsupportedCartridgeType)
    } else if spec_rom_size(b[0x148]).is_none() {
        Some(LoadError::UnsupportedRomSize)
    } else if spec_ram_size(b[0x149]).is_none() {
        Some(LoadError::UnsupportedRamSize)
    } else {
        None
    }
}

/// The controller state right after loading the valid image `b`.
pub open spec fn spec_initial_state(b: Seq<u8>) -> MbcState {
    let mbc1 = is_mbc1_type(b[0x147]);
    MbcState {
        mbc1,
        rom: b,
        ram: Seq::new(
            (spec_ram_size(b[0x149]).unwrap().spec_num_of_banks() * BANK_SIZE_RAM) as nat,
            |i: int| 0u8,
        ),
        rom_bank: 1,
        ram_bank: 0,
        ram_banking: false,
        ram_enabled: !mbc1,
    }
}

/// Why a bank could not be selected.
#[derive(Clone, Copy, Debug, PartialEq, Eq, Structural)]
pub enum BankError {
    /// The ROM has no bank of that number.
    OutOfRange,
    /// The cartridge has no bank controller.
    NoController,
}

/// The bank controller a cartridge carries.
pub enum Controller {
    RomOnly(RomOnly),
    Mbc1(Mbc1),
}

pub struct Cartridge {
    pub header: CartridgeHeader,
    pub mbc: Controller,
}

/// The state of whichever controller `c` is.
pub open spec fn controller_state(c: &Controller) -> MbcState {
    match c {
        Controller::RomOnly(m) => m.state(),
        Controller::Mbc1(m) => m.state(),
    }
}

impl Cartridge {
    pub open spec fn state(&self) -> MbcState {
        controller_state(&self.mbc)
    }

    /// Computes the header checksum of `buf` and returns it when it matches
    /// the byte stored at 0x014D.
    pub fn validate_checksum(buf: &Vec<u8>) -> (r: Result<u8, LoadError>)
        requires
            buf.len() > 0x14D,
        ensures
            header_checksum(buf@) == buf@[0x14D] ==> r == Ok::<u8, LoadError>(header_checksum(buf@)),
            header_checksum(buf@) != buf@[0x14D] ==> r == Err::<u8, LoadError>(
                LoadError::ChecksumMismatch,
            ),
    {
        let mut x: u8 = 0;
        let mut m: usize = 0x134;
        while m <= 0x14C
            invariant
                0x134 <= m <= 0x14D,
                buf.len() > 0x14D,
                x == checksum_prefix(buf@, (m - 0x134) as nat),
            decreases 0x14D - m,
        {
            x = ((x as u16 + 512 - buf[m] as u16 - 1) % 256) as u8;
            m = m + 1;
        }
        if x == buf[0x14D] {
            Ok(x)
        } else {
            Err(LoadError::ChecksumMismatch)
        }
    }

    /// Builds the cartridge from a whole ROM image.
    pub fn new(buf: Vec<u8>) -> (r: Result<Cartridge, LoadError>)
        ensures
            match r {
                Ok(c) => spec_load_error(buf@).is_none() && c.state() == spec_initial_state(buf@)
                    && c.state().wf(),
                Err(e) => spec_load_error(buf@) == Some(e),
            },
    {
        if buf.len() == 0 || buf.len() % BANK_SIZE_ROM != 0 {
            return Err(LoadError::InvalidSize);
        }
        match Self::validate_checksum(&buf) {
            Ok(_) => {},
            Err(e) => {
                return Err(e);
            },
        }
        let t = buf[0x147];
        let rom_only = t == 0x00 || t == 0x08 || t == 0x09;
        let mbc1 = t == 0x01 || t == 0x02 || t == 0x03;
        if !rom_only && !mbc1 {
            return Err(LoadError::UnsupportedCartridgeType);
        }
        if RomSize::from_byte(buf[0x148]).is_none() {
            return Err(LoadError::UnsupportedRomSize);
        }
        let ram_size = match RamSize::from_byte(buf[0x149]) {
            Some(s) => s,
            None => {
                return Err(LoadError::UnsupportedRamSize);
            },
        };
        let header = match CartridgeHeader::parse(&buf) {
            Some(h) => h,
            None => {
                return Err(LoadError::UnsupportedCartridgeType);
            },
        };
        let mbc = Self::create_mbc(mbc1, &ram_size, buf);
        Ok(Cartridge { header, mbc })
    }

    /// The controller for the cartridge type: MBC1 or none.
    fn create_mbc(mbc1: bool, ram_size: &RamSize, banks: Vec<u8>) -> (r: Controller)
        requires
            banks.len() >= BANK_SIZE_ROM,
            banks.len() % BANK_SIZE_ROM == 0,
        ensures
            controller_state(&r) == (MbcState {
                mbc1,
                rom: banks@,
                ram: Seq::new(
                    (ram_size.spec_num_of_banks() * BANK_SIZE_RAM) as nat,
                    |i: int| 0u8,
                ),
                rom_bank: 1,
                ram_bank: 0,
                ram_banking: false,
                ram_enabled: !mbc1,
            }),
            controller_state(&r).wf(),
    {
        if mbc1 {
            Controller::Mbc1(Mbc1::new(banks, ram_size))
        } else {
            Controller::RomOnly(RomOnly::new(banks, ram_size))
        }
    }

    /// Selects ROM bank `num` directly; only an MBC1 cartridge switches banks.
    pub fn switch_bank(&mut self, num: usize) -> (r: Result<(), BankError>)
        requires
            old(self).state().wf(),
        ensures
            final(self).state().wf(),
            !old(self).state().mbc1 ==> r == Err::<(), BankError>(BankError::NoController),
            old(self).state().mbc1 ==> ((num < old(self).state().rom_banks() && num < 128)
                <==> r is Ok),
            r is Ok ==> final(self).state() == (MbcState { rom_bank: num as nat, ..old(self).state() }),
            r is Err ==> final(self).state() == old(self).state(),
    {
        match &mut self.mbc {
            Controller::RomOnly(_) => Err(BankError::NoController),
            Controller::Mbc1(m) => m.switch_bank(num),
        }
    }

    /// Reads ROM or external RAM through the controller.
    pub fn read(&self, address: Address) -> (r: u8)
        requires
            self.state().wf(),
            is_cart_address(address),
        ensures
            r == spec_cart_read(self.state(), address),
    {
        match &self.mbc {
            Controller::RomOnly(m) => m.read(address),
            Controller::Mbc1(m) => m.read(address),
        }
    }

    /// Writes external RAM, or a bank-control register in ROM space.
    pub fn write(&mut self, address: Address, data: u8)
        requires
            old(self).state().wf(),
            is_cart_address(address),
        ensures
            final(self).state().wf(),
            final(self).state() == spec_cart_write(old(self).state(), address, data),
    {
        match &mut self.mbc {
            Controller::RomOnly(m) => m.write(address, data),
            Controller::Mbc1(m) => m.write(address, data),
        }
    }

    /// The ROM bank mapped at 0x4000-0x7FFF.
    pub fn current_bank(&self) -> (r: usize)
        requires
            self.state().wf(),
        ensures
            r == self.state().rom_bank as int % self.state().rom_banks(),
    {
        let bank = match &self.mbc {
            Controller::RomOnly(m) => m.current_rom_bank(),
            Controller::Mbc1(m) => m.current_rom_bank(),
        };
        let n = match &self.mbc {
            Controller::RomOnly(m) => m.rom_bank_count(),
            Controller::Mbc1(m) => m.rom_bank_count(),
        };
        bank % n
    }
}

} // verus!

verus! {

/// On an MBC1 with RAM: after 0x0A is written to 0x0000-0x1FFF, a byte
/// written at 0xA000-0xBFFF reads back at the same address; after 0x00 is
/// written there, the same read gives 0xFF.
pub proof fn lemma_mbc1_ram_enable(s: MbcState, e: Address, a: Address, d: u8, off: Address)
    requires
        s.wf(),
        s.mbc1,
        s.ram.len() > 0,
        e < 0x2000,
        off < 0x2000,
        0xA000 <= a < 0xC000,
    ensures
        ({
            let s1 = spec_cart_write(s, e, 0x0A);
            let s2 = spec_cart_write(s1, a, d);
            &&& spec_cart_read(s2, a) == d
            &&& spec_cart_read(spec_cart_write(s2, off, 0x00), a) == 0xFF
        }),
{
    let s1 = spec_cart_write(s, e, 0x0A);
    let n = s.ram_banks();
    let b = s.ram_bank as int % n;
    let len = s.ram.len() as int;
    assert(n * 0x2000 == len);
    assert(b * 0x2000 + (a - 0xA000) < len) by (nonlinear_arith)
        requires
            0 <= b < n,
            n * 0x2000 == len,
            0 <= a - 0xA000 < 0x2000,
    ;
    assert(s1.ram_index(a) == s.ram_index(a));
}

} // verus!
