//! The cartridge header at 0x0100-0x014F.
use vstd::prelude::*;

verus! {

/// The cartridge-type byte at 0x0147.
#[derive(Clone, Copy, Debug, PartialEq, Eq, Structural)]
pub enum CartridgeType {
    RomOnly,
    Mbc1,
    Mbc1Ram,
    Mbc1RamBattery,
    Mbc2,
    Mbc2Battery,
    RomRam,
    RomRamBattery,
    Mmm01,
    Mmm01Ram,
    Mmm01RamBattery,
    Mbc3TimerBattery,
    Mbc3TimerRamBattery,
    Mbc3,
    Mbc3Ram,
    Mbc3RamBattery,
    Mbc5,
    Mbc5Ram,
    Mbc5RamBattery,
    Mbc5Rumble,
    Mbc5RumbleRam,
    Mbc5RumbleRamBattery,
    Mbc6,
    Mbc7SensorRumbleRamBattery,
    PocketCamera,
    BandaiTama5,
    HuC3,
    HuC1RamBattery,
}

pub open spec fn spec_cartridge_type(b: u8) -> Option<CartridgeType> {
    if b == 0x00 { Some(CartridgeType::RomOnly) }
    else if b == 0x01 { Some(CartridgeType::Mbc1) }
    else if b == 0x02 { Some(CartridgeType::Mbc1Ram) }
    else if b == 0x03 { Some(CartridgeType::Mbc1RamBattery) }
    else if b == 0x05 { Some(CartridgeType::Mbc2) }
    else if b == 0x06 { Some(CartridgeType::Mbc2Battery) }
    else if b == 0x08 { Some(CartridgeType::RomRam) }
    else if b == 0x09 { Some(CartridgeType::RomRamBattery) }
    else if b == 0x0B { Some(CartridgeType::Mmm01) }
    else if b == 0x0C { Some(CartridgeType::Mmm01Ram) }
    else if b == 0x0D { Some(CartridgeType::Mmm01RamBattery) }
    else if b == 0x0F { Some(CartridgeType::Mbc3TimerBattery) }
    else if b == 0x10 { Some(CartridgeType::Mbc3TimerRamBattery) }
    else if b == 0x11 { Some(CartridgeType::Mbc3) }
    else if b == 0x12 { Some(CartridgeType::Mbc3Ram) }
    else if b == 0x13 { Some(CartridgeType::Mbc3RamBattery) }
    else if b == 0x19 { Some(CartridgeType::Mbc5) }
    else if b == 0x1A { Some(CartridgeType::Mbc5Ram) }
    else if b == 0x1B { Some(CartridgeType::Mbc5RamBattery) }
    else if b == 0x1C { Some(CartridgeType::Mbc5Rumble) }
    else if b == 0x1D { Some(CartridgeType::Mbc5RumbleRam) }
    else if b == 0x1E { Some(CartridgeType::Mbc5RumbleRamBattery) }
    else if b == 0x20 { Some(CartridgeType::Mbc6) }
    else if b == 0x22 { Some(CartridgeType::Mbc7SensorRumbleRamBattery) }
    else if b == 0xFC { Some(CartridgeType::PocketCamera) }
    else if b == 0xFD { Some(CartridgeType::BandaiTama5) }
    else if b == 0xFE { Some(CartridgeType::HuC3) }
    else if b == 0xFF { Some(CartridgeType::HuC1RamBattery) }
    else { None }
}

impl CartridgeType {
    /// The type named by a cartridge-type byte, if the byte names one.
    pub fn from_byte(b: u8) -> (r: Option<CartridgeType>)
        ensures
            r == spec_cartridge_type(b),
    {
        match b {
            0x00 => Some(CartridgeType::RomOnly),
            0x01 => Some(CartridgeType::Mbc1),
            0x02 => Some(CartridgeType::Mbc1Ram),
            0x03 => Some(CartridgeType::Mbc1RamBattery),
            0x05 => Some(CartridgeType::Mbc2),
            0x06 => Some(CartridgeType::Mbc2Battery),
            0x08 => Some(CartridgeType::RomRam),
            0x09 => Some(CartridgeType::RomRamBattery),
            0x0B => Some(CartridgeType::Mmm01),
            0x0C => Some(CartridgeType::Mmm01Ram),
            0x0D => Some(CartridgeType::Mmm01RamBattery),
            0x0F => Some(CartridgeType::Mbc3TimerBattery),
            0x10 => Some(CartridgeType::Mbc3TimerRamBattery),
            0x11 => Some(CartridgeType::Mbc3),
            0x12 => Some(CartridgeType::Mbc3Ram),
            0x13 => Some(CartridgeType::Mbc3RamBattery),
            0x19 => Some(CartridgeType::Mbc5),
            0x1A => Some(CartridgeType::Mbc5Ram),
            0x1B => Some(CartridgeType::Mbc5RamBattery),
            0x1C => Some(CartridgeType::Mbc5Rumble),
            0x1D => Some(CartridgeType::Mbc5RumbleRam),
            0x1E => Some(CartridgeType::Mbc5RumbleRamBattery),
            0x20 => Some(CartridgeType::Mbc6),
            0x22 => Some(CartridgeType::Mbc7SensorRumbleRamBattery),
            0xFC => Some(CartridgeType::PocketCamera),
            0xFD => Some(CartridgeType::BandaiTama5),
            0xFE => Some(CartridgeType::HuC3),
            0xFF => Some(CartridgeType::HuC1RamBattery),
            _ => None,
        }
    }
}

/// The ROM-size byte at 0x0148.
#[derive(Clone, Copy, Debug, PartialEq, Eq, Structural)]
pub enum RomSize {
    KBytes32,
    KBytes64,
    KBytes128,
    KBytes256,
    KBytes512,
    MBytes1,
    MBytes2,
    MBytes4,
    MBytes8,
    MBytes1_1,
    MBytes1_2,
    MBytes1_5,
}

pub open spec fn spec_rom_size(b: u8) -> Option<RomSize> {
    if b == 0x00 { Some(RomSize::KBytes32) }
    else if b == 0x01 { Some(RomSize::KBytes64) }
    else if b == 0x02 { Some(RomSize::KBytes128) }
    else if b == 0x03 { Some(RomSize::KBytes256) }
    else if b == 0x04 { Some(RomSize::KBytes512) }
    else if b == 0x05 { Some(RomSize::MBytes1) }
    else if b == 0x06 { Some(RomSize::MBytes2) }
    else if b == 0x07 { Some(RomSize::MBytes4) }
    else if b == 0x08 { Some(RomSize::MBytes8) }
    else if b == 0x52 { Some(RomSize::MBytes1_1) }
    else if b == 0x53 { Some(RomSize::MBytes1_2) }
    else if b == 0x54 { Some(RomSize::MBytes1_5) }
    else { None }
}

impl RomSize {
    pub open spec fn spec_num_of_banks(&self) -> usize {
        match self {
            RomSize::KBytes32 => 2,
            RomSize::KBytes64 => 4,
            RomSize::KBytes128 => 8,
            RomSize::KBytes256 => 16,
            RomSize::KBytes512 => 32,
            RomSize::MBytes1 => 64,
            RomSize::MBytes2 => 128,
            RomSize::MBytes4 => 256,
            RomSize::MBytes8 => 512,
            RomSize::MBytes1_1 => 72,
            RomSize::MBytes1_2 => 80,
            RomSize::MBytes1_5 => 96,
        }
    }

    /// The number of 16 KiB banks; a 32 KiB ROM without banking counts as two.
    pub fn num_of_banks(&self) -> (r: usize)
        ensures
            r == self.spec_num_of_banks(),
    {
        match self {
            RomSize::KBytes32 => 2,
            RomSize::KBytes64 => 4,
            RomSize::KBytes128 => 8,
            RomSize::KBytes256 => 16,
            RomSize::KBytes512 => 32,
            RomSize::MBytes1 => 64,
            RomSize::MBytes2 => 128,
            RomSize::MBytes4 => 256,
            RomSize::MBytes8 => 512,
            RomSize::MBytes1_1 => 72,
            RomSize::MBytes1_2 => 80,
            RomSize::MBytes1_5 => 96,
        }
    }

    /// The size named by a ROM-size byte, if the byte names one.
    pub fn from_byte(b: u8) -> (r: Option<RomSize>)
        ensures
            r == spec_rom_size(b),
    {
        match b {
            0x00 => Some(RomSize::KBytes32),
            0x01 => Some(RomSize::KBytes64),
            0x02 => Some(RomSize::KBytes128),
            0x03 => Some(RomSize::KBytes256),
            0x04 => Some(RomSize::KBytes512),
            0x05 => Some(RomSize::MBytes1),
            0x06 => Some(RomSize::MBytes2),
            0x07 => Some(RomSize::MBytes4),
            0x08 => Some(RomSize::MBytes8),
            0x52 => Some(RomSize::MBytes1_1),
            0x53 => Some(RomSize::MBytes1_2),
            0x54 => Some(RomSize::MBytes1_5),
            _ => None,
        }
    }
}

/// The RAM-size byte at 0x0149.
#[derive(Clone, Copy, Debug, PartialEq, Eq, Structural)]
pub enum RamSize {
    NoRam,
    UnUsed,
    KB8,
    KB32,
    KB128,
    KB64,
}

pub open spec fn spec_ram_size(b: u8) -> Option<RamSize> {
    if b == 0x00 { Some(RamSize::NoRam) }
    else if b == 0x01 { Some(RamSize::UnUsed) }
    else if b == 0x02 { Some(RamSize::KB8) }
    else if b == 0x03 { Some(RamSize::KB32) }
    else if b == 0x04 { Some(RamSize::KB128) }
    else if b == 0x05 { Some(RamSize::KB64) }
    else { None }
}

impl RamSize {
    pub open spec fn spec_num_of_banks(&self) -> usize {
        match self {
            RamSize::NoRam => 0,
            RamSize::UnUsed => 0,
            RamSize::KB8 => 1,
            RamSize::KB32 => 4,
            RamSize::KB64 => 8,
            RamSize::KB128 => 16,
        }
    }

    /// The number of 8 KiB external RAM banks.
    pub fn num_of_banks(&self) -> (r: usize)
        ensures
            r == self.spec_num_of_banks(),
    {
        match self {
            RamSize::NoRam | RamSize::UnUsed => 0,
            RamSize::KB8 => 1,
            RamSize::KB32 => 4,
            RamSize::KB64 => 8,
            RamSize::KB128 => 16,
        }
    }

    /// The size named by a RAM-size byte, if the byte names one.
    pub fn from_byte(b: u8) -> (r: Option<RamSize>)
        ensures
            r == spec_ram_size(b),
    {
        match b {
            0x00 => Some(RamSize::NoRam),
            0x01 => Some(RamSize::UnUsed),
            0x02 => Some(RamSize::KB8),
            0x03 => Some(RamSize::KB32),
            0x04 => Some(RamSize::KB128),
            0x05 => Some(RamSize::KB64),
            _ => None,
        }
    }
}

/// The decoded header fields.
#[derive(Debug)]
pub struct CartridgeHeader {
    /// 0x0100-0x0103
    pub entry_point: Vec<u8>,
    /// 0x0104-0x0133
    pub nintendo_logo: Vec<u8>,
    /// 0x0134-0x0143
    pub title: Vec<u8>,
    /// 0x0144-0x0145
    pub new_licensee_code: Vec<u8>,
    /// 0x0146
    pub sgb_flag: u8,
    /// 0x0147
    pub cartridge_type: CartridgeType,
    /// 0x0148
    pub rom_size: RomSize,
    /// 0x0149
    pub ram_size: RamSize,
    /// 0x014A
    pub destination_code: u8,
    /// 0x014B
    pub old_licensee_code: u8,
    /// 0x014C
    pub mask_rom_version_number: u8,
    /// 0x014D
    pub header_checksum: u8,
    /// 0x014E-0x014F
    pub global_checksum: Vec<u8>,
}

fn copy_range(buf: &Vec<u8>, start: usize, len: usize) -> (r: Vec<u8>)
    requires
        start + len <= buf.len(),
    ensures
        r@ == buf@.subrange(start as int, start + len),
{
    let mut r: Vec<u8> = Vec::new();
    let mut i: usize = 0;
    while i < len
        invariant
            start + len <= buf.len(),
            i <= len,
            r@ == buf@.subrange(start as int, start + i),
        decreases len - i,
    {
        r.push(buf[start + i]);
        i = i + 1;
        assert(r@ =~= buf@.subrange(start as int, start + i));
    }
    r
}

impl CartridgeHeader {
    /// Decodes the header of `buf`; `None` where the type, ROM-size or
    /// RAM-size byte names no known value.
    pub fn parse(buf: &Vec<u8>) -> (r: Option<CartridgeHeader>)
        requires
            buf.len() >= 0x150,
        ensures
            r.is_some() <==> (spec_cartridge_type(buf@[0x147]).is_some() && spec_rom_size(
                buf@[0x148],
            ).is_some() && spec_ram_size(buf@[0x149]).is_some()),
            r.is_some() ==> ({
                let h = r.unwrap();
                &&& Some(h.cartridge_type) == spec_cartridge_type(buf@[0x147])
                &&& Some(h.rom_size) == spec_rom_size(buf@[0x148])
                &&& Some(h.ram_size) == spec_ram_size(buf@[0x149])
                &&& h.entry_point@ == buf@.subrange(0x100, 0x104)
                &&& h.nintendo_logo@ == buf@.subrange(0x104, 0x134)
                &&& h.title@ == buf@.subrange(0x134, 0x144)
                &&& h.new_licensee_code@ == buf@.subrange(0x144, 0x146)
                &&& h.sgb_flag == buf@[0x146]
                &&& h.destination_code == buf@[0x14A]
                &&& h.old_licensee_code == buf@[0x14B]
                &&& h.mask_rom_version_number == buf@[0x14C]
                &&& h.header_checksum == buf@[0x14D]
                &&& h.global_checksum@ == buf@.subrange(0x14E, 0x150)
            }),
    {
        let cartridge_type = match CartridgeType::from_byte(buf[0x147]) {
            Some(t) => t,
            None => {
                return None;
            },
        };
        let rom_size = match RomSize::from_byte(buf[0x148]) {
            Some(s) => s,
            None => {
                return None;
            },
        };
        let ram_size = match RamSize::from_byte(buf[0x149]) {
            Some(s) => s,
            None => {
                return None;
            },
        };
        Some(
            CartridgeHeader {
                entry_point: copy_range(buf, 0x100, 4),
                nintendo_logo: copy_range(buf, 0x104, 48),
                title: copy_range(buf, 0x134, 16),
                new_licensee_code: copy_range(buf, 0x144, 2),
                sgb_flag: buf[0x146],
                cartridge_type,
                rom_size,
                ram_size,
                destination_code: buf[0x14A],
                old_licensee_code: buf[0x14B],
                mask_rom_version_number: buf[0x14C],
                header_checksum: buf[0x14D],
                global_checksum: copy_range(buf, 0x14E, 2),
            },
        )
    }
}

} // verus!
