//! The interrupt controller: the request register IF (0xFF0F), the enable
//! register IE (0xFFFF), and the fixed priority among the five sources.
use vstd::prelude::*;

use crate::arithmetic::{bit_of, bit_set, pack5, pow2};
use crate::Address;

verus! {

/// One of the five interrupt sources.
#[derive(Clone, Copy, Debug, PartialEq, Eq, Structural)]
pub enum Peripheral {
    Joypad,
    Serial,
    Timer,
    LcdStatus,
    VBlank,
}

impl Peripheral {
    /// The source's bit in IF and IE; the lower the bit, the higher the priority.
    pub open spec fn spec_bit(&self) -> nat {
        match self {
            Peripheral::VBlank => 0,
            Peripheral::LcdStatus => 1,
            Peripheral::Timer => 2,
            Peripheral::Serial => 3,
            Peripheral::Joypad => 4,
        }
    }

    /// The address the CPU jumps to when it services this source.
    pub fn jump_address(&self) -> (r: Address)
        ensures
            r == 0x40 + 8 * self.spec_bit(),
    {
        match self {
            Peripheral::Joypad => 0x0060,
            Peripheral::Serial => 0x0058,
            Peripheral::Timer => 0x0050,
            Peripheral::LcdStatus => 0x0048,
            Peripheral::VBlank => 0x0040,
        }
    }
}

/// IE: which sources may interrupt.
#[derive(Clone, Copy, Debug, PartialEq, Eq, Structural)]
pub struct InterruptEnables {
    pub joypad: bool,
    pub serial: bool,
    pub timer: bool,
    pub lcd_stat: bool,
    pub v_blank: bool,
}

/// IF: which sources have requested an interrupt.
#[derive(Clone, Copy, Debug, PartialEq, Eq, Structural)]
pub struct InterruptFlags {
    pub joypad: bool,
    pub serial: bool,
    pub timer: bool,
    pub lcd_stat: bool,
    pub v_blank: bool,
}

/// The enable flags held in the low five bits of `v`.
pub open spec fn enables_of_byte(v: u8) -> InterruptEnables {
    InterruptEnables {
        joypad: bit_of(v, 4),
        serial: bit_of(v, 3),
        timer: bit_of(v, 2),
        lcd_stat: bit_of(v, 1),
        v_blank: bit_of(v, 0),
    }
}

/// The request flags held in the low five bits of `v`.
pub open spec fn flags_of_byte(v: u8) -> InterruptFlags {
    InterruptFlags {
        joypad: bit_of(v, 4),
        serial: bit_of(v, 3),
        timer: bit_of(v, 2),
        lcd_stat: bit_of(v, 1),
        v_blank: bit_of(v, 0),
    }
}

impl InterruptEnables {
    pub open spec fn spec_byte(&self) -> u8 {
        pack5(self.joypad, self.serial, self.timer, self.lcd_stat, self.v_blank)
    }

    pub open spec fn spec_get(&self, p: Peripheral) -> bool {
        match p {
            Peripheral::Joypad => self.joypad,
            Peripheral::Serial => self.serial,
            Peripheral::Timer => self.timer,
            Peripheral::LcdStatus => self.lcd_stat,
            Peripheral::VBlank => self.v_blank,
        }
    }
}

impl InterruptFlags {
    pub open spec fn spec_byte(&self) -> u8 {
        pack5(self.joypad, self.serial, self.timer, self.lcd_stat, self.v_blank)
    }

    pub open spec fn spec_get(&self, p: Peripheral) -> bool {
        match p {
            Peripheral::Joypad => self.joypad,
            Peripheral::Serial => self.serial,
            Peripheral::Timer => self.timer,
            Peripheral::LcdStatus => self.lcd_stat,
            Peripheral::VBlank => self.v_blank,
        }
    }

    /// These flags with the flag of `p` set to `v`.
    pub open spec fn spec_with(self, p: Peripheral, v: bool) -> InterruptFlags {
        match p {
            Peripheral::Joypad => InterruptFlags { joypad: v, ..self },
            Peripheral::Serial => InterruptFlags { serial: v, ..self },
            Peripheral::Timer => InterruptFlags { timer: v, ..self },
            Peripheral::LcdStatus => InterruptFlags { lcd_stat: v, ..self },
            Peripheral::VBlank => InterruptFlags { v_blank: v, ..self },
        }
    }

    pub fn with(self, p: Peripheral, v: bool) -> (r: InterruptFlags)
        ensures
            r == self.spec_with(p, v),
    {
        let mut r = self;
        match p {
            Peripheral::Joypad => r.joypad = v,
            Peripheral::Serial => r.serial = v,
            Peripheral::Timer => r.timer = v,
            Peripheral::LcdStatus => r.lcd_stat = v,
            Peripheral::VBlank => r.v_blank = v,
        }
        r
    }
}

impl From<u8> for InterruptEnables {
    fn from(v: u8) -> (r: Self) {
        InterruptEnables {
            joypad: bit_set(v, 4),
            serial: bit_set(v, 3),
            timer: bit_set(v, 2),
            lcd_stat: bit_set(v, 1),
            v_blank: bit_set(v, 0),
        }
    }
}

impl vstd::std_specs::convert::FromSpecImpl<u8> for InterruptEnables {
    open spec fn obeys_from_spec() -> bool {
        true
    }

    open spec fn from_spec(v: u8) -> InterruptEnables {
        enables_of_byte(v)
    }
}

impl From<u8> for InterruptFlags {
    fn from(v: u8) -> (r: Self) {
        InterruptFlags {
            joypad: bit_set(v, 4),
            serial: bit_set(v, 3),
            timer: bit_set(v, 2),
            lcd_stat: bit_set(v, 1),
            v_blank: bit_set(v, 0),
        }
    }
}

impl vstd::std_specs::convert::FromSpecImpl<u8> for InterruptFlags {
    open spec fn obeys_from_spec() -> bool {
        true
    }

    open spec fn from_spec(v: u8) -> InterruptFlags {
        flags_of_byte(v)
    }
}

fn pack_bits(b4: bool, b3: bool, b2: bool, b1: bool, b0: bool) -> (r: u8)
    ensures
        r == pack5(b4, b3, b2, b1, b0),
{
    let mut v: u8 = 0;
    if b4 {
        v = v + 16;
    }
    if b3 {
        v = v + 8;
    }
    if b2 {
        v = v + 4;
    }
    if b1 {
        v = v + 2;
    }
    if b0 {
        v = v + 1;
    }
    v
}

impl From<InterruptEnables> for u8 {
    fn from(e: InterruptEnables) -> (r: u8) {
        pack_bits(e.joypad, e.serial, e.timer, e.lcd_stat, e.v_blank)
    }
}

impl vstd::std_specs::convert::FromSpecImpl<InterruptEnables> for u8 {
    open spec fn obeys_from_spec() -> bool {
        true
    }

    open spec fn from_spec(e: InterruptEnables) -> u8 {
        e.spec_byte()
    }
}

impl From<InterruptFlags> for u8 {
    fn from(f: InterruptFlags) -> (r: u8) {
        pack_bits(f.joypad, f.serial, f.timer, f.lcd_stat, f.v_blank)
    }
}

impl vstd::std_specs::convert::FromSpecImpl<InterruptFlags> for u8 {
    open spec fn obeys_from_spec() -> bool {
        true
    }

    open spec fn from_spec(f: InterruptFlags) -> u8 {
        f.spec_byte()
    }
}

/// The pair of interrupt registers.
#[derive(Clone, Copy, Debug, PartialEq, Eq, Structural)]
pub struct Interruption {
    pub interrupts: InterruptFlags,
    pub enables: InterruptEnables,
}

/// Whether `p` is both requested and enabled.
pub open spec fn is_pending(ic: Interruption, p: Peripheral) -> bool {
    ic.interrupts.spec_get(p) && ic.enables.spec_get(p)
}

/// The highest-priority source that is both requested and enabled.
pub open spec fn spec_pending(ic: Interruption) -> Option<Peripheral> {
    if is_pending(ic, Peripheral::VBlank) {
        Some(Peripheral::VBlank)
    } else if is_pending(ic, Peripheral::LcdStatus) {
        Some(Peripheral::LcdStatus)
    } else if is_pending(ic, Peripheral::Timer) {
        Some(Peripheral::Timer)
    } else if is_pending(ic, Peripheral::Serial) {
        Some(Peripheral::Serial)
    } else if is_pending(ic, Peripheral::Joypad) {
        Some(Peripheral::Joypad)
    } else {
        None
    }
}

/// Whether `address` is one of the two interrupt registers.
pub open spec fn is_interrupt_register(address: Address) -> bool {
    address == 0xFF0F || address == 0xFFFF
}

impl Interruption {
    /// Both registers cleared.
    pub fn new() -> (r: Self)
        ensures
            r.interrupts.spec_byte() == 0,
            r.enables.spec_byte() == 0,
            r.interrupts == flags_of_byte(0),
            r.enables == enables_of_byte(0),
    {
        proof {
            reveal_with_fuel(pow2, 5);
        }
        Interruption {
            interrupts: InterruptFlags {
                joypad: false,
                serial: false,
                timer: false,
                lcd_stat: false,
                v_blank: false,
            },
            enables: InterruptEnables {
                joypad: false,
                serial: false,
                timer: false,
                lcd_stat: false,
                v_blank: false,
            },
        }
    }

    pub open spec fn spec_read(&self, address: Address) -> u8 {
        if address == 0xFF0F {
            self.interrupts.spec_byte()
        } else {
            self.enables.spec_byte()
        }
    }

    pub open spec fn spec_write(self, address: Address, data: u8) -> Interruption {
        if address == 0xFF0F {
            Interruption { interrupts: flags_of_byte(data), ..self }
        } else {
            Interruption { enables: enables_of_byte(data), ..self }
        }
    }

    /// Reads IF (0xFF0F) or IE (0xFFFF).
    pub fn read(&self, address: Address) -> (r: u8)
        requires
            is_interrupt_register(address),
        ensures
            r == self.spec_read(address),
    {
        if address == 0xFF0F {
            u8::from(self.interrupts)
        } else {
            u8::from(self.enables)
        }
    }

    /// Writes IF (0xFF0F) or IE (0xFFFF); bits above bit 4 are dropped.
    pub fn write(&mut self, address: Address, data: u8)
        requires
            is_interrupt_register(address),
        ensures
            *final(self) == old(self).spec_write(address, data),
    {
        if address == 0xFF0F {
            self.interrupts = InterruptFlags::from(data);
        } else {
            self.enables = InterruptEnables::from(data);
        }
    }

    /// The highest-priority source that is requested and enabled, if any.
    pub fn pending(&self) -> (r: Option<Peripheral>)
        ensures
            r == spec_pending(*self),
    {
        let f = self.interrupts;
        let e = self.enables;
        if f.v_blank && e.v_blank {
            Some(Peripheral::VBlank)
        } else if f.lcd_stat && e.lcd_stat {
            Some(Peripheral::LcdStatus)
        } else if f.timer && e.timer {
            Some(Peripheral::Timer)
        } else if f.serial && e.serial {
            Some(Peripheral::Serial)
        } else if f.joypad && e.joypad {
            Some(Peripheral::Joypad)
        } else {
            None
        }
    }

    /// Sets the request flag of `p`.
    pub fn request(&mut self, p: Peripheral)
        ensures
            final(self).enables == old(self).enables,
            final(self).interrupts == old(self).interrupts.spec_with(p, true),
    {
        self.interrupts = self.interrupts.with(p, true);
    }

    /// Clears the request flag of `p`, leaving every other flag as it was.
    pub fn clear(&mut self, p: Peripheral)
        ensures
            final(self).enables == old(self).enables,
            final(self).interrupts == old(self).interrupts.spec_with(p, false),
    {
        self.interrupts = self.interrupts.with(p, false);
    }
}

} // verus!
