//! The CPU: register file, flags, the two opcode tables and interrupt
//! dispatch. Instruction semantics are stated once, over [`Instr`], and each
//! opcode is tied to them through [`decode`] and [`decode_cb`].
use vstd::prelude::*;

pub mod cb_opcodes;
pub mod opcodes;
mod instructions;
pub mod laws;
pub mod semantics;

use crate::arithmetic::{bit_of, bit_set, wrap16};
use crate::bus::{bus_read, Bus, BusView};
use crate::interruption::spec_pending;
use crate::Address;
use semantics::{advance_pc, decode, exec_spec, imm16, imm8, pop_spec, push_spec, set_pc};

verus! {

/// The four flags kept in the high nibble of F.
#[derive(Clone, Copy, Debug, PartialEq, Eq, Structural)]
pub struct Flags {
    /// Bit 7: the result was zero.
    pub z: bool,
    /// Bit 6: the last operation was a subtraction.
    pub n: bool,
    /// Bit 5: carry out of (or borrow into) the low nibble.
    pub h: bool,
    /// Bit 4: carry out of (or borrow into) the whole value.
    pub c: bool,
}

/// F as a byte; the low nibble is always zero.
pub open spec fn flags_byte(f: Flags) -> u8 {
    ((if f.z { 128int } else { 0 }) + (if f.n { 64int } else { 0 }) + (if f.h { 32int } else { 0 })
        + (if f.c { 16int } else { 0 })) as u8
}

/// The flags held in a byte written to F; its low nibble is dropped.
pub open spec fn flags_of_byte(v: u8) -> Flags {
    Flags { z: bit_of(v, 7), n: bit_of(v, 6), h: bit_of(v, 5), c: bit_of(v, 4) }
}

impl From<u8> for Flags {
    fn from(v: u8) -> (r: Self) {
        Flags { z: bit_set(v, 7), n: bit_set(v, 6), h: bit_set(v, 5), c: bit_set(v, 4) }
    }
}

impl vstd::std_specs::convert::FromSpecImpl<u8> for Flags {
    open spec fn obeys_from_spec() -> bool {
        true
    }

    open spec fn from_spec(v: u8) -> Flags {
        flags_of_byte(v)
    }
}

impl From<Flags> for u8 {
    fn from(f: Flags) -> (r: u8) {
        let mut v: u8 = 0;
        if f.z {
            v = v + 128;
        }
        if f.n {
            v = v + 64;
        }
        if f.h {
            v = v + 32;
        }
        if f.c {
            v = v + 16;
        }
        v
    }
}

impl vstd::std_specs::convert::FromSpecImpl<Flags> for u8 {
    open spec fn obeys_from_spec() -> bool {
        true
    }

    open spec fn from_spec(f: Flags) -> u8 {
        flags_byte(f)
    }
}

/// The register file.
#[derive(Clone, Copy, Debug, PartialEq, Eq, Structural)]
pub struct Registers {
    pub a: u8,
    pub f: Flags,
    pub b: u8,
    pub c: u8,
    pub d: u8,
    pub e: u8,
    pub h: u8,
    pub l: u8,
    pub sp: Address,
    pub pc: Address,
}

/// The 16-bit value of a register pair.
pub open spec fn pair(hi: u8, lo: u8) -> u16 {
    (hi * 256 + lo) as u16
}

pub open spec fn hi8(v: u16) -> u8 {
    (v / 256) as u8
}

pub open spec fn lo8(v: u16) -> u8 {
    (v % 256) as u8
}

/// The register file right after reset.
pub open spec fn reset_registers() -> Registers {
    Registers {
        a: 0x01,
        f: Flags { z: true, n: false, h: true, c: true },
        b: 0x00,
        c: 0x13,
        d: 0x00,
        e: 0xD8,
        h: 0x01,
        l: 0x4D,
        sp: 0xFFFE,
        pc: 0x0100,
    }
}

impl Registers {
    pub open spec fn spec_af(&self) -> u16 {
        pair(self.a, flags_byte(self.f))
    }

    pub open spec fn spec_bc(&self) -> u16 {
        pair(self.b, self.c)
    }

    pub open spec fn spec_de(&self) -> u16 {
        pair(self.d, self.e)
    }

    pub open spec fn spec_hl(&self) -> u16 {
        pair(self.h, self.l)
    }

    /// The register file after reset.
    pub fn new() -> (r: Self)
        ensures
            r == reset_registers(),
    {
        Registers {
            a: 0x01,
            f: Flags { z: true, n: false, h: true, c: true },
            b: 0x00,
            c: 0x13,
            d: 0x00,
            e: 0xD8,
            h: 0x01,
            l: 0x4D,
            sp: 0xFFFE,
            pc: 0x0100,
        }
    }

    /// Puts the register file back in its state after reset.
    pub fn reset(&mut self)
        ensures
            *final(self) == reset_registers(),
    {
        *self = Registers::new();
    }

    pub fn af(&self) -> (r: u16)
        ensures
            r == self.spec_af(),
    {
        let f: u8 = u8::from(self.f);
        (self.a as u16) * 256 + f as u16
    }

    pub fn set_af(&mut self, v: u16)
        ensures
            *final(self) == (Registers { a: hi8(v), f: flags_of_byte(lo8(v)), ..*old(self) }),
    {
        self.a = (v / 256) as u8;
        self.f = Flags::from((v % 256) as u8);
    }

    pub fn bc(&self) -> (r: u16)
        ensures
            r == self.spec_bc(),
    {
        (self.b as u16) * 256 + self.c as u16
    }

    pub fn set_bc(&mut self, v: u16)
        ensures
            *final(self) == (Registers { b: hi8(v), c: lo8(v), ..*old(self) }),
    {
        self.b = (v / 256) as u8;
        self.c = (v % 256) as u8;
    }

    pub fn de(&self) -> (r: u16)
        ensures
            r == self.spec_de(),
    {
        (self.d as u16) * 256 + self.e as u16
    }

    pub fn set_de(&mut self, v: u16)
        ensures
            *final(self) == (Registers { d: hi8(v), e: lo8(v), ..*old(self) }),
    {
        self.d = (v / 256) as u8;
        self.e = (v % 256) as u8;
    }

    pub fn hl(&self) -> (r: u16)
        ensures
            r == self.spec_hl(),
    {
        (self.h as u16) * 256 + self.l as u16
    }

    pub fn set_hl(&mut self, v: u16)
        ensures
            *final(self) == (Registers { h: hi8(v), l: lo8(v), ..*old(self) }),
    {
        self.h = (v / 256) as u8;
        self.l = (v % 256) as u8;
    }
}

/// The CPU: registers plus the interrupt master enable and the halt latch.
#[derive(Clone, Copy, Debug, PartialEq, Eq, Structural)]
pub struct CPU {
    pub registers: Registers,
    /// Interrupt master enable.
    pub ime: bool,
    /// Set by HALT until an enabled interrupt is requested.
    pub halted: bool,
}

/// The CPU right after reset.
pub open spec fn reset_cpu() -> CPU {
    CPU { registers: reset_registers(), ime: false, halted: false }
}

/// What one call of `tick` does: service an interrupt, idle while halted,
/// or fetch, decode and execute one instruction. Returns the T-cycles used.
/// Any enabled and requested interrupt ends HALT, whether IME is set or not;
/// the hardware's HALT bug (the byte after HALT read twice when IME is clear
/// and an interrupt is already pending) is not reproduced.
pub open spec fn tick_spec(s: CPU, m: BusView) -> (CPU, BusView, u8) {
    let p = spec_pending(m.int);
    let s1 = if p.is_some() {
        CPU { halted: false, ..s }
    } else {
        s
    };
    if p.is_some() && s.ime {
        let (s2, m2) = push_spec(s1, m, s.registers.pc);
        let m3 = BusView {
            int: crate::interruption::Interruption {
                interrupts: m2.int.interrupts.spec_with(p.unwrap(), false),
                ..m2.int
            },
            ..m2
        };
        (CPU { ime: false, ..set_pc(s2, (0x40 + 8 * p.unwrap().spec_bit()) as u16) }, m3, 20)
    } else if s1.halted {
        (s1, m, 4)
    } else {
        let op = bus_read(m, s.registers.pc);
        exec_spec(advance_pc(s1, 1), m, decode(op))
    }
}

impl CPU {
    /// T-cycles per second.
    pub const CLOCK: u32 = 4194304;

    /// A CPU in its state after reset.
    pub fn new() -> (r: Self)
        ensures
            r == reset_cpu(),
    {
        CPU { registers: Registers::new(), ime: false, halted: false }
    }

    /// Puts the CPU back in its state after reset.
    pub fn reset(&mut self)
        ensures
            *final(self) == reset_cpu(),
    {
        self.registers.reset();
        self.ime = false;
        self.halted = false;
    }

    /// Runs one step: services the highest-priority pending interrupt when
    /// IME is set, idles while halted, or executes the instruction at PC.
    /// Returns the T-cycles it took.
    pub fn tick(&mut self, bus: &mut Bus) -> (cycles: u8)
        requires
            old(bus)@.wf(),
        ensures
            final(bus)@.wf(),
            (*final(self), final(bus)@, cycles) == tick_spec(*old(self), old(bus)@),
    {
        let pending = bus.pending_interrupt();
        match pending {
            Some(p) => {
                self.halted = false;
                if self.ime {
                    let pc = self.registers.pc;
                    self.push16(bus, pc);
                    bus.acknowledge(p);
                    self.ime = false;
                    self.registers.pc = p.jump_address();
                    return 20;
                }
            },
            None => {},
        }
        if self.halted {
            return 4;
        }
        let opcode = self.fetch(bus);
        self.execute(bus, opcode)
    }

    /// Reads the byte at PC and moves PC past it.
    pub fn fetch(&mut self, bus: &Bus) -> (r: u8)
        requires
            bus@.wf(),
        ensures
            r == imm8(*old(self), bus@),
            *final(self) == advance_pc(*old(self), 1),
    {
        let b = bus.read(self.registers.pc);
        self.registers.pc = inc16(self.registers.pc);
        b
    }

    /// Reads the little-endian word at PC and moves PC past it.
    pub fn fetch16(&mut self, bus: &Bus) -> (r: u16)
        requires
            bus@.wf(),
        ensures
            r == imm16(*old(self), bus@),
            *final(self) == advance_pc(*old(self), 2),
    {
        let l = self.fetch(bus);
        let h = self.fetch(bus);
        (h as u16) * 256 + l as u16
    }

    /// Pushes a word: high byte at SP-1, low byte at SP-2; SP drops by two.
    pub fn push16(&mut self, bus: &mut Bus, v: u16)
        requires
            old(bus)@.wf(),
        ensures
            final(bus)@.wf(),
            (*final(self), final(bus)@) == push_spec(*old(self), old(bus)@, v),
    {
        let sp1 = dec16(self.registers.sp);
        bus.write(sp1, (v / 256) as u8);
        let sp2 = dec16(sp1);
        bus.write(sp2, (v % 256) as u8);
        self.registers.sp = sp2;
    }

    /// Pops a word: low byte at SP, high byte at SP+1; SP rises by two.
    pub fn pop16(&mut self, bus: &Bus) -> (r: u16)
        requires
            bus@.wf(),
        ensures
            (*final(self), r) == pop_spec(*old(self), bus@),
    {
        let sp = self.registers.sp;
        let l = bus.read(sp);
        let sp1 = inc16(sp);
        let h = bus.read(sp1);
        self.registers.sp = inc16(sp1);
        (h as u16) * 256 + l as u16
    }
}

/// `x + 1` modulo 2^16.
pub fn inc16(x: u16) -> (r: u16)
    ensures
        r == wrap16(x + 1),
{
    if x == 0xFFFF {
        0
    } else {
        x + 1
    }
}

/// `x - 1` modulo 2^16.
pub fn dec16(x: u16) -> (r: u16)
    ensures
        r == wrap16(x + 0xFFFF),
{
    if x == 0 {
        0xFFFF
    } else {
        x - 1
    }
}

} // verus!
