//! The instruction families, each proved against [`exec_spec`] for its
//! [`Instr`] variant. The per-opcode functions of both tables call these.
use vstd::prelude::*;

use super::semantics::{
    alu_result, cond_holds, daa_result, exec_cb_spec, exec_spec, get16_spec,
    get16s_spec, get8_spec, hl, indirect_address, set16_spec, set16s_spec, set8_spec,
    shift_result, AluOp, Cond, Indirect, Instr, Reg16, Reg16Stack, Reg8, ShiftOp,
};
use super::{dec16, inc16, Flags, CPU};
use crate::arithmetic::{bit_set, pow2, AddSigned, ArithmeticUtil};
use crate::bus::Bus;

verus! {

/// The result and carry-out of a rotate or shift.
pub fn shift_value(op: ShiftOp, v: u8, cin: bool) -> (r: (u8, bool))
    ensures
        r == shift_result(op, v, cin),
{
    let ci: u16 = if cin {
        1
    } else {
        0
    };
    let w = v as u16;
    match op {
        ShiftOp::Rlc => (((w * 2) % 256 + w / 128) as u8, v >= 128),
        ShiftOp::Rrc => ((w / 2 + (w % 2) * 128) as u8, v % 2 == 1),
        ShiftOp::Rl => (((w * 2) % 256 + ci) as u8, v >= 128),
        ShiftOp::Rr => ((w / 2 + ci * 128) as u8, v % 2 == 1),
        ShiftOp::Sla => (((w * 2) % 256) as u8, v >= 128),
        ShiftOp::Sra => ((w / 2 + (w / 128) * 128) as u8, v % 2 == 1),
        ShiftOp::Swap => (((w % 16) * 16 + w / 16) as u8, false),
        ShiftOp::Srl => ((w / 2) as u8, v % 2 == 1),
    }
}

/// The decimal adjustment of A and the new carry.
pub fn daa_value(a: u8, f: Flags) -> (r: (u8, bool))
    ensures
        r == daa_result(a, f),
{
    if !f.n {
        let hi = f.c || a > 0x99;
        let lo = f.h || a % 16 > 9;
        let adj: u16 = (if hi {
            0x60
        } else {
            0
        }) + (if lo {
            6
        } else {
            0
        });
        (((a as u16 + adj) % 256) as u8, hi)
    } else {
        let adj: u16 = (if f.c {
            0x60
        } else {
            0
        }) + (if f.h {
            6
        } else {
            0
        });
        (((a as u16 + 256 - adj) % 256) as u8, f.c)
    }
}

/// The result and flags of an accumulator operation.
pub fn alu_value(op: AluOp, a: u8, x: u8, cin: bool) -> (r: (u8, Flags))
    ensures
        r == alu_result(op, a, x, cin),
{
    let ci: u16 = if cin {
        1
    } else {
        0
    };
    let wa = a as u16;
    let wx = x as u16;
    match op {
        AluOp::Add => {
            let r = ((wa + wx) % 256) as u8;
            (r, Flags { z: r == 0, n: false, h: a.calc_half_carry(x), c: a.calc_carry(x) })
        },
        AluOp::Adc => {
            let r = ((wa + wx + ci) % 256) as u8;
            (r, Flags { z: r == 0, n: false, h: wa % 16 + wx % 16 + ci > 15, c: wa + wx + ci > 255 })
        },
        AluOp::Sub => {
            let r = ((wa + 256 - wx) % 256) as u8;
            (r, Flags { z: r == 0, n: true, h: a.calc_half_borrow(x), c: a.calc_borrow(x) })
        },
        AluOp::Sbc => {
            let r = ((wa + 256 - wx - ci) % 256) as u8;
            (r, Flags { z: r == 0, n: true, h: wa % 16 < wx % 16 + ci, c: wa < wx + ci })
        },
        AluOp::And => {
            let r = a & x;
            (r, Flags { z: r == 0, n: false, h: true, c: false })
        },
        AluOp::Xor => {
            let r = a ^ x;
            (r, Flags { z: r == 0, n: false, h: false, c: false })
        },
        AluOp::Or => {
            let r = a | x;
            (r, Flags { z: r == 0, n: false, h: false, c: false })
        },
        AluOp::Cp => {
            let r = ((wa + 256 - wx) % 256) as u8;
            (a, Flags { z: r == 0, n: true, h: a.calc_half_borrow(x), c: a.calc_borrow(x) })
        },
    }
}

/// 2^n for a bit position.
pub fn bit_value(n: u8) -> (r: u8)
    requires
        n < 8,
    ensures
        r == pow2(n as nat),
{
    proof {
        reveal_with_fuel(pow2, 9);
    }
    if n == 0 {
        1
    } else if n == 1 {
        2
    } else if n == 2 {
        4
    } else if n == 3 {
        8
    } else if n == 4 {
        16
    } else if n == 5 {
        32
    } else if n == 6 {
        64
    } else {
        128
    }
}

/// The cost of an instruction on a register or on (HL).
fn cost(r: Reg8, reg: u8, mem: u8) -> (c: u8)
    ensures
        c == if r == Reg8::MemHl {
            mem
        } else {
            reg
        },
{
    if r == Reg8::MemHl {
        mem
    } else {
        reg
    }
}

impl CPU {
    /// Reads an 8-bit operand.
    pub fn get8(&self, bus: &Bus, r: Reg8) -> (v: u8)
        requires
            bus@.wf(),
        ensures
            v == get8_spec(*self, bus@, r),
    {
        let g = &self.registers;
        match r {
            Reg8::B => g.b,
            Reg8::C => g.c,
            Reg8::D => g.d,
            Reg8::E => g.e,
            Reg8::H => g.h,
            Reg8::L => g.l,
            Reg8::MemHl => bus.read(g.hl()),
            Reg8::A => g.a,
        }
    }

    /// Writes an 8-bit operand.
    pub fn set8(&mut self, bus: &mut Bus, r: Reg8, v: u8)
        requires
            old(bus)@.wf(),
        ensures
            final(bus)@.wf(),
            (*final(self), final(bus)@) == set8_spec(*old(self), old(bus)@, r, v),
    {
        match r {
            Reg8::B => self.registers.b = v,
            Reg8::C => self.registers.c = v,
            Reg8::D => self.registers.d = v,
            Reg8::E => self.registers.e = v,
            Reg8::H => self.registers.h = v,
            Reg8::L => self.registers.l = v,
            Reg8::MemHl => {
                let a = self.registers.hl();
                bus.write(a, v);
            },
            Reg8::A => self.registers.a = v,
        }
    }

    pub fn get16(&self, r: Reg16) -> (v: u16)
        ensures
            v == get16_spec(*self, r),
    {
        match r {
            Reg16::BC => self.registers.bc(),
            Reg16::DE => self.registers.de(),
            Reg16::HL => self.registers.hl(),
            Reg16::SP => self.registers.sp,
        }
    }

    pub fn set16(&mut self, r: Reg16, v: u16)
        ensures
            *final(self) == set16_spec(*old(self), r, v),
    {
        match r {
            Reg16::BC => self.registers.set_bc(v),
            Reg16::DE => self.registers.set_de(v),
            Reg16::HL => self.registers.set_hl(v),
            Reg16::SP => self.registers.sp = v,
        }
    }

    pub fn get16s(&self, r: Reg16Stack) -> (v: u16)
        ensures
            v == get16s_spec(*self, r),
    {
        match r {
            Reg16Stack::BC => self.registers.bc(),
            Reg16Stack::DE => self.registers.de(),
            Reg16Stack::HL => self.registers.hl(),
            Reg16Stack::AF => self.registers.af(),
        }
    }

    pub fn set16s(&mut self, r: Reg16Stack, v: u16)
        ensures
            *final(self) == set16s_spec(*old(self), r, v),
    {
        match r {
            Reg16Stack::BC => self.registers.set_bc(v),
            Reg16Stack::DE => self.registers.set_de(v),
            Reg16Stack::HL => self.registers.set_hl(v),
            Reg16Stack::AF => self.registers.set_af(v),
        }
    }

    /// Whether a branch condition holds.
    pub fn cond(&self, c: Cond) -> (r: bool)
        ensures
            r == cond_holds(self.registers.f, c),
    {
        let f = self.registers.f;
        match c {
            Cond::NZ => !f.z,
            Cond::Z => f.z,
            Cond::NC => !f.c,
            Cond::C => f.c,
            Cond::Always => true,
        }
    }

    fn indirect_addr(&self, i: Indirect) -> (a: u16)
        ensures
            a == indirect_address(*self, i),
    {
        match i {
            Indirect::BC => self.registers.bc(),
            Indirect::DE => self.registers.de(),
            _ => self.registers.hl(),
        }
    }

    fn step_hl(&mut self, i: Indirect)
        ensures
            *final(self) == super::semantics::after_indirect(*old(self), i),
    {
        match i {
            Indirect::HLInc => {
                let v = inc16(self.registers.hl());
                self.registers.set_hl(v);
            },
            Indirect::HLDec => {
                let v = dec16(self.registers.hl());
                self.registers.set_hl(v);
            },
            _ => {},
        }
    }

    pub(crate) fn i_nop(&mut self, bus: &mut Bus) -> (cycles: u8)
        requires
            old(bus)@.wf(),
        ensures
            final(bus)@.wf(),
            (*final(self), final(bus)@, cycles) == exec_spec(*old(self), old(bus)@, Instr::Nop),
    {
        4
    }

    pub(crate) fn i_stop(&mut self, bus: &mut Bus) -> (cycles: u8)
        requires
            old(bus)@.wf(),
        ensures
            final(bus)@.wf(),
            (*final(self), final(bus)@, cycles) == exec_spec(*old(self), old(bus)@, Instr::Stop),
    {
        let _ = self.fetch(bus);
        4
    }

    pub(crate) fn i_halt(&mut self, bus: &mut Bus) -> (cycles: u8)
        requires
            old(bus)@.wf(),
        ensures
            final(bus)@.wf(),
            (*final(self), final(bus)@, cycles) == exec_spec(*old(self), old(bus)@, Instr::Halt),
    {
        self.halted = true;
        4
    }

    pub(crate) fn i_di(&mut self, bus: &mut Bus) -> (cycles: u8)
        requires
            old(bus)@.wf(),
        ensures
            final(bus)@.wf(),
            (*final(self), final(bus)@, cycles) == exec_spec(*old(self), old(bus)@, Instr::Di),
    {
        self.ime = false;
        4
    }

    pub(crate) fn i_ei(&mut self, bus: &mut Bus) -> (cycles: u8)
        requires
            old(bus)@.wf(),
        ensures
            final(bus)@.wf(),
            (*final(self), final(bus)@, cycles) == exec_spec(*old(self), old(bus)@, Instr::Ei),
    {
        self.ime = true;
        4
    }

    pub(crate) fn i_illegal(&mut self, bus: &mut Bus) -> (cycles: u8)
        requires
            old(bus)@.wf(),
        ensures
            final(bus)@.wf(),
            (*final(self), final(bus)@, cycles) == exec_spec(*old(self), old(bus)@, Instr::Illegal),
    {
        4
    }

    pub(crate) fn i_ld(&mut self, bus: &mut Bus, d: Reg8, r: Reg8) -> (cycles: u8)
        requires
            old(bus)@.wf(),
        ensures
            final(bus)@.wf(),
            (*final(self), final(bus)@, cycles) == exec_spec(*old(self), old(bus)@, Instr::Ld(d, r)),
    {
        let v = self.get8(bus, r);
        self.set8(bus, d, v);
        if d == Reg8::MemHl || r == Reg8::MemHl {
            8
        } else {
            4
        }
    }

    pub(crate) fn i_ld_imm(&mut self, bus: &mut Bus, d: Reg8) -> (cycles: u8)
        requires
            old(bus)@.wf(),
        ensures
            final(bus)@.wf(),
            (*final(self), final(bus)@, cycles) == exec_spec(*old(self), old(bus)@, Instr::LdImm(d)),
    {
        let v = self.fetch(bus);
        self.set8(bus, d, v);
        cost(d, 8, 12)
    }

    pub(crate) fn i_ld16_imm(&mut self, bus: &mut Bus, r: Reg16) -> (cycles: u8)
        requires
            old(bus)@.wf(),
        ensures
            final(bus)@.wf(),
            (*final(self), final(bus)@, cycles) == exec_spec(*old(self), old(bus)@, Instr::Ld16Imm(r)),
    {
        let v = self.fetch16(bus);
        self.set16(r, v);
        12
    }

    pub(crate) fn i_store_a(&mut self, bus: &mut Bus, i: Indirect) -> (cycles: u8)
        requires
            old(bus)@.wf(),
        ensures
            final(bus)@.wf(),
            (*final(self), final(bus)@, cycles) == exec_spec(*old(self), old(bus)@, Instr::StoreA(i)),
    {
        let addr = self.indirect_addr(i);
        let a = self.registers.a;
        bus.write(addr, a);
        self.step_hl(i);
        8
    }

    pub(crate) fn i_load_a(&mut self, bus: &mut Bus, i: Indirect) -> (cycles: u8)
        requires
            old(bus)@.wf(),
        ensures
            final(bus)@.wf(),
            (*final(self), final(bus)@, cycles) == exec_spec(*old(self), old(bus)@, Instr::LoadA(i)),
    {
        let addr = self.indirect_addr(i);
        let v = bus.read(addr);
        self.registers.a = v;
        self.step_hl(i);
        8
    }

    pub(crate) fn i_store_sp(&mut self, bus: &mut Bus) -> (cycles: u8)
        requires
            old(bus)@.wf(),
        ensures
            final(bus)@.wf(),
            (*final(self), final(bus)@, cycles) == exec_spec(*old(self), old(bus)@, Instr::StoreSp),
    {
        let nn = self.fetch16(bus);
        let sp = self.registers.sp;
        bus.write(nn, (sp % 256) as u8);
        bus.write(inc16(nn), (sp / 256) as u8);
        20
    }

    pub(crate) fn i_inc16(&mut self, bus: &mut Bus, r: Reg16) -> (cycles: u8)
        requires
            old(bus)@.wf(),
        ensures
            final(bus)@.wf(),
            (*final(self), final(bus)@, cycles) == exec_spec(*old(self), old(bus)@, Instr::Inc16(r)),
    {
        let v = self.get16(r);
        self.set16(r, inc16(v));
        8
    }

    pub(crate) fn i_dec16(&mut self, bus: &mut Bus, r: Reg16) -> (cycles: u8)
        requires
            old(bus)@.wf(),
        ensures
            final(bus)@.wf(),
            (*final(self), final(bus)@, cycles) == exec_spec(*old(self), old(bus)@, Instr::Dec16(r)),
    {
        let v = self.get16(r);
        self.set16(r, dec16(v));
        8
    }

    pub(crate) fn i_add_hl(&mut self, bus: &mut Bus, r: Reg16) -> (cycles: u8)
        requires
            old(bus)@.wf(),
        ensures
            final(bus)@.wf(),
            (*final(self), final(bus)@, cycles) == exec_spec(*old(self), old(bus)@, Instr::AddHl(r)),
    {
        let h = self.registers.hl();
        let x = self.get16(r);
        let hc = h.calc_half_carry(x);
        let c = h.calc_carry(x);
        let v = ((h as u32 + x as u32) % 65536) as u16;
        self.registers.set_hl(v);
        self.registers.f = Flags { z: self.registers.f.z, n: false, h: hc, c };
        8
    }

    pub(crate) fn i_inc(&mut self, bus: &mut Bus, r: Reg8) -> (cycles: u8)
        requires
            old(bus)@.wf(),
        ensures
            final(bus)@.wf(),
            (*final(self), final(bus)@, cycles) == exec_spec(*old(self), old(bus)@, Instr::Inc(r)),
    {
        let v = self.get8(bus, r);
        let res = ((v as u16 + 1) % 256) as u8;
        let h = v.calc_half_carry(1);
        self.set8(bus, r, res);
        self.registers.f = Flags { z: res == 0, n: false, h, c: self.registers.f.c };
        cost(r, 4, 12)
    }

    pub(crate) fn i_dec(&mut self, bus: &mut Bus, r: Reg8) -> (cycles: u8)
        requires
            old(bus)@.wf(),
        ensures
            final(bus)@.wf(),
            (*final(self), final(bus)@, cycles) == exec_spec(*old(self), old(bus)@, Instr::Dec(r)),
    {
        let v = self.get8(bus, r);
        let res = ((v as u16 + 255) % 256) as u8;
        let h = v.calc_half_borrow(1);
        self.set8(bus, r, res);
        self.registers.f = Flags { z: res == 0, n: true, h, c: self.registers.f.c };
        cost(r, 4, 12)
    }

    pub(crate) fn i_rot_a(&mut self, bus: &mut Bus, op: ShiftOp) -> (cycles: u8)
        requires
            old(bus)@.wf(),
        ensures
            final(bus)@.wf(),
            (*final(self), final(bus)@, cycles) == exec_spec(*old(self), old(bus)@, Instr::RotA(op)),
    {
        let (res, c) = shift_value(op, self.registers.a, self.registers.f.c);
        self.registers.a = res;
        self.registers.f = Flags { z: false, n: false, h: false, c };
        4
    }

    pub(crate) fn i_daa(&mut self, bus: &mut Bus) -> (cycles: u8)
        requires
            old(bus)@.wf(),
        ensures
            final(bus)@.wf(),
            (*final(self), final(bus)@, cycles) == exec_spec(*old(self), old(bus)@, Instr::Daa),
    {
        let (res, c) = daa_value(self.registers.a, self.registers.f);
        let n = self.registers.f.n;
        self.registers.a = res;
        self.registers.f = Flags { z: res == 0, n, h: false, c };
        4
    }

    pub(crate) fn i_cpl(&mut self, bus: &mut Bus) -> (cycles: u8)
        requires
            old(bus)@.wf(),
        ensures
            final(bus)@.wf(),
            (*final(self), final(bus)@, cycles) == exec_spec(*old(self), old(bus)@, Instr::Cpl),
    {
        self.registers.a = 255 - self.registers.a;
        self.registers.f.n = true;
        self.registers.f.h = true;
        4
    }

    pub(crate) fn i_scf(&mut self, bus: &mut Bus) -> (cycles: u8)
        requires
            old(bus)@.wf(),
        ensures
            final(bus)@.wf(),
            (*final(self), final(bus)@, cycles) == exec_spec(*old(self), old(bus)@, Instr::Scf),
    {
        self.registers.f.n = false;
        self.registers.f.h = false;
        self.registers.f.c = true;
        4
    }

    pub(crate) fn i_ccf(&mut self, bus: &mut Bus) -> (cycles: u8)
        requires
            old(bus)@.wf(),
        ensures
            final(bus)@.wf(),
            (*final(self), final(bus)@, cycles) == exec_spec(*old(self), old(bus)@, Instr::Ccf),
    {
        self.registers.f.n = false;
        self.registers.f.h = false;
        self.registers.f.c = !self.registers.f.c;
        4
    }

    pub(crate) fn i_jr(&mut self, bus: &mut Bus, c: Cond) -> (cycles: u8)
        requires
            old(bus)@.wf(),
        ensures
            final(bus)@.wf(),
            (*final(self), final(bus)@, cycles) == exec_spec(*old(self), old(bus)@, Instr::Jr(c)),
    {
        let off = self.fetch(bus);
        if self.cond(c) {
            self.registers.pc = self.registers.pc.add_signed_u8(off);
            12
        } else {
            8
        }
    }

    pub(crate) fn i_alu(&mut self, bus: &mut Bus, op: AluOp, r: Reg8) -> (cycles: u8)
        requires
            old(bus)@.wf(),
        ensures
            final(bus)@.wf(),
            (*final(self), final(bus)@, cycles) == exec_spec(*old(self), old(bus)@, Instr::Alu(op, r)),
    {
        let x = self.get8(bus, r);
        let (res, f) = alu_value(op, self.registers.a, x, self.registers.f.c);
        self.registers.a = res;
        self.registers.f = f;
        cost(r, 4, 8)
    }

    pub(crate) fn i_alu_imm(&mut self, bus: &mut Bus, op: AluOp) -> (cycles: u8)
        requires
            old(bus)@.wf(),
        ensures
            final(bus)@.wf(),
            (*final(self), final(bus)@, cycles) == exec_spec(*old(self), old(bus)@, Instr::AluImm(op)),
    {
        let x = self.fetch(bus);
        let (res, f) = alu_value(op, self.registers.a, x, self.registers.f.c);
        self.registers.a = res;
        self.registers.f = f;
        8
    }

    pub(crate) fn i_ret(&mut self, bus: &mut Bus, c: Cond) -> (cycles: u8)
        requires
            old(bus)@.wf(),
        ensures
            final(bus)@.wf(),
            (*final(self), final(bus)@, cycles) == exec_spec(*old(self), old(bus)@, Instr::Ret(c)),
    {
        if self.cond(c) {
            let v = self.pop16(bus);
            self.registers.pc = v;
            if c == Cond::Always {
                16
            } else {
                20
            }
        } else {
            8
        }
    }

    pub(crate) fn i_reti(&mut self, bus: &mut Bus) -> (cycles: u8)
        requires
            old(bus)@.wf(),
        ensures
            final(bus)@.wf(),
            (*final(self), final(bus)@, cycles) == exec_spec(*old(self), old(bus)@, Instr::Reti),
    {
        let v = self.pop16(bus);
        self.registers.pc = v;
        self.ime = true;
        16
    }

    pub(crate) fn i_pop(&mut self, bus: &mut Bus, r: Reg16Stack) -> (cycles: u8)
        requires
            old(bus)@.wf(),
        ensures
            final(bus)@.wf(),
            (*final(self), final(bus)@, cycles) == exec_spec(*old(self), old(bus)@, Instr::Pop(r)),
    {
        let v = self.pop16(bus);
        self.set16s(r, v);
        12
    }

    pub(crate) fn i_push(&mut self, bus: &mut Bus, r: Reg16Stack) -> (cycles: u8)
        requires
            old(bus)@.wf(),
        ensures
            final(bus)@.wf(),
            (*final(self), final(bus)@, cycles) == exec_spec(*old(self), old(bus)@, Instr::Push(r)),
    {
        let v = self.get16s(r);
        self.push16(bus, v);
        16
    }

    pub(crate) fn i_jp(&mut self, bus: &mut Bus, c: Cond) -> (cycles: u8)
        requires
            old(bus)@.wf(),
        ensures
            final(bus)@.wf(),
            (*final(self), final(bus)@, cycles) == exec_spec(*old(self), old(bus)@, Instr::Jp(c)),
    {
        let nn = self.fetch16(bus);
        if self.cond(c) {
            self.registers.pc = nn;
            16
        } else {
            12
        }
    }

    pub(crate) fn i_jp_hl(&mut self, bus: &mut Bus) -> (cycles: u8)
        requires
            old(bus)@.wf(),
        ensures
            final(bus)@.wf(),
            (*final(self), final(bus)@, cycles) == exec_spec(*old(self), old(bus)@, Instr::JpHl),
    {
        self.registers.pc = self.registers.hl();
        4
    }

    pub(crate) fn i_call(&mut self, bus: &mut Bus, c: Cond) -> (cycles: u8)
        requires
            old(bus)@.wf(),
        ensures
            final(bus)@.wf(),
            (*final(self), final(bus)@, cycles) == exec_spec(*old(self), old(bus)@, Instr::Call(c)),
    {
        let nn = self.fetch16(bus);
        if self.cond(c) {
            let pc = self.registers.pc;
            self.push16(bus, pc);
            self.registers.pc = nn;
            24
        } else {
            12
        }
    }

    pub(crate) fn i_rst(&mut self, bus: &mut Bus, n: u8) -> (cycles: u8)
        requires
            old(bus)@.wf(),
            n < 8,
        ensures
            final(bus)@.wf(),
            (*final(self), final(bus)@, cycles) == exec_spec(*old(self), old(bus)@, Instr::Rst(n)),
    {
        let pc = self.registers.pc;
        self.push16(bus, pc);
        self.registers.pc = 8 * n as u16;
        16
    }

    pub(crate) fn i_ldh_store(&mut self, bus: &mut Bus) -> (cycles: u8)
        requires
            old(bus)@.wf(),
        ensures
            final(bus)@.wf(),
            (*final(self), final(bus)@, cycles) == exec_spec(*old(self), old(bus)@, Instr::LdhStore),
    {
        let a8 = self.fetch(bus);
        let a = self.registers.a;
        bus.write(0xFF00 + a8 as u16, a);
        12
    }

    pub(crate) fn i_ldh_load(&mut self, bus: &mut Bus) -> (cycles: u8)
        requires
            old(bus)@.wf(),
        ensures
            final(bus)@.wf(),
            (*final(self), final(bus)@, cycles) == exec_spec(*old(self), old(bus)@, Instr::LdhLoad),
    {
        let a8 = self.fetch(bus);
        let v = bus.read(0xFF00 + a8 as u16);
        self.registers.a = v;
        12
    }

    pub(crate) fn i_ldc_store(&mut self, bus: &mut Bus) -> (cycles: u8)
        requires
            old(bus)@.wf(),
        ensures
            final(bus)@.wf(),
            (*final(self), final(bus)@, cycles) == exec_spec(*old(self), old(bus)@, Instr::LdcStore),
    {
        let a = self.registers.a;
        bus.write(0xFF00 + self.registers.c as u16, a);
        8
    }

    pub(crate) fn i_ldc_load(&mut self, bus: &mut Bus) -> (cycles: u8)
        requires
            old(bus)@.wf(),
        ensures
            final(bus)@.wf(),
            (*final(self), final(bus)@, cycles) == exec_spec(*old(self), old(bus)@, Instr::LdcLoad),
    {
        let v = bus.read(0xFF00 + self.registers.c as u16);
        self.registers.a = v;
        8
    }

    pub(crate) fn i_store_abs(&mut self, bus: &mut Bus) -> (cycles: u8)
        requires
            old(bus)@.wf(),
        ensures
            final(bus)@.wf(),
            (*final(self), final(bus)@, cycles) == exec_spec(*old(self), old(bus)@, Instr::StoreAbs),
    {
        let nn = self.fetch16(bus);
        let a = self.registers.a;
        bus.write(nn, a);
        16
    }

    pub(crate) fn i_load_abs(&mut self, bus: &mut Bus) -> (cycles: u8)
        requires
            old(bus)@.wf(),
        ensures
            final(bus)@.wf(),
            (*final(self), final(bus)@, cycles) == exec_spec(*old(self), old(bus)@, Instr::LoadAbs),
    {
        let nn = self.fetch16(bus);
        let v = bus.read(nn);
        self.registers.a = v;
        16
    }

    pub(crate) fn i_add_sp(&mut self, bus: &mut Bus) -> (cycles: u8)
        requires
            old(bus)@.wf(),
        ensures
            final(bus)@.wf(),
            (*final(self), final(bus)@, cycles) == exec_spec(*old(self), old(bus)@, Instr::AddSp),
    {
        let off = self.fetch(bus);
        let sp = self.registers.sp;
        let lo = (sp % 256) as u8;
        let h = lo.calc_half_carry(off);
        let c = lo.calc_carry(off);
        self.registers.sp = sp.add_signed_u8(off);
        self.registers.f = Flags { z: false, n: false, h, c };
        16
    }

    pub(crate) fn i_ld_hl_sp(&mut self, bus: &mut Bus) -> (cycles: u8)
        requires
            old(bus)@.wf(),
        ensures
            final(bus)@.wf(),
            (*final(self), final(bus)@, cycles) == exec_spec(*old(self), old(bus)@, Instr::LdHlSp),
    {
        let off = self.fetch(bus);
        let sp = self.registers.sp;
        let lo = (sp % 256) as u8;
        let h = lo.calc_half_carry(off);
        let c = lo.calc_carry(off);
        let v = sp.add_signed_u8(off);
        self.registers.set_hl(v);
        self.registers.f = Flags { z: false, n: false, h, c };
        12
    }

    pub(crate) fn i_ld_sp_hl(&mut self, bus: &mut Bus) -> (cycles: u8)
        requires
            old(bus)@.wf(),
        ensures
            final(bus)@.wf(),
            (*final(self), final(bus)@, cycles) == exec_spec(*old(self), old(bus)@, Instr::LdSpHl),
    {
        self.registers.sp = self.registers.hl();
        8
    }

    pub(crate) fn i_prefix(&mut self, bus: &mut Bus) -> (cycles: u8)
        requires
            old(bus)@.wf(),
        ensures
            final(bus)@.wf(),
            (*final(self), final(bus)@, cycles) == exec_spec(*old(self), old(bus)@, Instr::Prefix),
    {
        let op = self.fetch(bus);
        self.execute_cb(bus, op)
    }

    pub(crate) fn i_shift(&mut self, bus: &mut Bus, op: ShiftOp, r: Reg8) -> (cycles: u8)
        requires
            old(bus)@.wf(),
        ensures
            final(bus)@.wf(),
            (*final(self), final(bus)@, cycles) == exec_cb_spec(*old(self), old(bus)@, Instr::Shift(op, r)),
    {
        let v = self.get8(bus, r);
        let (res, c) = shift_value(op, v, self.registers.f.c);
        self.set8(bus, r, res);
        self.registers.f = Flags { z: res == 0, n: false, h: false, c };
        cost(r, 8, 16)
    }

    pub(crate) fn i_bit(&mut self, bus: &mut Bus, n: u8, r: Reg8) -> (cycles: u8)
        requires
            old(bus)@.wf(),
            n < 8,
        ensures
            final(bus)@.wf(),
            (*final(self), final(bus)@, cycles) == exec_cb_spec(*old(self), old(bus)@, Instr::Bit(n, r)),
    {
        let v = self.get8(bus, r);
        let z = !bit_set(v, n);
        self.registers.f = Flags { z, n: false, h: true, c: self.registers.f.c };
        cost(r, 8, 12)
    }

    pub(crate) fn i_res(&mut self, bus: &mut Bus, n: u8, r: Reg8) -> (cycles: u8)
        requires
            old(bus)@.wf(),
            n < 8,
        ensures
            final(bus)@.wf(),
            (*final(self), final(bus)@, cycles) == exec_cb_spec(*old(self), old(bus)@, Instr::Res(n, r)),
    {
        let v = self.get8(bus, r);
        let res = v & !bit_value(n);
        self.set8(bus, r, res);
        cost(r, 8, 16)
    }

    pub(crate) fn i_set(&mut self, bus: &mut Bus, n: u8, r: Reg8) -> (cycles: u8)
        requires
            old(bus)@.wf(),
            n < 8,
        ensures
            final(bus)@.wf(),
            (*final(self), final(bus)@, cycles) == exec_cb_spec(*old(self), old(bus)@, Instr::SetBit(n, r)),
    {
        let v = self.get8(bus, r);
        let res = v | bit_value(n);
        self.set8(bus, r, res);
        cost(r, 8, 16)
    }
}

} // verus!
