//! What each instruction does, as spec functions over the CPU and the bus
//! view, and how opcodes decode into instructions.
use vstd::prelude::*;

use super::{flags_of_byte, hi8, lo8, pair, Flags, Registers, CPU};
use crate::arithmetic::{
    bit_of, borrow8, carry16, carry8, half_borrow8, half_carry16, half_carry8, pow2, sign_extend,
    wrap16, wrap8,
};
use crate::bus::{bus_read, bus_write, BusView};

verus! {

/// An 8-bit operand, in encoding order; `MemHl` is the byte at (HL).
#[derive(Clone, Copy, Debug, PartialEq, Eq, Structural)]
pub enum Reg8 {
    B,
    C,
    D,
    E,
    H,
    L,
    MemHl,
    A,
}

/// A register pair as loads, increments and ADD HL name it.
#[derive(Clone, Copy, Debug, PartialEq, Eq, Structural)]
pub enum Reg16 {
    BC,
    DE,
    HL,
    SP,
}

/// A register pair as PUSH and POP name it.
#[derive(Clone, Copy, Debug, PartialEq, Eq, Structural)]
pub enum Reg16Stack {
    BC,
    DE,
    HL,
    AF,
}

/// The address operand of `LD (rr),A` and `LD A,(rr)`.
#[derive(Clone, Copy, Debug, PartialEq, Eq, Structural)]
pub enum Indirect {
    BC,
    DE,
    /// (HL), then HL is incremented.
    HLInc,
    /// (HL), then HL is decremented.
    HLDec,
}

/// A branch condition.
#[derive(Clone, Copy, Debug, PartialEq, Eq, Structural)]
pub enum Cond {
    NZ,
    Z,
    NC,
    C,
    Always,
}

/// The eight accumulator operations, in encoding order.
#[derive(Clone, Copy, Debug, PartialEq, Eq, Structural)]
pub enum AluOp {
    Add,
    Adc,
    Sub,
    Sbc,
    And,
    Xor,
    Or,
    Cp,
}

/// The eight rotate and shift operations, in encoding order.
#[derive(Clone, Copy, Debug, PartialEq, Eq, Structural)]
pub enum ShiftOp {
    Rlc,
    Rrc,
    Rl,
    Rr,
    Sla,
    Sra,
    Swap,
    Srl,
}

/// A decoded instruction.
#[derive(Clone, Copy, Debug, PartialEq, Eq, Structural)]
pub enum Instr {
    Nop,
    Stop,
    Halt,
    Di,
    Ei,
    Illegal,
    Ld(Reg8, Reg8),
    LdImm(Reg8),
    Ld16Imm(Reg16),
    StoreA(Indirect),
    LoadA(Indirect),
    StoreSp,
    Inc16(Reg16),
    Dec16(Reg16),
    AddHl(Reg16),
    Inc(Reg8),
    Dec(Reg8),
    /// RLCA, RRCA, RLA, RRA: a rotate of A that clears Z.
    RotA(ShiftOp),
    Daa,
    Cpl,
    Scf,
    Ccf,
    Jr(Cond),
    Alu(AluOp, Reg8),
    AluImm(AluOp),
    Ret(Cond),
    Reti,
    Pop(Reg16Stack),
    Push(Reg16Stack),
    Jp(Cond),
    JpHl,
    Call(Cond),
    Rst(u8),
    LdhStore,
    LdhLoad,
    LdcStore,
    LdcLoad,
    StoreAbs,
    LoadAbs,
    AddSp,
    LdHlSp,
    LdSpHl,
    Prefix,
    Shift(ShiftOp, Reg8),
    Bit(u8, Reg8),
    Res(u8, Reg8),
    SetBit(u8, Reg8),
}

pub open spec fn reg8_of(i: int) -> Reg8 {
    if i == 0 {
        Reg8::B
    } else if i == 1 {
        Reg8::C
    } else if i == 2 {
        Reg8::D
    } else if i == 3 {
        Reg8::E
    } else if i == 4 {
        Reg8::H
    } else if i == 5 {
        Reg8::L
    } else if i == 6 {
        Reg8::MemHl
    } else {
        Reg8::A
    }
}

pub open spec fn reg16_of(i: int) -> Reg16 {
    if i == 0 {
        Reg16::BC
    } else if i == 1 {
        Reg16::DE
    } else if i == 2 {
        Reg16::HL
    } else {
        Reg16::SP
    }
}

pub open spec fn reg16s_of(i: int) -> Reg16Stack {
    if i == 0 {
        Reg16Stack::BC
    } else if i == 1 {
        Reg16Stack::DE
    } else if i == 2 {
        Reg16Stack::HL
    } else {
        Reg16Stack::AF
    }
}

pub open spec fn indirect_of(i: int) -> Indirect {
    if i == 0 {
        Indirect::BC
    } else if i == 1 {
        Indirect::DE
    } else if i == 2 {
        Indirect::HLInc
    } else {
        Indirect::HLDec
    }
}

pub open spec fn cond_of(i: int) -> Cond {
    if i == 0 {
        Cond::NZ
    } else if i == 1 {
        Cond::Z
    } else if i == 2 {
        Cond::NC
    } else {
        Cond::C
    }
}

pub open spec fn alu_of(i: int) -> AluOp {
    if i == 0 {
        AluOp::Add
    } else if i == 1 {
        AluOp::Adc
    } else if i == 2 {
        AluOp::Sub
    } else if i == 3 {
        AluOp::Sbc
    } else if i == 4 {
        AluOp::And
    } else if i == 5 {
        AluOp::Xor
    } else if i == 6 {
        AluOp::Or
    } else {
        AluOp::Cp
    }
}

pub open spec fn shift_of(i: int) -> ShiftOp {
    if i == 0 {
        ShiftOp::Rlc
    } else if i == 1 {
        ShiftOp::Rrc
    } else if i == 2 {
        ShiftOp::Rl
    } else if i == 3 {
        ShiftOp::Rr
    } else if i == 4 {
        ShiftOp::Sla
    } else if i == 5 {
        ShiftOp::Sra
    } else if i == 6 {
        ShiftOp::Swap
    } else {
        ShiftOp::Srl
    }
}

/// The instruction of a main-table opcode. Opcodes 0x00-0x3F and 0xC0-0xFF
/// are laid out by column (`op % 8`) and row; 0x40-0x7F are loads between
/// the eight operands (0x76 is HALT); 0x80-0xBF apply the eight ALU
/// operations to the eight operands.
pub open spec fn decode(op: u8) -> Instr {
    let o = op as int;
    if op < 0x40 {
        let col = o % 8;
        let row = o / 8;
        if col == 0 {
            if op == 0x00 {
                Instr::Nop
            } else if op == 0x08 {
                Instr::StoreSp
            } else if op == 0x10 {
                Instr::Stop
            } else if op == 0x18 {
                Instr::Jr(Cond::Always)
            } else {
                Instr::Jr(cond_of(row - 4))
            }
        } else if col == 1 {
            if row % 2 == 0 {
                Instr::Ld16Imm(reg16_of(row / 2))
            } else {
                Instr::AddHl(reg16_of(row / 2))
            }
        } else if col == 2 {
            if row % 2 == 0 {
                Instr::StoreA(indirect_of(row / 2))
            } else {
                Instr::LoadA(indirect_of(row / 2))
            }
        } else if col == 3 {
            if row % 2 == 0 {
                Instr::Inc16(reg16_of(row / 2))
            } else {
                Instr::Dec16(reg16_of(row / 2))
            }
        } else if col == 4 {
            Instr::Inc(reg8_of(row))
        } else if col == 5 {
            Instr::Dec(reg8_of(row))
        } else if col == 6 {
            Instr::LdImm(reg8_of(row))
        } else if row < 4 {
            Instr::RotA(shift_of(row))
        } else if row == 4 {
            Instr::Daa
        } else if row == 5 {
            Instr::Cpl
        } else if row == 6 {
            Instr::Scf
        } else {
            Instr::Ccf
        }
    } else if op < 0x80 {
        if op == 0x76 {
            Instr::Halt
        } else {
            Instr::Ld(reg8_of((o - 0x40) / 8), reg8_of(o % 8))
        }
    } else if op < 0xC0 {
        Instr::Alu(alu_of((o - 0x80) / 8), reg8_of(o % 8))
    } else {
        let col = o % 8;
        let row = (o - 0xC0) / 8;
        if col == 0 {
            if row < 4 {
                Instr::Ret(cond_of(row))
            } else if op == 0xE0 {
                Instr::LdhStore
            } else if op == 0xE8 {
                Instr::AddSp
            } else if op == 0xF0 {
                Instr::LdhLoad
            } else {
                Instr::LdHlSp
            }
        } else if col == 1 {
            if row % 2 == 0 {
                Instr::Pop(reg16s_of(row / 2))
            } else if op == 0xC9 {
                Instr::Ret(Cond::Always)
            } else if op == 0xD9 {
                Instr::Reti
            } else if op == 0xE9 {
                Instr::JpHl
            } else {
                Instr::LdSpHl
            }
        } else if col == 2 {
            if row < 4 {
                Instr::Jp(cond_of(row))
            } else if op == 0xE2 {
                Instr::LdcStore
            } else if op == 0xEA {
                Instr::StoreAbs
            } else if op == 0xF2 {
                Instr::LdcLoad
            } else {
                Instr::LoadAbs
            }
        } else if col == 3 {
            if op == 0xC3 {
                Instr::Jp(Cond::Always)
            } else if op == 0xCB {
                Instr::Prefix
            } else if op == 0xF3 {
                Instr::Di
            } else if op == 0xFB {
                Instr::Ei
            } else {
                Instr::Illegal
            }
        } else if col == 4 {
            if row < 4 {
                Instr::Call(cond_of(row))
            } else {
                Instr::Illegal
            }
        } else if col == 5 {
            if row % 2 == 0 {
                Instr::Push(reg16s_of(row / 2))
            } else if op == 0xCD {
                Instr::Call(Cond::Always)
            } else {
                Instr::Illegal
            }
        } else if col == 6 {
            Instr::AluImm(alu_of(row))
        } else {
            Instr::Rst(row as u8)
        }
    }
}

/// The instruction of a CB-prefixed opcode: rotates and shifts, then BIT,
/// RES and SET, each over the eight operands.
pub open spec fn decode_cb(op: u8) -> Instr {
    let o = op as int;
    let r = reg8_of(o % 8);
    let row = o / 8;
    if op < 0x40 {
        Instr::Shift(shift_of(row), r)
    } else if op < 0x80 {
        Instr::Bit((row - 8) as u8, r)
    } else if op < 0xC0 {
        Instr::Res((row - 16) as u8, r)
    } else {
        Instr::SetBit((row - 24) as u8, r)
    }
}

pub open spec fn hl(s: CPU) -> u16 {
    s.registers.spec_hl()
}

pub open spec fn set_regs(s: CPU, r: Registers) -> CPU {
    CPU { registers: r, ..s }
}

pub open spec fn set_pc(s: CPU, pc: u16) -> CPU {
    set_regs(s, Registers { pc, ..s.registers })
}

pub open spec fn set_sp(s: CPU, sp: u16) -> CPU {
    set_regs(s, Registers { sp, ..s.registers })
}

pub open spec fn set_a(s: CPU, a: u8) -> CPU {
    set_regs(s, Registers { a, ..s.registers })
}

pub open spec fn set_flags(s: CPU, f: Flags) -> CPU {
    set_regs(s, Registers { f, ..s.registers })
}

pub open spec fn advance_pc(s: CPU, n: int) -> CPU {
    set_pc(s, wrap16(s.registers.pc + n))
}

/// The byte at PC.
pub open spec fn imm8(s: CPU, m: BusView) -> u8 {
    bus_read(m, s.registers.pc)
}

/// The little-endian word at PC.
pub open spec fn imm16(s: CPU, m: BusView) -> u16 {
    pair(bus_read(m, wrap16(s.registers.pc + 1)), bus_read(m, s.registers.pc))
}

pub open spec fn get8_spec(s: CPU, m: BusView, r: Reg8) -> u8 {
    let g = s.registers;
    match r {
        Reg8::B => g.b,
        Reg8::C => g.c,
        Reg8::D => g.d,
        Reg8::E => g.e,
        Reg8::H => g.h,
        Reg8::L => g.l,
        Reg8::MemHl => bus_read(m, hl(s)),
        Reg8::A => g.a,
    }
}

pub open spec fn set8_spec(s: CPU, m: BusView, r: Reg8, v: u8) -> (CPU, BusView) {
    let g = s.registers;
    match r {
        Reg8::B => (set_regs(s, Registers { b: v, ..g }), m),
        Reg8::C => (set_regs(s, Registers { c: v, ..g }), m),
        Reg8::D => (set_regs(s, Registers { d: v, ..g }), m),
        Reg8::E => (set_regs(s, Registers { e: v, ..g }), m),
        Reg8::H => (set_regs(s, Registers { h: v, ..g }), m),
        Reg8::L => (set_regs(s, Registers { l: v, ..g }), m),
        Reg8::MemHl => (s, bus_write(m, hl(s), v)),
        Reg8::A => (set_regs(s, Registers { a: v, ..g }), m),
    }
}

pub open spec fn get16_spec(s: CPU, r: Reg16) -> u16 {
    let g = s.registers;
    match r {
        Reg16::BC => g.spec_bc(),
        Reg16::DE => g.spec_de(),
        Reg16::HL => g.spec_hl(),
        Reg16::SP => g.sp,
    }
}

pub open spec fn set16_spec(s: CPU, r: Reg16, v: u16) -> CPU {
    let g = s.registers;
    match r {
        Reg16::BC => set_regs(s, Registers { b: hi8(v), c: lo8(v), ..g }),
        Reg16::DE => set_regs(s, Registers { d: hi8(v), e: lo8(v), ..g }),
        Reg16::HL => set_regs(s, Registers { h: hi8(v), l: lo8(v), ..g }),
        Reg16::SP => set_regs(s, Registers { sp: v, ..g }),
    }
}

pub open spec fn get16s_spec(s: CPU, r: Reg16Stack) -> u16 {
    let g = s.registers;
    match r {
        Reg16Stack::BC => g.spec_bc(),
        Reg16Stack::DE => g.spec_de(),
        Reg16Stack::HL => g.spec_hl(),
        Reg16Stack::AF => g.spec_af(),
    }
}

pub open spec fn set16s_spec(s: CPU, r: Reg16Stack, v: u16) -> CPU {
    let g = s.registers;
    match r {
        Reg16Stack::BC => set_regs(s, Registers { b: hi8(v), c: lo8(v), ..g }),
        Reg16Stack::DE => set_regs(s, Registers { d: hi8(v), e: lo8(v), ..g }),
        Reg16Stack::HL => set_regs(s, Registers { h: hi8(v), l: lo8(v), ..g }),
        Reg16Stack::AF => set_regs(s, Registers { a: hi8(v), f: flags_of_byte(lo8(v)), ..g }),
    }
}

pub open spec fn cond_holds(f: Flags, c: Cond) -> bool {
    match c {
        Cond::NZ => !f.z,
        Cond::Z => f.z,
        Cond::NC => !f.c,
        Cond::C => f.c,
        Cond::Always => true,
    }
}

/// PUSH of a word: high byte to SP-1, low byte to SP-2, SP down by two.
pub open spec fn push_spec(s: CPU, m: BusView, v: u16) -> (CPU, BusView) {
    let sp1 = wrap16(s.registers.sp + 0xFFFF);
    let sp2 = wrap16(s.registers.sp + 0xFFFE);
    let m1 = bus_write(m, sp1, hi8(v));
    (set_sp(s, sp2), bus_write(m1, sp2, lo8(v)))
}

/// POP of a word: low byte from SP, high byte from SP+1, SP up by two.
pub open spec fn pop_spec(s: CPU, m: BusView) -> (CPU, u16) {
    let sp = s.registers.sp;
    (set_sp(s, wrap16(sp + 2)), pair(bus_read(m, wrap16(sp + 1)), bus_read(m, sp)))
}

/// Result and flags of an accumulator operation on `a` and `x` with carry
/// `cin`; CP leaves A as it was.
pub open spec fn alu_result(op: AluOp, a: u8, x: u8, cin: bool) -> (u8, Flags) {
    let ci: int = if cin {
        1
    } else {
        0
    };
    match op {
        AluOp::Add => {
            let r = wrap8(a + x);
            (r, Flags { z: r == 0, n: false, h: half_carry8(a, x), c: carry8(a, x) })
        },
        AluOp::Adc => {
            let r = wrap8(a + x + ci);
            (r, Flags { z: r == 0, n: false, h: a % 16 + x % 16 + ci > 15, c: a + x + ci > 255 })
        },
        AluOp::Sub => {
            let r = wrap8(a + 256 - x);
            (r, Flags { z: r == 0, n: true, h: half_borrow8(a, x), c: borrow8(a, x) })
        },
        AluOp::Sbc => {
            let r = wrap8(a + 256 - x - ci);
            (r, Flags { z: r == 0, n: true, h: a % 16 < x % 16 + ci, c: a < x + ci })
        },
        AluOp::And => {
            let r = a & x;
            (r, Flags { z: r == 0, n: false, h: true, c: false })
        },
        AluOp::Xor => {
            let r = a ^ x;
            (r, Flags { z: r == 0, n: false, h: false, c: false })
        },
        AluOp::Or => {
            let r = a | x;
            (r, Flags { z: r == 0, n: false, h: false, c: false })
        },
        AluOp::Cp => {
            let r = wrap8(a + 256 - x);
            (a, Flags { z: r == 0, n: true, h: half_borrow8(a, x), c: borrow8(a, x) })
        },
    }
}

/// Result and carry-out of a rotate or shift of `v` with carry-in `cin`.
pub open spec fn shift_result(op: ShiftOp, v: u8, cin: bool) -> (u8, bool) {
    let ci: int = if cin {
        1
    } else {
        0
    };
    match op {
        ShiftOp::Rlc => (((v * 2) % 256 + v / 128) as u8, v >= 128),
        ShiftOp::Rrc => ((v / 2 + (v % 2) * 128) as u8, v % 2 == 1),
        ShiftOp::Rl => (((v * 2) % 256 + ci) as u8, v >= 128),
        ShiftOp::Rr => ((v / 2 + ci * 128) as u8, v % 2 == 1),
        ShiftOp::Sla => (((v * 2) % 256) as u8, v >= 128),
        ShiftOp::Sra => ((v / 2 + (v / 128) * 128) as u8, v % 2 == 1),
        ShiftOp::Swap => (((v % 16) * 16 + v / 16) as u8, false),
        ShiftOp::Srl => ((v / 2) as u8, v % 2 == 1),
    }
}

/// Decimal adjustment of A after a BCD addition or subtraction; the new A
/// and the new carry.
pub open spec fn daa_result(a: u8, f: Flags) -> (u8, bool) {
    if !f.n {
        let hi = f.c || a > 0x99;
        let lo = f.h || a % 16 > 9;
        let adj: int = (if hi { 0x60int } else { 0 }) + (if lo { 6int } else { 0 });
        (wrap8(a + adj), hi)
    } else {
        let adj: int = (if f.c { 0x60int } else { 0 }) + (if f.h { 6int } else { 0 });
        (wrap8(a + 256 - adj), f.c)
    }
}

/// The address an `LD (rr),A` or `LD A,(rr)` uses.
pub open spec fn indirect_address(s: CPU, i: Indirect) -> u16 {
    match i {
        Indirect::BC => s.registers.spec_bc(),
        Indirect::DE => s.registers.spec_de(),
        _ => hl(s),
    }
}

/// HL after an `LD (rr),A` or `LD A,(rr)`.
pub open spec fn after_indirect(s: CPU, i: Indirect) -> CPU {
    match i {
        Indirect::HLInc => set16_spec(s, Reg16::HL, wrap16(hl(s) + 1)),
        Indirect::HLDec => set16_spec(s, Reg16::HL, wrap16(hl(s) + 0xFFFF)),
        _ => s,
    }
}

pub open spec fn mem_cost(r: Reg8, reg: u8, mem: u8) -> u8 {
    if r == Reg8::MemHl {
        mem
    } else {
        reg
    }
}

pub open spec fn ld_spec(s: CPU, m: BusView, d: Reg8, r: Reg8) -> (CPU, BusView, u8) {
    let (s1, m1) = set8_spec(s, m, d, get8_spec(s, m, r));
    (s1, m1, if d == Reg8::MemHl || r == Reg8::MemHl { 8u8 } else { 4u8 })
}

pub open spec fn ld_imm_spec(s: CPU, m: BusView, d: Reg8) -> (CPU, BusView, u8) {
    let (s1, m1) = set8_spec(advance_pc(s, 1), m, d, imm8(s, m));
    (s1, m1, mem_cost(d, 8, 12))
}

pub open spec fn inc_spec(s: CPU, m: BusView, r: Reg8) -> (CPU, BusView, u8) {
    let v = get8_spec(s, m, r);
    let res = wrap8(v + 1);
    let (s1, m1) = set8_spec(s, m, r, res);
    (
        set_flags(s1, Flags { z: res == 0, n: false, h: half_carry8(v, 1), c: s.registers.f.c }),
        m1,
        mem_cost(r, 4, 12),
    )
}

pub open spec fn dec_spec(s: CPU, m: BusView, r: Reg8) -> (CPU, BusView, u8) {
    let v = get8_spec(s, m, r);
    let res = wrap8(v + 255);
    let (s1, m1) = set8_spec(s, m, r, res);
    (
        set_flags(s1, Flags { z: res == 0, n: true, h: half_borrow8(v, 1), c: s.registers.f.c }),
        m1,
        mem_cost(r, 4, 12),
    )
}

pub open spec fn alu_spec(s: CPU, m: BusView, op: AluOp, x: u8, cycles: u8) -> (CPU, BusView, u8) {
    let (r, f) = alu_result(op, s.registers.a, x, s.registers.f.c);
    (set_regs(s, Registers { a: r, f, ..s.registers }), m, cycles)
}

pub open spec fn add_hl_spec(s: CPU, r: Reg16) -> CPU {
    let h = hl(s);
    let x = get16_spec(s, r);
    let s1 = set16_spec(s, Reg16::HL, wrap16(h + x));
    set_flags(
        s1,
        Flags { z: s.registers.f.z, n: false, h: half_carry16(h, x), c: carry16(h, x) },
    )
}

pub open spec fn shift_spec(s: CPU, m: BusView, op: ShiftOp, r: Reg8) -> (CPU, BusView, u8) {
    let v = get8_spec(s, m, r);
    let (res, c) = shift_result(op, v, s.registers.f.c);
    let (s1, m1) = set8_spec(s, m, r, res);
    (set_flags(s1, Flags { z: res == 0, n: false, h: false, c }), m1, mem_cost(r, 8, 16))
}

pub open spec fn sp_offset_flags(s: CPU, off: u8) -> Flags {
    let lo = lo8(s.registers.sp);
    Flags { z: false, n: false, h: half_carry8(lo, off), c: carry8(lo, off) }
}

/// The effect of `i` on the CPU and the bus, with PC already past the opcode,
/// and the T-cycles it takes.
pub open spec fn exec_spec(s: CPU, m: BusView, i: Instr) -> (CPU, BusView, u8) {
    let g = s.registers;
    let f = g.f;
    match i {
        Instr::Nop => (s, m, 4),
        Instr::Stop => (advance_pc(s, 1), m, 4),
        Instr::Halt => (CPU { halted: true, ..s }, m, 4),
        Instr::Di => (CPU { ime: false, ..s }, m, 4),
        Instr::Ei => (CPU { ime: true, ..s }, m, 4),
        Instr::Illegal => (s, m, 4),
        Instr::Ld(d, r) => ld_spec(s, m, d, r),
        Instr::LdImm(d) => ld_imm_spec(s, m, d),
        Instr::Ld16Imm(r) => (set16_spec(advance_pc(s, 2), r, imm16(s, m)), m, 12),
        Instr::StoreA(i) => (
            after_indirect(s, i),
            bus_write(m, indirect_address(s, i), g.a),
            8,
        ),
        Instr::LoadA(i) => (after_indirect(set_a(s, bus_read(m, indirect_address(s, i))), i), m, 8),
        Instr::StoreSp => {
            let nn = imm16(s, m);
            let m1 = bus_write(m, nn, lo8(g.sp));
            (advance_pc(s, 2), bus_write(m1, wrap16(nn + 1), hi8(g.sp)), 20)
        },
        Instr::Inc16(r) => (set16_spec(s, r, wrap16(get16_spec(s, r) + 1)), m, 8),
        Instr::Dec16(r) => (set16_spec(s, r, wrap16(get16_spec(s, r) + 0xFFFF)), m, 8),
        Instr::AddHl(r) => (add_hl_spec(s, r), m, 8),
        Instr::Inc(r) => inc_spec(s, m, r),
        Instr::Dec(r) => dec_spec(s, m, r),
        Instr::RotA(op) => {
            let (res, c) = shift_result(op, g.a, f.c);
            (
                set_regs(s, Registers { a: res, f: Flags { z: false, n: false, h: false, c }, ..g }),
                m,
                4,
            )
        },
        Instr::Daa => {
            let (res, c) = daa_result(g.a, f);
            (set_regs(s, Registers { a: res, f: Flags { z: res == 0, n: f.n, h: false, c }, ..g }), m, 4)
        },
        Instr::Cpl => (
            set_regs(s, Registers { a: (255 - g.a) as u8, f: Flags { n: true, h: true, ..f }, ..g }),
            m,
            4,
        ),
        Instr::Scf => (set_flags(s, Flags { n: false, h: false, c: true, ..f }), m, 4),
        Instr::Ccf => (set_flags(s, Flags { n: false, h: false, c: !f.c, ..f }), m, 4),
        Instr::Jr(c) => {
            let s1 = advance_pc(s, 1);
            if cond_holds(f, c) {
                (set_pc(s1, wrap16(s1.registers.pc + sign_extend(imm8(s, m)))), m, 12)
            } else {
                (s1, m, 8)
            }
        },
        Instr::Alu(op, r) => alu_spec(s, m, op, get8_spec(s, m, r), mem_cost(r, 4, 8)),
        Instr::AluImm(op) => alu_spec(advance_pc(s, 1), m, op, imm8(s, m), 8),
        Instr::Ret(c) => if cond_holds(f, c) {
            let (s1, v) = pop_spec(s, m);
            (set_pc(s1, v), m, if c == Cond::Always { 16u8 } else { 20u8 })
        } else {
            (s, m, 8)
        },
        Instr::Reti => {
            let (s1, v) = pop_spec(s, m);
            (CPU { ime: true, ..set_pc(s1, v) }, m, 16)
        },
        Instr::Pop(r) => {
            let (s1, v) = pop_spec(s, m);
            (set16s_spec(s1, r, v), m, 12)
        },
        Instr::Push(r) => {
            let (s1, m1) = push_spec(s, m, get16s_spec(s, r));
            (s1, m1, 16)
        },
        Instr::Jp(c) => {
            let s1 = advance_pc(s, 2);
            if cond_holds(f, c) {
                (set_pc(s1, imm16(s, m)), m, 16)
            } else {
                (s1, m, 12)
            }
        },
        Instr::JpHl => (set_pc(s, hl(s)), m, 4),
        Instr::Call(c) => {
            let s1 = advance_pc(s, 2);
            if cond_holds(f, c) {
                let (s2, m2) = push_spec(s1, m, s1.registers.pc);
                (set_pc(s2, imm16(s, m)), m2, 24)
            } else {
                (s1, m, 12)
            }
        },
        Instr::Rst(n) => {
            let (s1, m1) = push_spec(s, m, g.pc);
            (set_pc(s1, (8 * n) as u16), m1, 16)
        },
        Instr::LdhStore => (advance_pc(s, 1), bus_write(m, (0xFF00 + imm8(s, m)) as u16, g.a), 12),
        Instr::LdhLoad => (set_a(advance_pc(s, 1), bus_read(m, (0xFF00 + imm8(s, m)) as u16)), m, 12),
        Instr::LdcStore => (s, bus_write(m, (0xFF00 + g.c) as u16, g.a), 8),
        Instr::LdcLoad => (set_a(s, bus_read(m, (0xFF00 + g.c) as u16)), m, 8),
        Instr::StoreAbs => (advance_pc(s, 2), bus_write(m, imm16(s, m), g.a), 16),
        Instr::LoadAbs => (set_a(advance_pc(s, 2), bus_read(m, imm16(s, m))), m, 16),
        Instr::AddSp => {
            let off = imm8(s, m);
            (
                set_regs(
                    advance_pc(s, 1),
                    Registers {
                        sp: wrap16(g.sp + sign_extend(off)),
                        f: sp_offset_flags(s, off),
                        pc: wrap16(g.pc + 1),
                        ..g
                    },
                ),
                m,
                16,
            )
        },
        Instr::LdHlSp => {
            let off = imm8(s, m);
            let v = wrap16(g.sp + sign_extend(off));
            (
                set_regs(
                    s,
                    Registers {
                        h: hi8(v),
                        l: lo8(v),
                        f: sp_offset_flags(s, off),
                        pc: wrap16(g.pc + 1),
                        ..g
                    },
                ),
                m,
                12,
            )
        },
        Instr::LdSpHl => (set_sp(s, hl(s)), m, 8),
        Instr::Prefix => exec_cb_spec(advance_pc(s, 1), m, decode_cb(imm8(s, m))),
        _ => exec_cb_spec(s, m, i),
    }
}

/// The effect of a CB-table instruction.
pub open spec fn exec_cb_spec(s: CPU, m: BusView, i: Instr) -> (CPU, BusView, u8) {
    let f = s.registers.f;
    match i {
        Instr::Shift(op, r) => shift_spec(s, m, op, r),
        Instr::Bit(n, r) => (
            set_flags(s, Flags { z: !bit_of(get8_spec(s, m, r), n as nat), n: false, h: true, c: f.c }),
            m,
            mem_cost(r, 8, 12),
        ),
        Instr::Res(n, r) => {
            let v = get8_spec(s, m, r);
            let res = v & !(pow2(n as nat) as u8);
            let (s1, m1) = set8_spec(s, m, r, res);
            (s1, m1, mem_cost(r, 8, 16))
        },
        Instr::SetBit(n, r) => {
            let v = get8_spec(s, m, r);
            let res = v | (pow2(n as nat) as u8);
            let (s1, m1) = set8_spec(s, m, r, res);
            (s1, m1, mem_cost(r, 8, 16))
        },
        _ => (s, m, 4),
    }
}

} // verus!
