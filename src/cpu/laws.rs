//! Properties of the instruction semantics that span several instructions
//! or every input.
use vstd::prelude::*;

use super::semantics::{
    advance_pc, decode, exec_spec, get16s_spec, get8_spec, hl, imm16, pop_spec, push_spec,
    set16s_spec, AluOp, Indirect, Instr, Reg16, Reg16Stack, Reg8,
};
use super::{flags_byte, flags_of_byte, hi8, lo8, pair, tick_spec, Flags, CPU};
use crate::arithmetic::{pow2, wrap16};
use crate::bus::{
    bus_read, bus_write, is_plain_ram, lemma_ram_read_after_write, lemma_ram_write_other,
    lemma_write_wf, ram_cell, BusView,
};
use crate::interruption::spec_pending;
use vstd::arithmetic::div_mod::{lemma_mod_add_multiples_vanish, lemma_small_mod};

verus! {

/// For every operand `r` with value v, `ADD A,r` sets Z when (A+v) mod 256
/// is zero, clears N, sets H when (A&0xF)+(v&0xF) exceeds 0xF, and sets C
/// when A+v exceeds 0xFF.
pub proof fn lemma_add_flags(s: CPU, m: BusView, r: Reg8)
    ensures
        ({
            let a = s.registers.a;
            let v = get8_spec(s, m, r);
            let f = exec_spec(s, m, Instr::Alu(AluOp::Add, r)).0.registers.f;
            &&& f.z == ((a + v) % 256 == 0)
            &&& !f.n
            &&& f.h == ((a & 0xF) + (v & 0xF) > 0xF)
            &&& f.c == (a + v > 0xFF)
        }),
{
    let a = s.registers.a;
    let v = get8_spec(s, m, r);
    assert(a & 0xF == a % 16 && v & 0xF == v % 16) by (bit_vector);
}

proof fn lemma_pair(v: u16)
    ensures
        pair(hi8(v), lo8(v)) == v,
{
}

proof fn lemma_flag_bits(z: bool, n: bool, h: bool, c: bool)
    by (bit_vector)
    ensures
        ({
            let b = ((if z { 128u8 } else { 0u8 }) + (if n { 64u8 } else { 0u8 }) + (if h { 32u8 } else {
                0u8
            }) + (if c { 16u8 } else { 0u8 }));
            &&& ((b / 128) % 2 == 1) == z
            &&& ((b / 64) % 2 == 1) == n
            &&& ((b / 32) % 2 == 1) == h
            &&& ((b / 16) % 2 == 1) == c
            &&& b % 16 == 0
        }),
{
}

proof fn lemma_flags_round_trip(f: Flags)
    ensures
        flags_of_byte(flags_byte(f)) == f,
        flags_byte(f) % 16 == 0,
{
    reveal_with_fuel(pow2, 8);
    lemma_flag_bits(f.z, f.n, f.h, f.c);
}

proof fn lemma_byte_round_trip(b: u8)
    requires
        b % 16 == 0,
    ensures
        flags_byte(flags_of_byte(b)) == b,
{
    reveal_with_fuel(pow2, 8);
    assert(((if (b / 128) % 2 == 1 { 128u8 } else { 0u8 }) + (if (b / 64) % 2 == 1 { 64u8 } else { 0u8 })
        + (if (b / 32) % 2 == 1 { 32u8 } else { 0u8 }) + (if (b / 16) % 2 == 1 { 16u8 } else { 0u8 }))
        == b) by (bit_vector)
        requires
            b % 16 == 0,
    ;
}

proof fn lemma_push_then_pop(s: CPU, m: BusView, v: u16)
    requires
        m.wf(),
        0xFF82 <= s.registers.sp <= 0xFFFF,
    ensures
        ({
            let (s1, m1) = push_spec(s, m, v);
            let (s2, w) = pop_spec(s1, m1);
            &&& w == v
            &&& s2 == s
        }),
{
    let sp = s.registers.sp;
    let sp1 = (sp - 1) as u16;
    let sp2 = (sp - 2) as u16;
    assert(wrap16(sp + 0xFFFF) == sp1);
    assert(wrap16(sp + 0xFFFE) == sp2);
    assert(wrap16(sp2 + 1) == sp1);
    assert(wrap16(sp2 + 2) == sp);
    let m1 = bus_write(m, sp1, hi8(v));
    lemma_write_wf(m, sp1, hi8(v));
    lemma_ram_read_after_write(m1, sp2, lo8(v));
    lemma_ram_write_other(m1, sp2, sp1, lo8(v));
    lemma_ram_read_after_write(m, sp1, hi8(v));
    lemma_pair(v);
}

/// PUSH of a pair followed by POP into a pair gives the second pair the
/// first one's value and leaves SP where it was, when both bytes land in
/// high RAM. POP AF keeps only the high nibble of F, so when the target is
/// AF the pushed low byte must have a zero low nibble.
pub proof fn lemma_push_pop(s: CPU, m: BusView, rr: Reg16Stack, rr2: Reg16Stack)
    requires
        m.wf(),
        0xFF82 <= s.registers.sp <= 0xFFFF,
        rr2 == Reg16Stack::AF ==> lo8(get16s_spec(s, rr)) % 16 == 0,
    ensures
        ({
            let (s1, m1, _) = exec_spec(s, m, Instr::Push(rr));
            let (s2, m2, _) = exec_spec(s1, m1, Instr::Pop(rr2));
            &&& get16s_spec(s2, rr2) == get16s_spec(s, rr)
            &&& s2.registers.sp == s.registers.sp
        }),
{
    let v = get16s_spec(s, rr);
    lemma_push_then_pop(s, m, v);
    let (s1, m1) = push_spec(s, m, v);
    let (s2, w) = pop_spec(s1, m1);
    assert(exec_spec(s, m, Instr::Push(rr)) == (s1, m1, 16u8));
    assert(exec_spec(s1, m1, Instr::Pop(rr2)) == (set16s_spec(s2, rr2, w), m1, 12u8));
    lemma_pair(v);
    if rr2 == Reg16Stack::AF {
        lemma_byte_round_trip(lo8(v));
    }
    if rr == Reg16Stack::AF {
        lemma_flags_round_trip(s.registers.f);
    }
}

proof fn lemma_ld_hl_imm(s: CPU, m: BusView)
    ensures
        exec_spec(s, m, Instr::Ld16Imm(Reg16::HL)).1 == m,
        hl(exec_spec(s, m, Instr::Ld16Imm(Reg16::HL)).0) == imm16(s, m),
        exec_spec(s, m, Instr::Ld16Imm(Reg16::HL)).0.registers.a == s.registers.a,
{
    lemma_pair(imm16(s, m));
}

proof fn lemma_store_hl_inc(s: CPU, m: BusView)
    requires
        hl(s) < 0xFFFF,
    ensures
        exec_spec(s, m, Instr::StoreA(Indirect::HLInc)).1 == bus_write(m, hl(s), s.registers.a),
        hl(exec_spec(s, m, Instr::StoreA(Indirect::HLInc)).0) == hl(s) + 1,
        exec_spec(s, m, Instr::StoreA(Indirect::HLInc)).0.registers.a == s.registers.a,
{
    let v = hl(s);
    lemma_small_mod((v + 1) as nat, 65536);
    let w = wrap16(v + 1);
    assert(w == v + 1);
    lemma_pair(w);
}

proof fn lemma_load_hl_dec(s: CPU, m: BusView)
    requires
        hl(s) > 0,
    ensures
        exec_spec(s, m, Instr::LoadA(Indirect::HLDec)).1 == m,
        hl(exec_spec(s, m, Instr::LoadA(Indirect::HLDec)).0) == hl(s) - 1,
        exec_spec(s, m, Instr::LoadA(Indirect::HLDec)).0.registers.a == bus_read(m, hl(s)),
{
    let v = hl(s);
    lemma_mod_add_multiples_vanish((v - 1) as int, 65536);
    lemma_small_mod((v - 1) as nat, 65536);
    let w = wrap16(v + 0xFFFF);
    assert(w == v - 1);
    lemma_pair(w);
}

/// After `LD HL,nn`, `LD (HL+),A` and `LD A,(HL-)`, HL is back at nn, the
/// byte at nn holds the old A, and A holds the byte at nn+1. So A comes back
/// unchanged exactly when nn+1 already held A, which this law assumes;
/// nn and nn+1 are work or high RAM.
pub proof fn lemma_hl_round_trip(s: CPU, m: BusView)
    requires
        m.wf(),
        is_plain_ram(imm16(s, m) as int),
        is_plain_ram(imm16(s, m) + 1),
        ram_cell(imm16(s, m) as int) != ram_cell(imm16(s, m) + 1),
        bus_read(m, (imm16(s, m) + 1) as u16) == s.registers.a,
    ensures
        ({
            let nn = imm16(s, m);
            let (s1, m1, _) = exec_spec(s, m, Instr::Ld16Imm(Reg16::HL));
            let (s2, m2, _) = exec_spec(s1, m1, Instr::StoreA(Indirect::HLInc));
            let (s3, m3, _) = exec_spec(s2, m2, Instr::LoadA(Indirect::HLDec));
            &&& hl(s3) == nn
            &&& s3.registers.a == s.registers.a
            &&& bus_read(m3, nn) == s.registers.a
        }),
{
    let nn = imm16(s, m);
    let a = s.registers.a;
    let s1 = exec_spec(s, m, Instr::Ld16Imm(Reg16::HL)).0;
    lemma_ld_hl_imm(s, m);
    let t2 = exec_spec(s1, m, Instr::StoreA(Indirect::HLInc));
    lemma_store_hl_inc(s1, m);
    lemma_load_hl_dec(t2.0, t2.1);
    lemma_ram_write_other(m, nn, (nn + 1) as u16, a);
    lemma_ram_read_after_write(m, nn, a);
}

/// DI clears IME and EI sets it.
pub proof fn lemma_di_ei(s: CPU, m: BusView)
    ensures
        !exec_spec(s, m, Instr::Di).0.ime,
        exec_spec(s, m, Instr::Ei).0.ime,
{
}

/// No instruction but EI and RETI turns IME on.
pub proof fn lemma_ime_stays_off(s: CPU, m: BusView, i: Instr)
    requires
        !s.ime,
        i != Instr::Ei,
        i != Instr::Reti,
    ensures
        !exec_spec(s, m, i).0.ime,
{
}

/// With IME off, a step services no interrupt: it idles while halted or runs
/// the instruction at PC, and IME is still off afterwards unless that
/// instruction was EI or RETI.
pub proof fn lemma_no_service_without_ime(s: CPU, m: BusView)
    requires
        !s.ime,
    ensures
        ({
            let op = bus_read(m, s.registers.pc);
            let s1 = if spec_pending(m.int).is_some() {
                CPU { halted: false, ..s }
            } else {
                s
            };
            let t = tick_spec(s, m);
            &&& s1.halted ==> t == (s1, m, 4u8)
            &&& !s1.halted ==> t == exec_spec(advance_pc(s1, 1), m, decode(op))
            &&& (decode(op) != Instr::Ei && decode(op) != Instr::Reti) ==> !t.0.ime
        }),
{
    let op = bus_read(m, s.registers.pc);
    let s1 = if spec_pending(m.int).is_some() {
        CPU { halted: false, ..s }
    } else {
        s
    };
    if !s1.halted && decode(op) != Instr::Ei && decode(op) != Instr::Reti {
        lemma_ime_stays_off(advance_pc(s1, 1), m, decode(op));
    }
}

/// With IME on and an interrupt both requested and enabled, the next step
/// services the highest-priority one: PC goes to its vector, IME goes off,
/// and the step takes 20 T-cycles.
pub proof fn lemma_service_with_ime(s: CPU, m: BusView)
    requires
        s.ime,
        spec_pending(m.int).is_some(),
    ensures
        ({
            let t = tick_spec(s, m);
            &&& t.0.registers.pc == 0x40 + 8 * spec_pending(m.int).unwrap().spec_bit()
            &&& !t.0.ime
            &&& t.2 == 20
        }),
{
}

} // verus!
