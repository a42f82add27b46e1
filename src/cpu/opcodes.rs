//! The main opcode table.
use vstd::prelude::*;

use super::semantics::{decode, exec_spec, AluOp, Cond, Indirect, Reg16, Reg16Stack, Reg8, ShiftOp};
use super::CPU;
use crate::bus::Bus;

verus! {

impl CPU {
    /// Runs the instruction of opcode `opcode` of this table, with PC
    /// already past the opcode.
    pub fn execute(&mut self, bus: &mut Bus, opcode: u8) -> (cycles: u8)
        requires
            old(bus)@.wf(),
        ensures
            final(bus)@.wf(),
            (*final(self), final(bus)@, cycles) == exec_spec(*old(self), old(bus)@, decode(opcode)),
    {
        match opcode {
            0x00 => self.nop_0x00(bus),
            0x01 => self.ld_bc_d16_0x01(bus),
            0x02 => self.ld_bc_a_0x02(bus),
            0x03 => self.inc_bc_0x03(bus),
            0x04 => self.inc_b_0x04(bus),
            0x05 => self.dec_b_0x05(bus),
            0x06 => self.ld_b_d8_0x06(bus),
            0x07 => self.rlca_0x07(bus),
            0x08 => self.ld_a16_sp_0x08(bus),
            0x09 => self.add_hl_bc_0x09(bus),
            0x0A => self.ld_a_bc_0x0a(bus),
            0x0B => self.dec_bc_0x0b(bus),
            0x0C => self.inc_c_0x0c(bus),
            0x0D => self.dec_c_0x0d(bus),
            0x0E => self.ld_c_d8_0x0e(bus),
            0x0F => self.rrca_0x0f(bus),
            0x10 => self.stop_d8_0x10(bus),
            0x11 => self.ld_de_d16_0x11(bus),
            0x12 => self.ld_de_a_0x12(bus),
            0x13 => self.inc_de_0x13(bus),
            0x14 => self.inc_d_0x14(bus),
            0x15 => self.dec_d_0x15(bus),
            0x16 => self.ld_d_d8_0x16(bus),
            0x17 => self.rla_0x17(bus),
            0x18 => self.jr_r8_0x18(bus),
            0x19 => self.add_hl_de_0x19(bus),
            0x1A => self.ld_a_de_0x1a(bus),
            0x1B => self.dec_de_0x1b(bus),
            0x1C => self.inc_e_0x1c(bus),
            0x1D => self.dec_e_0x1d(bus),
            0x1E => self.ld_e_d8_0x1e(bus),
            0x1F => self.rra_0x1f(bus),
            0x20 => self.jr_nz_r8_0x20(bus),
            0x21 => self.ld_hl_d16_0x21(bus),
            0x22 => self.ld_hl_a_0x22(bus),
            0x23 => self.inc_hl_0x23(bus),
            0x24 => self.inc_h_0x24(bus),
            0x25 => self.dec_h_0x25(bus),
            0x26 => self.ld_h_d8_0x26(bus),
            0x27 => self.daa_0x27(bus),
            0x28 => self.jr_z_r8_0x28(bus),
            0x29 => self.add_hl_hl_0x29(bus),
            0x2A => self.ld_a_hl_0x2a(bus),
            0x2B => self.dec_hl_0x2b(bus),
            0x2C => self.inc_l_0x2c(bus),
            0x2D => self.dec_l_0x2d(bus),
            0x2E => self.ld_l_d8_0x2e(bus),
            0x2F => self.cpl_0x2f(bus),
            0x30 => self.jr_nc_r8_0x30(bus),
            0x31 => self.ld_sp_d16_0x31(bus),
            0x32 => self.ld_hl_a_0x32(bus),
            0x33 => self.inc_sp_0x33(bus),
            0x34 => self.inc_hl_0x34(bus),
            0x35 => self.dec_hl_0x35(bus),
            0x36 => self.ld_hl_d8_0x36(bus),
            0x37 => self.scf_0x37(bus),
            0x38 => self.jr_c_r8_0x38(bus),
            0x39 => self.add_hl_sp_0x39(bus),
            0x3A => self.ld_a_hl_0x3a(bus),
            0x3B => self.dec_sp_0x3b(bus),
            0x3C => self.inc_a_0x3c(bus),
            0x3D => self.dec_a_0x3d(bus),
            0x3E => self.ld_a_d8_0x3e(bus),
            0x3F => self.ccf_0x3f(bus),
            0x40 => self.ld_b_b_0x40(bus),
            0x41 => self.ld_b_c_0x41(bus),
            0x42 => self.ld_b_d_0x42(bus),
            0x43 => self.ld_b_e_0x43(bus),
            0x44 => self.ld_b_h_0x44(bus),
            0x45 => self.ld_b_l_0x45(bus),
            0x46 => self.ld_b_hl_0x46(bus),
            0x47 => self.ld_b_a_0x47(bus),
            0x48 => self.ld_c_b_0x48(bus),
            0x49 => self.ld_c_c_0x49(bus),
            0x4A => self.ld_c_d_0x4a(bus),
            0x4B => self.ld_c_e_0x4b(bus),
            0x4C => self.ld_c_h_0x4c(bus),
            0x4D => self.ld_c_l_0x4d(bus),
            0x4E => self.ld_c_hl_0x4e(bus),
            0x4F => self.ld_c_a_0x4f(bus),
            0x50 => self.ld_d_b_0x50(bus),
            0x51 => self.ld_d_c_0x51(bus),
            0x52 => self.ld_d_d_0x52(bus),
            0x53 => self.ld_d_e_0x53(bus),
            0x54 => self.ld_d_h_0x54(bus),
            0x55 => self.ld_d_l_0x55(bus),
            0x56 => self.ld_d_hl_0x56(bus),
            0x57 => self.ld_d_a_0x57(bus),
            0x58 => self.ld_e_b_0x58(bus),
            0x59 => self.ld_e_c_0x59(bus),
            0x5A => self.ld_e_d_0x5a(bus),
            0x5B => self.ld_e_e_0x5b(bus),
            0x5C => self.ld_e_h_0x5c(bus),
            0x5D => self.ld_e_l_0x5d(bus),
            0x5E => self.ld_e_hl_0x5e(bus),
            0x5F => self.ld_e_a_0x5f(bus),
            0x60 => self.ld_h_b_0x60(bus),
            0x61 => self.ld_h_c_0x61(bus),
            0x62 => self.ld_h_d_0x62(bus),
            0x63 => self.ld_h_e_0x63(bus),
            0x64 => self.ld_h_h_0x64(bus),
            0x65 => self.ld_h_l_0x65(bus),
            0x66 => self.ld_h_hl_0x66(bus),
            0x67 => self.ld_h_a_0x67(bus),
            0x68 => self.ld_l_b_0x68(bus),
            0x69 => self.ld_l_c_0x69(bus),
            0x6A => self.ld_l_d_0x6a(bus),
            0x6B => self.ld_l_e_0x6b(bus),
            0x6C => self.ld_l_h_0x6c(bus),
            0x6D => self.ld_l_l_0x6d(bus),
            0x6E => self.ld_l_hl_0x6e(bus),
            0x6F => self.ld_l_a_0x6f(bus),
            0x70 => self.ld_hl_b_0x70(bus),
            0x71 => self.ld_hl_c_0x71(bus),
            0x72 => self.ld_hl_d_0x72(bus),
            0x73 => self.ld_hl_e_0x73(bus),
            0x74 => self.ld_hl_h_0x74(bus),
            0x75 => self.ld_hl_l_0x75(bus),
            0x76 => self.halt_0x76(bus),
            0x77 => self.ld_hl_a_0x77(bus),
            0x78 => self.ld_a_b_0x78(bus),
            0x79 => self.ld_a_c_0x79(bus),
            0x7A => self.ld_a_d_0x7a(bus),
            0x7B => self.ld_a_e_0x7b(bus),
            0x7C => self.ld_a_h_0x7c(bus),
            0x7D => self.ld_a_l_0x7d(bus),
            0x7E => self.ld_a_hl_0x7e(bus),
            0x7F => self.ld_a_a_0x7f(bus),
            0x80 => self.add_a_b_0x80(bus),
            0x81 => self.add_a_c_0x81(bus),
            0x82 => self.add_a_d_0x82(bus),
            0x83 => self.add_a_e_0x83(bus),
            0x84 => self.add_a_h_0x84(bus),
            0x85 => self.add_a_l_0x85(bus),
            0x86 => self.add_a_hl_0x86(bus),
            0x87 => self.add_a_a_0x87(bus),
            0x88 => self.adc_a_b_0x88(bus),
            0x89 => self.adc_a_c_0x89(bus),
            0x8A => self.adc_a_d_0x8a(bus),
            0x8B => self.adc_a_e_0x8b(bus),
            0x8C => self.adc_a_h_0x8c(bus),
            0x8D => self.adc_a_l_0x8d(bus),
            0x8E => self.adc_a_hl_0x8e(bus),
            0x8F => self.adc_a_a_0x8f(bus),
            0x90 => self.sub_b_0x90(bus),
            0x91 => self.sub_c_0x91(bus),
            0x92 => self.sub_d_0x92(bus),
            0x93 => self.sub_e_0x93(bus),
            0x94 => self.sub_h_0x94(bus),
            0x95 => self.sub_l_0x95(bus),
            0x96 => self.sub_hl_0x96(bus),
            0x97 => self.sub_a_0x97(bus),
            0x98 => self.sbc_a_b_0x98(bus),
            0x99 => self.sbc_a_c_0x99(bus),
            0x9A => self.sbc_a_d_0x9a(bus),
            0x9B => self.sbc_a_e_0x9b(bus),
            0x9C => self.sbc_a_h_0x9c(bus),
            0x9D => self.sbc_a_l_0x9d(bus),
            0x9E => self.sbc_a_hl_0x9e(bus),
            0x9F => self.sbc_a_a_0x9f(bus),
            0xA0 => self.and_b_0xa0(bus),
            0xA1 => self.and_c_0xa1(bus),
            0xA2 => self.and_d_0xa2(bus),
            0xA3 => self.and_e_0xa3(bus),
            0xA4 => self.and_h_0xa4(bus),
            0xA5 => self.and_l_0xa5(bus),
            0xA6 => self.and_hl_0xa6(bus),
            0xA7 => self.and_a_0xa7(bus),
            0xA8 => self.xor_b_0xa8(bus),
            0xA9 => self.xor_c_0xa9(bus),
            0xAA => self.xor_d_0xaa(bus),
            0xAB => self.xor_e_0xab(bus),
            0xAC => self.xor_h_0xac(bus),
            0xAD => self.xor_l_0xad(bus),
            0xAE => self.xor_hl_0xae(bus),
            0xAF => self.xor_a_0xaf(bus),
            0xB0 => self.or_b_0xb0(bus),
            0xB1 => self.or_c_0xb1(bus),
            0xB2 => self.or_d_0xb2(bus),
            0xB3 => self.or_e_0xb3(bus),
            0xB4 => self.or_h_0xb4(bus),
            0xB5 => self.or_l_0xb5(bus),
            0xB6 => self.or_hl_0xb6(bus),
            0xB7 => self.or_a_0xb7(bus),
            0xB8 => self.cp_b_0xb8(bus),
            0xB9 => self.cp_c_0xb9(bus),
            0xBA => self.cp_d_0xba(bus),
            0xBB => self.cp_e_0xbb(bus),
            0xBC => self.cp_h_0xbc(bus),
            0xBD => self.cp_l_0xbd(bus),
            0xBE => self.cp_hl_0xbe(bus),
            0xBF => self.cp_a_0xbf(bus),
            0xC0 => self.ret_nz_0xc0(bus),
            0xC1 => self.pop_bc_0xc1(bus),
            0xC2 => self.jp_nz_a16_0xc2(bus),
            0xC3 => self.jp_a16_0xc3(bus),
            0xC4 => self.call_nz_a16_0xc4(bus),
            0xC5 => self.push_bc_0xc5(bus),
            0xC6 => self.add_a_d8_0xc6(bus),
            0xC7 => self.rst_00h_0xc7(bus),
            0xC8 => self.ret_z_0xc8(bus),
            0xC9 => self.ret_0xc9(bus),
            0xCA => self.jp_z_a16_0xca(bus),
            0xCB => self.prefix_0xcb(bus),
            0xCC => self.call_z_a16_0xcc(bus),
            0xCD => self.call_a16_0xcd(bus),
            0xCE => self.adc_a_d8_0xce(bus),
            0xCF => self.rst_08h_0xcf(bus),
            0xD0 => self.ret_nc_0xd0(bus),
            0xD1 => self.pop_de_0xd1(bus),
            0xD2 => self.jp_nc_a16_0xd2(bus),
            0xD3 => self.illegal_d3_0xd3(bus),
            0xD4 => self.call_nc_a16_0xd4(bus),
            0xD5 => self.push_de_0xd5(bus),
            0xD6 => self.sub_d8_0xd6(bus),
            0xD7 => self.rst_10h_0xd7(bus),
            0xD8 => self.ret_c_0xd8(bus),
            0xD9 => self.reti_0xd9(bus),
            0xDA => self.jp_c_a16_0xda(bus),
            0xDB => self.illegal_db_0xdb(bus),
            0xDC => self.call_c_a16_0xdc(bus),
            0xDD => self.illegal_dd_0xdd(bus),
            0xDE => self.sbc_a_d8_0xde(bus),
            0xDF => self.rst_18h_0xdf(bus),
            0xE0 => self.ldh_a8_a_0xe0(bus),
            0xE1 => self.pop_hl_0xe1(bus),
            0xE2 => self.ld_c_a_0xe2(bus),
            0xE3 => self.illegal_e3_0xe3(bus),
            0xE4 => self.illegal_e4_0xe4(bus),
            0xE5 => self.push_hl_0xe5(bus),
            0xE6 => self.and_d8_0xe6(bus),
            0xE7 => self.rst_20h_0xe7(bus),
            0xE8 => self.add_sp_r8_0xe8(bus),
            0xE9 => self.jp_hl_0xe9(bus),
            0xEA => self.ld_a16_a_0xea(bus),
            0xEB => self.illegal_eb_0xeb(bus),
            0xEC => self.illegal_ec_0xec(bus),
            0xED => self.illegal_ed_0xed(bus),
            0xEE => self.xor_d8_0xee(bus),
            0xEF => self.rst_28h_0xef(bus),
            0xF0 => self.ldh_a_a8_0xf0(bus),
            0xF1 => self.pop_af_0xf1(bus),
            0xF2 => self.ld_a_c_0xf2(bus),
            0xF3 => self.di_0xf3(bus),
            0xF4 => self.illegal_f4_0xf4(bus),
            0xF5 => self.push_af_0xf5(bus),
            0xF6 => self.or_d8_0xf6(bus),
            0xF7 => self.rst_30h_0xf7(bus),
            0xF8 => self.ld_hl_sp_r8_0xf8(bus),
            0xF9 => self.ld_sp_hl_0xf9(bus),
            0xFA => self.ld_a_a16_0xfa(bus),
            0xFB => self.ei_0xfb(bus),
            0xFC => self.illegal_fc_0xfc(bus),
            0xFD => self.illegal_fd_0xfd(bus),
            0xFE => self.cp_d8_0xfe(bus),
            0xFF => self.rst_38h_0xff(bus),
        }
    }

    /// NOP
    pub(crate) fn nop_0x00(&mut self, bus: &mut Bus) -> (cycles: u8)
        requires
            old(bus)@.wf(),
        ensures
            final(bus)@.wf(),
            (*final(self), final(bus)@, cycles) == exec_spec(*old(self), old(bus)@, decode(0x00)),
    {
        self.i_nop(bus)
    }

    /// LD BC, d16
    pub(crate) fn ld_bc_d16_0x01(&mut self, bus: &mut Bus) -> (cycles: u8)
        requires
            old(bus)@.wf(),
        ensures
            final(bus)@.wf(),
            (*final(self), final(bus)@, cycles) == exec_spec(*old(self), old(bus)@, decode(0x01)),
    {
        self.i_ld16_imm(bus, Reg16::BC)
    }

    /// LD (BC), A
    pub(crate) fn ld_bc_a_0x02(&mut self, bus: &mut Bus) -> (cycles: u8)
        requires
            old(bus)@.wf(),
        ensures
            final(bus)@.wf(),
            (*final(self), final(bus)@, cycles) == exec_spec(*old(self), old(bus)@, decode(0x02)),
    {
        self.i_store_a(bus, Indirect::BC)
    }

    /// INC BC
    pub(crate) fn inc_bc_0x03(&mut self, bus: &mut Bus) -> (cycles: u8)
        requires
            old(bus)@.wf(),
        ensures
            final(bus)@.wf(),
            (*final(self), final(bus)@, cycles) == exec_spec(*old(self), old(bus)@, decode(0x03)),
    {
        self.i_inc16(bus, Reg16::BC)
    }

    /// INC B
    pub(crate) fn inc_b_0x04(&mut self, bus: &mut Bus) -> (cycles: u8)
        requires
            old(bus)@.wf(),
        ensures
            final(bus)@.wf(),
            (*final(self), final(bus)@, cycles) == exec_spec(*old(self), old(bus)@, decode(0x04)),
    {
        self.i_inc(bus, Reg8::B)
    }

    /// DEC B
    pub(crate) fn dec_b_0x05(&mut self, bus: &mut Bus) -> (cycles: u8)
        requires
            old(bus)@.wf(),
        ensures
            final(bus)@.wf(),
            (*final(self), final(bus)@, cycles) == exec_spec(*old(self), old(bus)@, decode(0x05)),
    {
        self.i_dec(bus, Reg8::B)
    }

    /// LD B, d8
    pub(crate) fn ld_b_d8_0x06(&mut self, bus: &mut Bus) -> (cycles: u8)
        requires
            old(bus)@.wf(),
        ensures
            final(bus)@.wf(),
            (*final(self), final(bus)@, cycles) == exec_spec(*old(self), old(bus)@, decode(0x06)),
    {
        self.i_ld_imm(bus, Reg8::B)
    }

    /// RLCA
    pub(crate) fn rlca_0x07(&mut self, bus: &mut Bus) -> (cycles: u8)
        requires
            old(bus)@.wf(),
        ensures
            final(bus)@.wf(),
            (*final(self), final(bus)@, cycles) == exec_spec(*old(self), old(bus)@, decode(0x07)),
    {
        self.i_rot_a(bus, ShiftOp::Rlc)
    }

    /// LD (a16), SP
    pub(crate) fn ld_a16_sp_0x08(&mut self, bus: &mut Bus) -> (cycles: u8)
        requires
            old(bus)@.wf(),
        ensures
            final(bus)@.wf(),
            (*final(self), final(bus)@, cycles) == exec_spec(*old(self), old(bus)@, decode(0x08)),
    {
        self.i_store_sp(bus)
    }

    /// ADD HL, BC
    pub(crate) fn add_hl_bc_0x09(&mut self, bus: &mut Bus) -> (cycles: u8)
        requires
            old(bus)@.wf(),
        ensures
            final(bus)@.wf(),
            (*final(self), final(bus)@, cycles) == exec_spec(*old(self), old(bus)@, decode(0x09)),
    {
        self.i_add_hl(bus, Reg16::BC)
    }

    /// LD A, (BC)
    pub(crate) fn ld_a_bc_0x0a(&mut self, bus: &mut Bus) -> (cycles: u8)
        requires
            old(bus)@.wf(),
        ensures
            final(bus)@.wf(),
            (*final(self), final(bus)@, cycles) == exec_spec(*old(self), old(bus)@, decode(0x0A)),
    {
        self.i_load_a(bus, Indirect::BC)
    }

    /// DEC BC
    pub(crate) fn dec_bc_0x0b(&mut self, bus: &mut Bus) -> (cycles: u8)
        requires
            old(bus)@.wf(),
        ensures
            final(bus)@.wf(),
            (*final(self), final(bus)@, cycles) == exec_spec(*old(self), old(bus)@, decode(0x0B)),
    {
        self.i_dec16(bus, Reg16::BC)
    }

    /// INC C
    pub(crate) fn inc_c_0x0c(&mut self, bus: &mut Bus) -> (cycles: u8)
        requires
            old(bus)@.wf(),
        ensures
            final(bus)@.wf(),
            (*final(self), final(bus)@, cycles) == exec_spec(*old(self), old(bus)@, decode(0x0C)),
    {
        self.i_inc(bus, Reg8::C)
    }

    /// DEC C
    pub(crate) fn dec_c_0x0d(&mut self, bus: &mut Bus) -> (cycles: u8)
        requires
            old(bus)@.wf(),
        ensures
            final(bus)@.wf(),
            (*final(self), final(bus)@, cycles) == exec_spec(*old(self), old(bus)@, decode(0x0D)),
    {
        self.i_dec(bus, Reg8::C)
    }

    /// LD C, d8
    pub(crate) fn ld_c_d8_0x0e(&mut self, bus: &mut Bus) -> (cycles: u8)
        requires
            old(bus)@.wf(),
        ensures
            final(bus)@.wf(),
            (*final(self), final(bus)@, cycles) == exec_spec(*old(self), old(bus)@, decode(0x0E)),
    {
        self.i_ld_imm(bus, Reg8::C)
    }

    /// RRCA
    pub(crate) fn rrca_0x0f(&mut self, bus: &mut Bus) -> (cycles: u8)
        requires
            old(bus)@.wf(),
        ensures
            final(bus)@.wf(),
            (*final(self), final(bus)@, cycles) == exec_spec(*old(self), old(bus)@, decode(0x0F)),
    {
        self.i_rot_a(bus, ShiftOp::Rrc)
    }

    /// STOP
    pub(crate) fn stop_d8_0x10(&mut self, bus: &mut Bus) -> (cycles: u8)
        requires
            old(bus)@.wf(),
        ensures
            final(bus)@.wf(),
            (*final(self), final(bus)@, cycles) == exec_spec(*old(self), old(bus)@, decode(0x10)),
    {
        self.i_stop(bus)
    }

    /// LD DE, d16
    pub(crate) fn ld_de_d16_0x11(&mut self, bus: &mut Bus) -> (cycles: u8)
        requires
            old(bus)@.wf(),
        ensures
            final(bus)@.wf(),
            (*final(self), final(bus)@, cycles) == exec_spec(*old(self), old(bus)@, decode(0x11)),
    {
        self.i_ld16_imm(bus, Reg16::DE)
    }

    /// LD (DE), A
    pub(crate) fn ld_de_a_0x12(&mut self, bus: &mut Bus) -> (cycles: u8)
        requires
            old(bus)@.wf(),
        ensures
            final(bus)@.wf(),
            (*final(self), final(bus)@, cycles) == exec_spec(*old(self), old(bus)@, decode(0x12)),
    {
        self.i_store_a(bus, Indirect::DE)
    }

    /// INC DE
    pub(crate) fn inc_de_0x13(&mut self, bus: &mut Bus) -> (cycles: u8)
        requires
            old(bus)@.wf(),
        ensures
            final(bus)@.wf(),
            (*final(self), final(bus)@, cycles) == exec_spec(*old(self), old(bus)@, decode(0x13)),
    {
        self.i_inc16(bus, Reg16::DE)
    }

    /// INC D
    pub(crate) fn inc_d_0x14(&mut self, bus: &mut Bus) -> (cycles: u8)
        requires
            old(bus)@.wf(),
        ensures
            final(bus)@.wf(),
            (*final(self), final(bus)@, cycles) == exec_spec(*old(self), old(bus)@, decode(0x14)),
    {
        self.i_inc(bus, Reg8::D)
    }

    /// DEC D
    pub(crate) fn dec_d_0x15(&mut self, bus: &mut Bus) -> (cycles: u8)
        requires
            old(bus)@.wf(),
        ensures
            final(bus)@.wf(),
            (*final(self), final(bus)@, cycles) == exec_spec(*old(self), old(bus)@, decode(0x15)),
    {
        self.i_dec(bus, Reg8::D)
    }

    /// LD D, d8
    pub(crate) fn ld_d_d8_0x16(&mut self, bus: &mut Bus) -> (cycles: u8)
        requires
            old(bus)@.wf(),
        ensures
            final(bus)@.wf(),
            (*final(self), final(bus)@, cycles) == exec_spec(*old(self), old(bus)@, decode(0x16)),
    {
        self.i_ld_imm(bus, Reg8::D)
    }

    /// RLA
    pub(crate) fn rla_0x17(&mut self, bus: &mut Bus) -> (cycles: u8)
        requires
            old(bus)@.wf(),
        ensures
            final(bus)@.wf(),
            (*final(self), final(bus)@, cycles) == exec_spec(*old(self), old(bus)@, decode(0x17)),
    {
        self.i_rot_a(bus, ShiftOp::Rl)
    }

    /// JR r8
    pub(crate) fn jr_r8_0x18(&mut self, bus: &mut Bus) -> (cycles: u8)
        requires
            old(bus)@.wf(),
        ensures
            final(bus)@.wf(),
            (*final(self), final(bus)@, cycles) == exec_spec(*old(self), old(bus)@, decode(0x18)),
    {
        self.i_jr(bus, Cond::Always)
    }

    /// ADD HL, DE
    pub(crate) fn add_hl_de_0x19(&mut self, bus: &mut Bus) -> (cycles: u8)
        requires
            old(bus)@.wf(),
        ensures
            final(bus)@.wf(),
            (*final(self), final(bus)@, cycles) == exec_spec(*old(self), old(bus)@, decode(0x19)),
    {
        self.i_add_hl(bus, Reg16::DE)
    }

    /// LD A, (DE)
    pub(crate) fn ld_a_de_0x1a(&mut self, bus: &mut Bus) -> (cycles: u8)
        requires
            old(bus)@.wf(),
        ensures
            final(bus)@.wf(),
            (*final(self), final(bus)@, cycles) == exec_spec(*old(self), old(bus)@, decode(0x1A)),
    {
        self.i_load_a(bus, Indirect::DE)
    }

    /// DEC DE
    pub(crate) fn dec_de_0x1b(&mut self, bus: &mut Bus) -> (cycles: u8)
        requires
            old(bus)@.wf(),
        ensures
            final(bus)@.wf(),
            (*final(self), final(bus)@, cycles) == exec_spec(*old(self), old(bus)@, decode(0x1B)),
    {
        self.i_dec16(bus, Reg16::DE)
    }

    /// INC E
    pub(crate) fn inc_e_0x1c(&mut self, bus: &mut Bus) -> (cycles: u8)
        requires
            old(bus)@.wf(),
        ensures
            final(bus)@.wf(),
            (*final(self), final(bus)@, cycles) == exec_spec(*old(self), old(bus)@, decode(0x1C)),
    {
        self.i_inc(bus, Reg8::E)
    }

    /// DEC E
    pub(crate) fn dec_e_0x1d(&mut self, bus: &mut Bus) -> (cycles: u8)
        requires
            old(bus)@.wf(),
        ensures
            final(bus)@.wf(),
            (*final(self), final(bus)@, cycles) == exec_spec(*old(self), old(bus)@, decode(0x1D)),
    {
        self.i_dec(bus, Reg8::E)
    }

    /// LD E, d8
    pub(crate) fn ld_e_d8_0x1e(&mut self, bus: &mut Bus) -> (cycles: u8)
        requires
            old(bus)@.wf(),
        ensures
            final(bus)@.wf(),
            (*final(self), final(bus)@, cycles) == exec_spec(*old(self), old(bus)@, decode(0x1E)),
    {
        self.i_ld_imm(bus, Reg8::E)
    }

    /// RRA
    pub(crate) fn rra_0x1f(&mut self, bus: &mut Bus) -> (cycles: u8)
        requires
            old(bus)@.wf(),
        ensures
            final(bus)@.wf(),
            (*final(self), final(bus)@, cycles) == exec_spec(*old(self), old(bus)@, decode(0x1F)),
    {
        self.i_rot_a(bus, ShiftOp::Rr)
    }

    /// JR NZ, r8
    pub(crate) fn jr_nz_r8_0x20(&mut self, bus: &mut Bus) -> (cycles: u8)
        requires
            old(bus)@.wf(),
        ensures
            final(bus)@.wf(),
            (*final(self), final(bus)@, cycles) == exec_spec(*old(self), old(bus)@, decode(0x20)),
    {
        self.i_jr(bus, Cond::NZ)
    }

    /// LD HL, d16
    pub(crate) fn ld_hl_d16_0x21(&mut self, bus: &mut Bus) -> (cycles: u8)
        requires
            old(bus)@.wf(),
        ensures
            final(bus)@.wf(),
            (*final(self), final(bus)@, cycles) == exec_spec(*old(self), old(bus)@, decode(0x21)),
    {
        self.i_ld16_imm(bus, Reg16::HL)
    }

    /// LD (HL+), A
    pub(crate) fn ld_hl_a_0x22(&mut self, bus: &mut Bus) -> (cycles: u8)
        requires
            old(bus)@.wf(),
        ensures
            final(bus)@.wf(),
            (*final(self), final(bus)@, cycles) == exec_spec(*old(self), old(bus)@, decode(0x22)),
    {
        self.i_store_a(bus, Indirect::HLInc)
    }

    /// INC HL
    pub(crate) fn inc_hl_0x23(&mut self, bus: &mut Bus) -> (cycles: u8)
        requires
            old(bus)@.wf(),
        ensures
            final(bus)@.wf(),
            (*final(self), final(bus)@, cycles) == exec_spec(*old(self), old(bus)@, decode(0x23)),
    {
        self.i_inc16(bus, Reg16::HL)
    }

    /// INC H
    pub(crate) fn inc_h_0x24(&mut self, bus: &mut Bus) -> (cycles: u8)
        requires
            old(bus)@.wf(),
        ensures
            final(bus)@.wf(),
            (*final(self), final(bus)@, cycles) == exec_spec(*old(self), old(bus)@, decode(0x24)),
    {
        self.i_inc(bus, Reg8::H)
    }

    /// DEC H
    pub(crate) fn dec_h_0x25(&mut self, bus: &mut Bus) -> (cycles: u8)
        requires
            old(bus)@.wf(),
        ensures
            final(bus)@.wf(),
            (*final(self), final(bus)@, cycles) == exec_spec(*old(self), old(bus)@, decode(0x25)),
    {
        self.i_dec(bus, Reg8::H)
    }

    /// LD H, d8
    pub(crate) fn ld_h_d8_0x26(&mut self, bus: &mut Bus) -> (cycles: u8)
        requires
            old(bus)@.wf(),
        ensures
            final(bus)@.wf(),
            (*final(self), final(bus)@, cycles) == exec_spec(*old(self), old(bus)@, decode(0x26)),
    {
        self.i_ld_imm(bus, Reg8::H)
    }

    /// DAA
    pub(crate) fn daa_0x27(&mut self, bus: &mut Bus) -> (cycles: u8)
        requires
            old(bus)@.wf(),
        ensures
            final(bus)@.wf(),
            (*final(self), final(bus)@, cycles) == exec_spec(*old(self), old(bus)@, decode(0x27)),
    {
        self.i_daa(bus)
    }

    /// JR Z, r8
    pub(crate) fn jr_z_r8_0x28(&mut self, bus: &mut Bus) -> (cycles: u8)
        requires
            old(bus)@.wf(),
        ensures
            final(bus)@.wf(),
            (*final(self), final(bus)@, cycles) == exec_spec(*old(self), old(bus)@, decode(0x28)),
    {
        self.i_jr(bus, Cond::Z)
    }

    /// ADD HL, HL
    pub(crate) fn add_hl_hl_0x29(&mut self, bus: &mut Bus) -> (cycles: u8)
        requires
            old(bus)@.wf(),
        ensures
            final(bus)@.wf(),
            (*final(self), final(bus)@, cycles) == exec_spec(*old(self), old(bus)@, decode(0x29)),
    {
        self.i_add_hl(bus, Reg16::HL)
    }

    /// LD A, (HL+)
    pub(crate) fn ld_a_hl_0x2a(&mut self, bus: &mut Bus) -> (cycles: u8)
        requires
            old(bus)@.wf(),
        ensures
            final(bus)@.wf(),
            (*final(self), final(bus)@, cycles) == exec_spec(*old(self), old(bus)@, decode(0x2A)),
    {
        self.i_load_a(bus, Indirect::HLInc)
    }

    /// DEC HL
    pub(crate) fn dec_hl_0x2b(&mut self, bus: &mut Bus) -> (cycles: u8)
        requires
            old(bus)@.wf(),
        ensures
            final(bus)@.wf(),
            (*final(self), final(bus)@, cycles) == exec_spec(*old(self), old(bus)@, decode(0x2B)),
    {
        self.i_dec16(bus, Reg16::HL)
    }

    /// INC L
    pub(crate) fn inc_l_0x2c(&mut self, bus: &mut Bus) -> (cycles: u8)
        requires
            old(bus)@.wf(),
        ensures
            final(bus)@.wf(),
            (*final(self), final(bus)@, cycles) == exec_spec(*old(self), old(bus)@, decode(0x2C)),
    {
        self.i_inc(bus, Reg8::L)
    }

    /// DEC L
    pub(crate) fn dec_l_0x2d(&mut self, bus: &mut Bus) -> (cycles: u8)
        requires
            old(bus)@.wf(),
        ensures
            final(bus)@.wf(),
            (*final(self), final(bus)@, cycles) == exec_spec(*old(self), old(bus)@, decode(0x2D)),
    {
        self.i_dec(bus, Reg8::L)
    }

    /// LD L, d8
    pub(crate) fn ld_l_d8_0x2e(&mut self, bus: &mut Bus) -> (cycles: u8)
        requires
            old(bus)@.wf(),
        ensures
            final(bus)@.wf(),
            (*final(self), final(bus)@, cycles) == exec_spec(*old(self), old(bus)@, decode(0x2E)),
    {
        self.i_ld_imm(bus, Reg8::L)
    }

    /// CPL
    pub(crate) fn cpl_0x2f(&mut self, bus: &mut Bus) -> (cycles: u8)
        requires
            old(bus)@.wf(),
        ensures
            final(bus)@.wf(),
            (*final(self), final(bus)@, cycles) == exec_spec(*old(self), old(bus)@, decode(0x2F)),
    {
        self.i_cpl(bus)
    }

    /// JR NC, r8
    pub(crate) fn jr_nc_r8_0x30(&mut self, bus: &mut Bus) -> (cycles: u8)
        requires
            old(bus)@.wf(),
        ensures
            final(bus)@.wf(),
            (*final(self), final(bus)@, cycles) == exec_spec(*old(self), old(bus)@, decode(0x30)),
    {
        self.i_jr(bus, Cond::NC)
    }

    /// LD SP, d16
    pub(crate) fn ld_sp_d16_0x31(&mut self, bus: &mut Bus) -> (cycles: u8)
        requires
            old(bus)@.wf(),
        ensures
            final(bus)@.wf(),
            (*final(self), final(bus)@, cycles) == exec_spec(*old(self), old(bus)@, decode(0x31)),
    {
        self.i_ld16_imm(bus, Reg16::SP)
    }

    /// LD (HL-), A
    pub(crate) fn ld_hl_a_0x32(&mut self, bus: &mut Bus) -> (cycles: u8)
        requires
            old(bus)@.wf(),
        ensures
            final(bus)@.wf(),
            (*final(self), final(bus)@, cycles) == exec_spec(*old(self), old(bus)@, decode(0x32)),
    {
        self.i_store_a(bus, Indirect::HLDec)
    }

    /// INC SP
    pub(crate) fn inc_sp_0x33(&mut self, bus: &mut Bus) -> (cycles: u8)
        requires
            old(bus)@.wf(),
        ensures
            final(bus)@.wf(),
            (*final(self), final(bus)@, cycles) == exec_spec(*old(self), old(bus)@, decode(0x33)),
    {
        self.i_inc16(bus, Reg16::SP)
    }

    /// INC (HL)
    pub(crate) fn inc_hl_0x34(&mut self, bus: &mut Bus) -> (cycles: u8)
        requires
            old(bus)@.wf(),
        ensures
            final(bus)@.wf(),
            (*final(self), final(bus)@, cycles) == exec_spec(*old(self), old(bus)@, decode(0x34)),
    {
        self.i_inc(bus, Reg8::MemHl)
    }

    /// DEC (HL)
    pub(crate) fn dec_hl_0x35(&mut self, bus: &mut Bus) -> (cycles: u8)
        requires
            old(bus)@.wf(),
        ensures
            final(bus)@.wf(),
            (*final(self), final(bus)@, cycles) == exec_spec(*old(self), old(bus)@, decode(0x35)),
    {
        self.i_dec(bus, Reg8::MemHl)
    }

    /// LD (HL), d8
    pub(crate) fn ld_hl_d8_0x36(&mut self, bus: &mut Bus) -> (cycles: u8)
        requires
            old(bus)@.wf(),
        ensures
            final(bus)@.wf(),
            (*final(self), final(bus)@, cycles) == exec_spec(*old(self), old(bus)@, decode(0x36)),
    {
        self.i_ld_imm(bus, Reg8::MemHl)
    }

    /// SCF
    pub(crate) fn scf_0x37(&mut self, bus: &mut Bus) -> (cycles: u8)
        requires
            old(bus)@.wf(),
        ensures
            final(bus)@.wf(),
            (*final(self), final(bus)@, cycles) == exec_spec(*old(self), old(bus)@, decode(0x37)),
    {
        self.i_scf(bus)
    }

    /// JR C, r8
    pub(crate) fn jr_c_r8_0x38(&mut self, bus: &mut Bus) -> (cycles: u8)
        requires
            old(bus)@.wf(),
        ensures
            final(bus)@.wf(),
            (*final(self), final(bus)@, cycles) == exec_spec(*old(self), old(bus)@, decode(0x38)),
    {
        self.i_jr(bus, Cond::C)
    }

    /// ADD HL, SP
    pub(crate) fn add_hl_sp_0x39(&mut self, bus: &mut Bus) -> (cycles: u8)
        requires
            old(bus)@.wf(),
        ensures
            final(bus)@.wf(),
            (*final(self), final(bus)@, cycles) == exec_spec(*old(self), old(bus)@, decode(0x39)),
    {
        self.i_add_hl(bus, Reg16::SP)
    }

    /// LD A, (HL-)
    pub(crate) fn ld_a_hl_0x3a(&mut self, bus: &mut Bus) -> (cycles: u8)
        requires
            old(bus)@.wf(),
        ensures
            final(bus)@.wf(),
            (*final(self), final(bus)@, cycles) == exec_spec(*old(self), old(bus)@, decode(0x3A)),
    {
        self.i_load_a(bus, Indirect::HLDec)
    }

    /// DEC SP
    pub(crate) fn dec_sp_0x3b(&mut self, bus: &mut Bus) -> (cycles: u8)
        requires
            old(bus)@.wf(),
        ensures
            final(bus)@.wf(),
            (*final(self), final(bus)@, cycles) == exec_spec(*old(self), old(bus)@, decode(0x3B)),
    {
        self.i_dec16(bus, Reg16::SP)
    }

    /// INC A
    pub(crate) fn inc_a_0x3c(&mut self, bus: &mut Bus) -> (cycles: u8)
        requires
            old(bus)@.wf(),
        ensures
            final(bus)@.wf(),
            (*final(self), final(bus)@, cycles) == exec_spec(*old(self), old(bus)@, decode(0x3C)),
    {
        self.i_inc(bus, Reg8::A)
    }

    /// DEC A
    pub(crate) fn dec_a_0x3d(&mut self, bus: &mut Bus) -> (cycles: u8)
        requires
            old(bus)@.wf(),
        ensures
            final(bus)@.wf(),
            (*final(self), final(bus)@, cycles) == exec_spec(*old(self), old(bus)@, decode(0x3D)),
    {
        self.i_dec(bus, Reg8::A)
    }

    /// LD A, d8
    pub(crate) fn ld_a_d8_0x3e(&mut self, bus: &mut Bus) -> (cycles: u8)
        requires
            old(bus)@.wf(),
        ensures
            final(bus)@.wf(),
            (*final(self), final(bus)@, cycles) == exec_spec(*old(self), old(bus)@, decode(0x3E)),
    {
        self.i_ld_imm(bus, Reg8::A)
    }

    /// CCF
    pub(crate) fn ccf_0x3f(&mut self, bus: &mut Bus) -> (cycles: u8)
        requires
            old(bus)@.wf(),
        ensures
            final(bus)@.wf(),
            (*final(self), final(bus)@, cycles) == exec_spec(*old(self), old(bus)@, decode(0x3F)),
    {
        self.i_ccf(bus)
    }

    /// LD B, B
    pub(crate) fn ld_b_b_0x40(&mut self, bus: &mut Bus) -> (cycles: u8)
        requires
            old(bus)@.wf(),
        ensures
            final(bus)@.wf(),
            (*final(self), final(bus)@, cycles) == exec_spec(*old(self), old(bus)@, decode(0x40)),
    {
        self.i_ld(bus, Reg8::B, Reg8::B)
    }

    /// LD B, C
    pub(crate) fn ld_b_c_0x41(&mut self, bus: &mut Bus) -> (cycles: u8)
        requires
            old(bus)@.wf(),
        ensures
            final(bus)@.wf(),
            (*final(self), final(bus)@, cycles) == exec_spec(*old(self), old(bus)@, decode(0x41)),
    {
        self.i_ld(bus, Reg8::B, Reg8::C)
    }

    /// LD B, D
    pub(crate) fn ld_b_d_0x42(&mut self, bus: &mut Bus) -> (cycles: u8)
        requires
            old(bus)@.wf(),
        ensures
            final(bus)@.wf(),
            (*final(self), final(bus)@, cycles) == exec_spec(*old(self), old(bus)@, decode(0x42)),
    {
        self.i_ld(bus, Reg8::B, Reg8::D)
    }

    /// LD B, E
    pub(crate) fn ld_b_e_0x43(&mut self, bus: &mut Bus) -> (cycles: u8)
        requires
            old(bus)@.wf(),
        ensures
            final(bus)@.wf(),
            (*final(self), final(bus)@, cycles) == exec_spec(*old(self), old(bus)@, decode(0x43)),
    {
        self.i_ld(bus, Reg8::B, Reg8::E)
    }

    /// LD B, H
    pub(crate) fn ld_b_h_0x44(&mut self, bus: &mut Bus) -> (cycles: u8)
        requires
            old(bus)@.wf(),
        ensures
            final(bus)@.wf(),
            (*final(self), final(bus)@, cycles) == exec_spec(*old(self), old(bus)@, decode(0x44)),
    {
        self.i_ld(bus, Reg8::B, Reg8::H)
    }

    /// LD B, L
    pub(crate) fn ld_b_l_0x45(&mut self, bus: &mut Bus) -> (cycles: u8)
        requires
            old(bus)@.wf(),
        ensures
            final(bus)@.wf(),
            (*final(self), final(bus)@, cycles) == exec_spec(*old(self), old(bus)@, decode(0x45)),
    {
        self.i_ld(bus, Reg8::B, Reg8::L)
    }

    /// LD B, (HL)
    pub(crate) fn ld_b_hl_0x46(&mut self, bus: &mut Bus) -> (cycles: u8)
        requires
            old(bus)@.wf(),
        ensures
            final(bus)@.wf(),
            (*final(self), final(bus)@, cycles) == exec_spec(*old(self), old(bus)@, decode(0x46)),
    {
        self.i_ld(bus, Reg8::B, Reg8::MemHl)
    }

    /// LD B, A
    pub(crate) fn ld_b_a_0x47(&mut self, bus: &mut Bus) -> (cycles: u8)
        requires
            old(bus)@.wf(),
        ensures
            final(bus)@.wf(),
            (*final(self), final(bus)@, cycles) == exec_spec(*old(self), old(bus)@, decode(0x47)),
    {
        self.i_ld(bus, Reg8::B, Reg8::A)
    }

    /// LD C, B
    pub(crate) fn ld_c_b_0x48(&mut self, bus: &mut Bus) -> (cycles: u8)
        requires
            old(bus)@.wf(),
        ensures
            final(bus)@.wf(),
            (*final(self), final(bus)@, cycles) == exec_spec(*old(self), old(bus)@, decode(0x48)),
    {
        self.i_ld(bus, Reg8::C, Reg8::B)
    }

    /// LD C, C
    pub(crate) fn ld_c_c_0x49(&mut self, bus: &mut Bus) -> (cycles: u8)
        requires
            old(bus)@.wf(),
        ensures
            final(bus)@.wf(),
            (*final(self), final(bus)@, cycles) == exec_spec(*old(self), old(bus)@, decode(0x49)),
    {
        self.i_ld(bus, Reg8::C, Reg8::C)
    }

    /// LD C, D
    pub(crate) fn ld_c_d_0x4a(&mut self, bus: &mut Bus) -> (cycles: u8)
        requires
            old(bus)@.wf(),
        ensures
            final(bus)@.wf(),
            (*final(self), final(bus)@, cycles) == exec_spec(*old(self), old(bus)@, decode(0x4A)),
    {
        self.i_ld(bus, Reg8::C, Reg8::D)
    }

    /// LD C, E
    pub(crate) fn ld_c_e_0x4b(&mut self, bus: &mut Bus) -> (cycles: u8)
        requires
            old(bus)@.wf(),
        ensures
            final(bus)@.wf(),
            (*final(self), final(bus)@, cycles) == exec_spec(*old(self), old(bus)@, decode(0x4B)),
    {
        self.i_ld(bus, Reg8::C, Reg8::E)
    }

    /// LD C, H
    pub(crate) fn ld_c_h_0x4c(&mut self, bus: &mut Bus) -> (cycles: u8)
        requires
            old(bus)@.wf(),
        ensures
            final(bus)@.wf(),
            (*final(self), final(bus)@, cycles) == exec_spec(*old(self), old(bus)@, decode(0x4C)),
    {
        self.i_ld(bus, Reg8::C, Reg8::H)
    }

    /// LD C, L
    pub(crate) fn ld_c_l_0x4d(&mut self, bus: &mut Bus) -> (cycles: u8)
        requires
            old(bus)@.wf(),
        ensures
            final(bus)@.wf(),
            (*final(self), final(bus)@, cycles) == exec_spec(*old(self), old(bus)@, decode(0x4D)),
    {
        self.i_ld(bus, Reg8::C, Reg8::L)
    }

    /// LD C, (HL)
    pub(crate) fn ld_c_hl_0x4e(&mut self, bus: &mut Bus) -> (cycles: u8)
        requires
            old(bus)@.wf(),
        ensures
            final(bus)@.wf(),
            (*final(self), final(bus)@, cycles) == exec_spec(*old(self), old(bus)@, decode(0x4E)),
    {
        self.i_ld(bus, Reg8::C, Reg8::MemHl)
    }

    /// LD C, A
    pub(crate) fn ld_c_a_0x4f(&mut self, bus: &mut Bus) -> (cycles: u8)
        requires
            old(bus)@.wf(),
        ensures
            final(bus)@.wf(),
            (*final(self), final(bus)@, cycles) == exec_spec(*old(self), old(bus)@, decode(0x4F)),
    {
        self.i_ld(bus, Reg8::C, Reg8::A)
    }

    /// LD D, B
    pub(crate) fn ld_d_b_0x50(&mut self, bus: &mut Bus) -> (cycles: u8)
        requires
            old(bus)@.wf(),
        ensures
            final(bus)@.wf(),
            (*final(self), final(bus)@, cycles) == exec_spec(*old(self), old(bus)@, decode(0x50)),
    {
        self.i_ld(bus, Reg8::D, Reg8::B)
    }

    /// LD D, C
    pub(crate) fn ld_d_c_0x51(&mut self, bus: &mut Bus) -> (cycles: u8)
        requires
            old(bus)@.wf(),
        ensures
            final(bus)@.wf(),
            (*final(self), final(bus)@, cycles) == exec_spec(*old(self), old(bus)@, decode(0x51)),
    {
        self.i_ld(bus, Reg8::D, Reg8::C)
    }

    /// LD D, D
    pub(crate) fn ld_d_d_0x52(&mut self, bus: &mut Bus) -> (cycles: u8)
        requires
            old(bus)@.wf(),
        ensures
            final(bus)@.wf(),
            (*final(self), final(bus)@, cycles) == exec_spec(*old(self), old(bus)@, decode(0x52)),
    {
        self.i_ld(bus, Reg8::D, Reg8::D)
    }

    /// LD D, E
    pub(crate) fn ld_d_e_0x53(&mut self, bus: &mut Bus) -> (cycles: u8)
        requires
            old(bus)@.wf(),
        ensures
            final(bus)@.wf(),
            (*final(self), final(bus)@, cycles) == exec_spec(*old(self), old(bus)@, decode(0x53)),
    {
        self.i_ld(bus, Reg8::D, Reg8::E)
    }

    /// LD D, H
    pub(crate) fn ld_d_h_0x54(&mut self, bus: &mut Bus) -> (cycles: u8)
        requires
            old(bus)@.wf(),
        ensures
            final(bus)@.wf(),
            (*final(self), final(bus)@, cycles) == exec_spec(*old(self), old(bus)@, decode(0x54)),
    {
        self.i_ld(bus, Reg8::D, Reg8::H)
    }

    /// LD D, L
    pub(crate) fn ld_d_l_0x55(&mut self, bus: &mut Bus) -> (cycles: u8)
        requires
            old(bus)@.wf(),
        ensures
            final(bus)@.wf(),
            (*final(self), final(bus)@, cycles) == exec_spec(*old(self), old(bus)@, decode(0x55)),
    {
        self.i_ld(bus, Reg8::D, Reg8::L)
    }

    /// LD D, (HL)
    pub(crate) fn ld_d_hl_0x56(&mut self, bus: &mut Bus) -> (cycles: u8)
        requires
            old(bus)@.wf(),
        ensures
            final(bus)@.wf(),
            (*final(self), final(bus)@, cycles) == exec_spec(*old(self), old(bus)@, decode(0x56)),
    {
        self.i_ld(bus, Reg8::D, Reg8::MemHl)
    }

    /// LD D, A
    pub(crate) fn ld_d_a_0x57(&mut self, bus: &mut Bus) -> (cycles: u8)
        requires
            old(bus)@.wf(),
        ensures
            final(bus)@.wf(),
            (*final(self), final(bus)@, cycles) == exec_spec(*old(self), old(bus)@, decode(0x57)),
    {
        self.i_ld(bus, Reg8::D, Reg8::A)
    }

    /// LD E, B
    pub(crate) fn ld_e_b_0x58(&mut self, bus: &mut Bus) -> (cycles: u8)
        requires
            old(bus)@.wf(),
        ensures
            final(bus)@.wf(),
            (*final(self), final(bus)@, cycles) == exec_spec(*old(self), old(bus)@, decode(0x58)),
    {
        self.i_ld(bus, Reg8::E, Reg8::B)
    }

    /// LD E, C
    pub(crate) fn ld_e_c_0x59(&mut self, bus: &mut Bus) -> (cycles: u8)
        requires
            old(bus)@.wf(),
        ensures
            final(bus)@.wf(),
            (*final(self), final(bus)@, cycles) == exec_spec(*old(self), old(bus)@, decode(0x59)),
    {
        self.i_ld(bus, Reg8::E, Reg8::C)
    }

    /// LD E, D
    pub(crate) fn ld_e_d_0x5a(&mut self, bus: &mut Bus) -> (cycles: u8)
        requires
            old(bus)@.wf(),
        ensures
            final(bus)@.wf(),
            (*final(self), final(bus)@, cycles) == exec_spec(*old(self), old(bus)@, decode(0x5A)),
    {
        self.i_ld(bus, Reg8::E, Reg8::D)
    }

    /// LD E, E
    pub(crate) fn ld_e_e_0x5b(&mut self, bus: &mut Bus) -> (cycles: u8)
        requires
            old(bus)@.wf(),
        ensures
            final(bus)@.wf(),
            (*final(self), final(bus)@, cycles) == exec_spec(*old(self), old(bus)@, decode(0x5B)),
    {
        self.i_ld(bus, Reg8::E, Reg8::E)
    }

    /// LD E, H
    pub(crate) fn ld_e_h_0x5c(&mut self, bus: &mut Bus) -> (cycles: u8)
        requires
            old(bus)@.wf(),
        ensures
            final(bus)@.wf(),
            (*final(self), final(bus)@, cycles) == exec_spec(*old(self), old(bus)@, decode(0x5C)),
    {
        self.i_ld(bus, Reg8::E, Reg8::H)
    }

    /// LD E, L
    pub(crate) fn ld_e_l_0x5d(&mut self, bus: &mut Bus) -> (cycles: u8)
        requires
            old(bus)@.wf(),
        ensures
            final(bus)@.wf(),
            (*final(self), final(bus)@, cycles) == exec_spec(*old(self), old(bus)@, decode(0x5D)),
    {
        self.i_ld(bus, Reg8::E, Reg8::L)
    }

    /// LD E, (HL)
    pub(crate) fn ld_e_hl_0x5e(&mut self, bus: &mut Bus) -> (cycles: u8)
        requires
            old(bus)@.wf(),
        ensures
            final(bus)@.wf(),
            (*final(self), final(bus)@, cycles) == exec_spec(*old(self), old(bus)@, decode(0x5E)),
    {
        self.i_ld(bus, Reg8::E, Reg8::MemHl)
    }

    /// LD E, A
    pub(crate) fn ld_e_a_0x5f(&mut self, bus: &mut Bus) -> (cycles: u8)
        requires
            old(bus)@.wf(),
        ensures
            final(bus)@.wf(),
            (*final(self), final(bus)@, cycles) == exec_spec(*old(self), old(bus)@, decode(0x5F)),
    {
        self.i_ld(bus, Reg8::E, Reg8::A)
    }

    /// LD H, B
    pub(crate) fn ld_h_b_0x60(&mut self, bus: &mut Bus) -> (cycles: u8)
        requires
            old(bus)@.wf(),
        ensures
            final(bus)@.wf(),
            (*final(self), final(bus)@, cycles) == exec_spec(*old(self), old(bus)@, decode(0x60)),
    {
        self.i_ld(bus, Reg8::H, Reg8::B)
    }

    /// LD H, C
    pub(crate) fn ld_h_c_0x61(&mut self, bus: &mut Bus) -> (cycles: u8)
        requires
            old(bus)@.wf(),
        ensures
            final(bus)@.wf(),
            (*final(self), final(bus)@, cycles) == exec_spec(*old(self), old(bus)@, decode(0x61)),
    {
        self.i_ld(bus, Reg8::H, Reg8::C)
    }

    /// LD H, D
    pub(crate) fn ld_h_d_0x62(&mut self, bus: &mut Bus) -> (cycles: u8)
        requires
            old(bus)@.wf(),
        ensures
            final(bus)@.wf(),
            (*final(self), final(bus)@, cycles) == exec_spec(*old(self), old(bus)@, decode(0x62)),
    {
        self.i_ld(bus, Reg8::H, Reg8::D)
    }

    /// LD H, E
    pub(crate) fn ld_h_e_0x63(&mut self, bus: &mut Bus) -> (cycles: u8)
        requires
            old(bus)@.wf(),
        ensures
            final(bus)@.wf(),
            (*final(self), final(bus)@, cycles) == exec_spec(*old(self), old(bus)@, decode(0x63)),
    {
        self.i_ld(bus, Reg8::H, Reg8::E)
    }

    /// LD H, H
    pub(crate) fn ld_h_h_0x64(&mut self, bus: &mut Bus) -> (cycles: u8)
        requires
            old(bus)@.wf(),
        ensures
            final(bus)@.wf(),
            (*final(self), final(bus)@, cycles) == exec_spec(*old(self), old(bus)@, decode(0x64)),
    {
        self.i_ld(bus, Reg8::H, Reg8::H)
    }

    /// LD H, L
    pub(crate) fn ld_h_l_0x65(&mut self, bus: &mut Bus) -> (cycles: u8)
        requires
            old(bus)@.wf(),
        ensures
            final(bus)@.wf(),
            (*final(self), final(bus)@, cycles) == exec_spec(*old(self), old(bus)@, decode(0x65)),
    {
        self.i_ld(bus, Reg8::H, Reg8::L)
    }

    /// LD H, (HL)
    pub(crate) fn ld_h_hl_0x66(&mut self, bus: &mut Bus) -> (cycles: u8)
        requires
            old(bus)@.wf(),
        ensures
            final(bus)@.wf(),
            (*final(self), final(bus)@, cycles) == exec_spec(*old(self), old(bus)@, decode(0x66)),
    {
        self.i_ld(bus, Reg8::H, Reg8::MemHl)
    }

    /// LD H, A
    pub(crate) fn ld_h_a_0x67(&mut self, bus: &mut Bus) -> (cycles: u8)
        requires
            old(bus)@.wf(),
        ensures
            final(bus)@.wf(),
            (*final(self), final(bus)@, cycles) == exec_spec(*old(self), old(bus)@, decode(0x67)),
    {
        self.i_ld(bus, Reg8::H, Reg8::A)
    }

    /// LD L, B
    pub(crate) fn ld_l_b_0x68(&mut self, bus: &mut Bus) -> (cycles: u8)
        requires
            old(bus)@.wf(),
        ensures
            final(bus)@.wf(),
            (*final(self), final(bus)@, cycles) == exec_spec(*old(self), old(bus)@, decode(0x68)),
    {
        self.i_ld(bus, Reg8::L, Reg8::B)
    }

    /// LD L, C
    pub(crate) fn ld_l_c_0x69(&mut self, bus: &mut Bus) -> (cycles: u8)
        requires
            old(bus)@.wf(),
        ensures
            final(bus)@.wf(),
            (*final(self), final(bus)@, cycles) == exec_spec(*old(self), old(bus)@, decode(0x69)),
    {
        self.i_ld(bus, Reg8::L, Reg8::C)
    }

    /// LD L, D
    pub(crate) fn ld_l_d_0x6a(&mut self, bus: &mut Bus) -> (cycles: u8)
        requires
            old(bus)@.wf(),
        ensures
            final(bus)@.wf(),
            (*final(self), final(bus)@, cycles) == exec_spec(*old(self), old(bus)@, decode(0x6A)),
    {
        self.i_ld(bus, Reg8::L, Reg8::D)
    }

    /// LD L, E
    pub(crate) fn ld_l_e_0x6b(&mut self, bus: &mut Bus) -> (cycles: u8)
        requires
            old(bus)@.wf(),
        ensures
            final(bus)@.wf(),
            (*final(self), final(bus)@, cycles) == exec_spec(*old(self), old(bus)@, decode(0x6B)),
    {
        self.i_ld(bus, Reg8::L, Reg8::E)
    }

    /// LD L, H
    pub(crate) fn ld_l_h_0x6c(&mut self, bus: &mut Bus) -> (cycles: u8)
        requires
            old(bus)@.wf(),
        ensures
            final(bus)@.wf(),
            (*final(self), final(bus)@, cycles) == exec_spec(*old(self), old(bus)@, decode(0x6C)),
    {
        self.i_ld(bus, Reg8::L, Reg8::H)
    }

    /// LD L, L
    pub(crate) fn ld_l_l_0x6d(&mut self, bus: &mut Bus) -> (cycles: u8)
        requires
            old(bus)@.wf(),
        ensures
            final(bus)@.wf(),
            (*final(self), final(bus)@, cycles) == exec_spec(*old(self), old(bus)@, decode(0x6D)),
    {
        self.i_ld(bus, Reg8::L, Reg8::L)
    }

    /// LD L, (HL)
    pub(crate) fn ld_l_hl_0x6e(&mut self, bus: &mut Bus) -> (cycles: u8)
        requires
            old(bus)@.wf(),
        ensures
            final(bus)@.wf(),
            (*final(self), final(bus)@, cycles) == exec_spec(*old(self), old(bus)@, decode(0x6E)),
    {
        self.i_ld(bus, Reg8::L, Reg8::MemHl)
    }

    /// LD L, A
    pub(crate) fn ld_l_a_0x6f(&mut self, bus: &mut Bus) -> (cycles: u8)
        requires
            old(bus)@.wf(),
        ensures
            final(bus)@.wf(),
            (*final(self), final(bus)@, cycles) == exec_spec(*old(self), old(bus)@, decode(0x6F)),
    {
        self.i_ld(bus, Reg8::L, Reg8::A)
    }

    /// LD (HL), B
    pub(crate) fn ld_hl_b_0x70(&mut self, bus: &mut Bus) -> (cycles: u8)
        requires
            old(bus)@.wf(),
        ensures
            final(bus)@.wf(),
            (*final(self), final(bus)@, cycles) == exec_spec(*old(self), old(bus)@, decode(0x70)),
    {
        self.i_ld(bus, Reg8::MemHl, Reg8::B)
    }

    /// LD (HL), C
    pub(crate) fn ld_hl_c_0x71(&mut self, bus: &mut Bus) -> (cycles: u8)
        requires
            old(bus)@.wf(),
        ensures
            final(bus)@.wf(),
            (*final(self), final(bus)@, cycles) == exec_spec(*old(self), old(bus)@, decode(0x71)),
    {
        self.i_ld(bus, Reg8::MemHl, Reg8::C)
    }

    /// LD (HL), D
    pub(crate) fn ld_hl_d_0x72(&mut self, bus: &mut Bus) -> (cycles: u8)
        requires
            old(bus)@.wf(),
        ensures
            final(bus)@.wf(),
            (*final(self), final(bus)@, cycles) == exec_spec(*old(self), old(bus)@, decode(0x72)),
    {
        self.i_ld(bus, Reg8::MemHl, Reg8::D)
    }

    /// LD (HL), E
    pub(crate) fn ld_hl_e_0x73(&mut self, bus: &mut Bus) -> (cycles: u8)
        requires
            old(bus)@.wf(),
        ensures
            final(bus)@.wf(),
            (*final(self), final(bus)@, cycles) == exec_spec(*old(self), old(bus)@, decode(0x73)),
    {
        self.i_ld(bus, Reg8::MemHl, Reg8::E)
    }

    /// LD (HL), H
    pub(crate) fn ld_hl_h_0x74(&mut self, bus: &mut Bus) -> (cycles: u8)
        requires
            old(bus)@.wf(),
        ensures
            final(bus)@.wf(),
            (*final(self), final(bus)@, cycles) == exec_spec(*old(self), old(bus)@, decode(0x74)),
    {
        self.i_ld(bus, Reg8::MemHl, Reg8::H)
    }

    /// LD (HL), L
    pub(crate) fn ld_hl_l_0x75(&mut self, bus: &mut Bus) -> (cycles: u8)
        requires
            old(bus)@.wf(),
        ensures
            final(bus)@.wf(),
            (*final(self), final(bus)@, cycles) == exec_spec(*old(self), old(bus)@, decode(0x75)),
    {
        self.i_ld(bus, Reg8::MemHl, Reg8::L)
    }

    /// HALT
    pub(crate) fn halt_0x76(&mut self, bus: &mut Bus) -> (cycles: u8)
        requires
            old(bus)@.wf(),
        ensures
            final(bus)@.wf(),
            (*final(self), final(bus)@, cycles) == exec_spec(*old(self), old(bus)@, decode(0x76)),
    {
        self.i_halt(bus)
    }

    /// LD (HL), A
    pub(crate) fn ld_hl_a_0x77(&mut self, bus: &mut Bus) -> (cycles: u8)
        requires
            old(bus)@.wf(),
        ensures
            final(bus)@.wf(),
            (*final(self), final(bus)@, cycles) == exec_spec(*old(self), old(bus)@, decode(0x77)),
    {
        self.i_ld(bus, Reg8::MemHl, Reg8::A)
    }

    /// LD A, B
    pub(crate) fn ld_a_b_0x78(&mut self, bus: &mut Bus) -> (cycles: u8)
        requires
            old(bus)@.wf(),
        ensures
            final(bus)@.wf(),
            (*final(self), final(bus)@, cycles) == exec_spec(*old(self), old(bus)@, decode(0x78)),
    {
        self.i_ld(bus, Reg8::A, Reg8::B)
    }

    /// LD A, C
    pub(crate) fn ld_a_c_0x79(&mut self, bus: &mut Bus) -> (cycles: u8)
        requires
            old(bus)@.wf(),
        ensures
            final(bus)@.wf(),
            (*final(self), final(bus)@, cycles) == exec_spec(*old(self), old(bus)@, decode(0x79)),
    {
        self.i_ld(bus, Reg8::A, Reg8::C)
    }

    /// LD A, D
    pub(crate) fn ld_a_d_0x7a(&mut self, bus: &mut Bus) -> (cycles: u8)
        requires
            old(bus)@.wf(),
        ensures
            final(bus)@.wf(),
            (*final(self), final(bus)@, cycles) == exec_spec(*old(self), old(bus)@, decode(0x7A)),
    {
        self.i_ld(bus, Reg8::A, Reg8::D)
    }

    /// LD A, E
    pub(crate) fn ld_a_e_0x7b(&mut self, bus: &mut Bus) -> (cycles: u8)
        requires
            old(bus)@.wf(),
        ensures
            final(bus)@.wf(),
            (*final(self), final(bus)@, cycles) == exec_spec(*old(self), old(bus)@, decode(0x7B)),
    {
        self.i_ld(bus, Reg8::A, Reg8::E)
    }

    /// LD A, H
    pub(crate) fn ld_a_h_0x7c(&mut self, bus: &mut Bus) -> (cycles: u8)
        requires
            old(bus)@.wf(),
        ensures
            final(bus)@.wf(),
            (*final(self), final(bus)@, cycles) == exec_spec(*old(self), old(bus)@, decode(0x7C)),
    {
        self.i_ld(bus, Reg8::A, Reg8::H)
    }

    /// LD A, L
    pub(crate) fn ld_a_l_0x7d(&mut self, bus: &mut Bus) -> (cycles: u8)
        requires
            old(bus)@.wf(),
        ensures
            final(bus)@.wf(),
            (*final(self), final(bus)@, cycles) == exec_spec(*old(self), old(bus)@, decode(0x7D)),
    {
        self.i_ld(bus, Reg8::A, Reg8::L)
    }

    /// LD A, (HL)
    pub(crate) fn ld_a_hl_0x7e(&mut self, bus: &mut Bus) -> (cycles: u8)
        requires
            old(bus)@.wf(),
        ensures
            final(bus)@.wf(),
            (*final(self), final(bus)@, cycles) == exec_spec(*old(self), old(bus)@, decode(0x7E)),
    {
        self.i_ld(bus, Reg8::A, Reg8::MemHl)
    }

    /// LD A, A
    pub(crate) fn ld_a_a_0x7f(&mut self, bus: &mut Bus) -> (cycles: u8)
        requires
            old(bus)@.wf(),
        ensures
            final(bus)@.wf(),
            (*final(self), final(bus)@, cycles) == exec_spec(*old(self), old(bus)@, decode(0x7F)),
    {
        self.i_ld(bus, Reg8::A, Reg8::A)
    }

    /// ADD A, B
    pub(crate) fn add_a_b_0x80(&mut self, bus: &mut Bus) -> (cycles: u8)
        requires
            old(bus)@.wf(),
        ensures
            final(bus)@.wf(),
            (*final(self), final(bus)@, cycles) == exec_spec(*old(self), old(bus)@, decode(0x80)),
    {
        self.i_alu(bus, AluOp::Add, Reg8::B)
    }

    /// ADD A, C
    pub(crate) fn add_a_c_0x81(&mut self, bus: &mut Bus) -> (cycles: u8)
        requires
            old(bus)@.wf(),
        ensures
            final(bus)@.wf(),
            (*final(self), final(bus)@, cycles) == exec_spec(*old(self), old(bus)@, decode(0x81)),
    {
        self.i_alu(bus, AluOp::Add, Reg8::C)
    }

    /// ADD A, D
    pub(crate) fn add_a_d_0x82(&mut self, bus: &mut Bus) -> (cycles: u8)
        requires
            old(bus)@.wf(),
        ensures
            final(bus)@.wf(),
            (*final(self), final(bus)@, cycles) == exec_spec(*old(self), old(bus)@, decode(0x82)),
    {
        self.i_alu(bus, AluOp::Add, Reg8::D)
    }

    /// ADD A, E
    pub(crate) fn add_a_e_0x83(&mut self, bus: &mut Bus) -> (cycles: u8)
        requires
            old(bus)@.wf(),
        ensures
            final(bus)@.wf(),
            (*final(self), final(bus)@, cycles) == exec_spec(*old(self), old(bus)@, decode(0x83)),
    {
        self.i_alu(bus, AluOp::Add, Reg8::E)
    }

    /// ADD A, H
    pub(crate) fn add_a_h_0x84(&mut self, bus: &mut Bus) -> (cycles: u8)
        requires
            old(bus)@.wf(),
        ensures
            final(bus)@.wf(),
            (*final(self), final(bus)@, cycles) == exec_spec(*old(self), old(bus)@, decode(0x84)),
    {
        self.i_alu(bus, AluOp::Add, Reg8::H)
    }

    /// ADD A, L
    pub(crate) fn add_a_l_0x85(&mut self, bus: &mut Bus) -> (cycles: u8)
        requires
            old(bus)@.wf(),
        ensures
            final(bus)@.wf(),
            (*final(self), final(bus)@, cycles) == exec_spec(*old(self), old(bus)@, decode(0x85)),
    {
        self.i_alu(bus, AluOp::Add, Reg8::L)
    }

    /// ADD A, (HL)
    pub(crate) fn add_a_hl_0x86(&mut self, bus: &mut Bus) -> (cycles: u8)
        requires
            old(bus)@.wf(),
        ensures
            final(bus)@.wf(),
            (*final(self), final(bus)@, cycles) == exec_spec(*old(self), old(bus)@, decode(0x86)),
    {
        self.i_alu(bus, AluOp::Add, Reg8::MemHl)
    }

    /// ADD A, A
    pub(crate) fn add_a_a_0x87(&mut self, bus: &mut Bus) -> (cycles: u8)
        requires
            old(bus)@.wf(),
        ensures
            final(bus)@.wf(),
            (*final(self), final(bus)@, cycles) == exec_spec(*old(self), old(bus)@, decode(0x87)),
    {
        self.i_alu(bus, AluOp::Add, Reg8::A)
    }

    /// ADC A, B
    pub(crate) fn adc_a_b_0x88(&mut self, bus: &mut Bus) -> (cycles: u8)
        requires
            old(bus)@.wf(),
        ensures
            final(bus)@.wf(),
            (*final(self), final(bus)@, cycles) == exec_spec(*old(self), old(bus)@, decode(0x88)),
    {
        self.i_alu(bus, AluOp::Adc, Reg8::B)
    }

    /// ADC A, C
    pub(crate) fn adc_a_c_0x89(&mut self, bus: &mut Bus) -> (cycles: u8)
        requires
            old(bus)@.wf(),
        ensures
            final(bus)@.wf(),
            (*final(self), final(bus)@, cycles) == exec_spec(*old(self), old(bus)@, decode(0x89)),
    {
        self.i_alu(bus, AluOp::Adc, Reg8::C)
    }

    /// ADC A, D
    pub(crate) fn adc_a_d_0x8a(&mut self, bus: &mut Bus) -> (cycles: u8)
        requires
            old(bus)@.wf(),
        ensures
            final(bus)@.wf(),
            (*final(self), final(bus)@, cycles) == exec_spec(*old(self), old(bus)@, decode(0x8A)),
    {
        self.i_alu(bus, AluOp::Adc, Reg8::D)
    }

    /// ADC A, E
    pub(crate) fn adc_a_e_0x8b(&mut self, bus: &mut Bus) -> (cycles: u8)
        requires
            old(bus)@.wf(),
        ensures
            final(bus)@.wf(),
            (*final(self), final(bus)@, cycles) == exec_spec(*old(self), old(bus)@, decode(0x8B)),
    {
        self.i_alu(bus, AluOp::Adc, Reg8::E)
    }

    /// ADC A, H
    pub(crate) fn adc_a_h_0x8c(&mut self, bus: &mut Bus) -> (cycles: u8)
        requires
            old(bus)@.wf(),
        ensures
            final(bus)@.wf(),
            (*final(self), final(bus)@, cycles) == exec_spec(*old(self), old(bus)@, decode(0x8C)),
    {
        self.i_alu(bus, AluOp::Adc, Reg8::H)
    }

    /// ADC A, L
    pub(crate) fn adc_a_l_0x8d(&mut self, bus: &mut Bus) -> (cycles: u8)
        requires
            old(bus)@.wf(),
        ensures
            final(bus)@.wf(),
            (*final(self), final(bus)@, cycles) == exec_spec(*old(self), old(bus)@, decode(0x8D)),
    {
        self.i_alu(bus, AluOp::Adc, Reg8::L)
    }

    /// ADC A, (HL)
    pub(crate) fn adc_a_hl_0x8e(&mut self, bus: &mut Bus) -> (cycles: u8)
        requires
            old(bus)@.wf(),
        ensures
            final(bus)@.wf(),
            (*final(self), final(bus)@, cycles) == exec_spec(*old(self), old(bus)@, decode(0x8E)),
    {
        self.i_alu(bus, AluOp::Adc, Reg8::MemHl)
    }

    /// ADC A, A
    pub(crate) fn adc_a_a_0x8f(&mut self, bus: &mut Bus) -> (cycles: u8)
        requires
            old(bus)@.wf(),
        ensures
            final(bus)@.wf(),
            (*final(self), final(bus)@, cycles) == exec_spec(*old(self), old(bus)@, decode(0x8F)),
    {
        self.i_alu(bus, AluOp::Adc, Reg8::A)
    }

    /// SUB B
    pub(crate) fn sub_b_0x90(&mut self, bus: &mut Bus) -> (cycles: u8)
        requires
            old(bus)@.wf(),
        ensures
            final(bus)@.wf(),
            (*final(self), final(bus)@, cycles) == exec_spec(*old(self), old(bus)@, decode(0x90)),
    {
        self.i_alu(bus, AluOp::Sub, Reg8::B)
    }

    /// SUB C
    pub(crate) fn sub_c_0x91(&mut self, bus: &mut Bus) -> (cycles: u8)
        requires
            old(bus)@.wf(),
        ensures
            final(bus)@.wf(),
            (*final(self), final(bus)@, cycles) == exec_spec(*old(self), old(bus)@, decode(0x91)),
    {
        self.i_alu(bus, AluOp::Sub, Reg8::C)
    }

    /// SUB D
    pub(crate) fn sub_d_0x92(&mut self, bus: &mut Bus) -> (cycles: u8)
        requires
            old(bus)@.wf(),
        ensures
            final(bus)@.wf(),
            (*final(self), final(bus)@, cycles) == exec_spec(*old(self), old(bus)@, decode(0x92)),
    {
        self.i_alu(bus, AluOp::Sub, Reg8::D)
    }

    /// SUB E
    pub(crate) fn sub_e_0x93(&mut self, bus: &mut Bus) -> (cycles: u8)
        requires
            old(bus)@.wf(),
        ensures
            final(bus)@.wf(),
            (*final(self), final(bus)@, cycles) == exec_spec(*old(self), old(bus)@, decode(0x93)),
    {
        self.i_alu(bus, AluOp::Sub, Reg8::E)
    }

    /// SUB H
    pub(crate) fn sub_h_0x94(&mut self, bus: &mut Bus) -> (cycles: u8)
        requires
            old(bus)@.wf(),
        ensures
            final(bus)@.wf(),
            (*final(self), final(bus)@, cycles) == exec_spec(*old(self), old(bus)@, decode(0x94)),
    {
        self.i_alu(bus, AluOp::Sub, Reg8::H)
    }

    /// SUB L
    pub(crate) fn sub_l_0x95(&mut self, bus: &mut Bus) -> (cycles: u8)
        requires
            old(bus)@.wf(),
        ensures
            final(bus)@.wf(),
            (*final(self), final(bus)@, cycles) == exec_spec(*old(self), old(bus)@, decode(0x95)),
    {
        self.i_alu(bus, AluOp::Sub, Reg8::L)
    }

    /// SUB (HL)
    pub(crate) fn sub_hl_0x96(&mut self, bus: &mut Bus) -> (cycles: u8)
        requires
            old(bus)@.wf(),
        ensures
            final(bus)@.wf(),
            (*final(self), final(bus)@, cycles) == exec_spec(*old(self), old(bus)@, decode(0x96)),
    {
        self.i_alu(bus, AluOp::Sub, Reg8::MemHl)
    }

    /// SUB A
    pub(crate) fn sub_a_0x97(&mut self, bus: &mut Bus) -> (cycles: u8)
        requires
            old(bus)@.wf(),
        ensures
            final(bus)@.wf(),
            (*final(self), final(bus)@, cycles) == exec_spec(*old(self), old(bus)@, decode(0x97)),
    {
        self.i_alu(bus, AluOp::Sub, Reg8::A)
    }

    /// SBC A, B
    pub(crate) fn sbc_a_b_0x98(&mut self, bus: &mut Bus) -> (cycles: u8)
        requires
            old(bus)@.wf(),
        ensures
            final(bus)@.wf(),
            (*final(self), final(bus)@, cycles) == exec_spec(*old(self), old(bus)@, decode(0x98)),
    {
        self.i_alu(bus, AluOp::Sbc, Reg8::B)
    }

    /// SBC A, C
    pub(crate) fn sbc_a_c_0x99(&mut self, bus: &mut Bus) -> (cycles: u8)
        requires
            old(bus)@.wf(),
        ensures
            final(bus)@.wf(),
            (*final(self), final(bus)@, cycles) == exec_spec(*old(self), old(bus)@, decode(0x99)),
    {
        self.i_alu(bus, AluOp::Sbc, Reg8::C)
    }

    /// SBC A, D
    pub(crate) fn sbc_a_d_0x9a(&mut self, bus: &mut Bus) -> (cycles: u8)
        requires
            old(bus)@.wf(),
        ensures
            final(bus)@.wf(),
            (*final(self), final(bus)@, cycles) == exec_spec(*old(self), old(bus)@, decode(0x9A)),
    {
        self.i_alu(bus, AluOp::Sbc, Reg8::D)
    }

    /// SBC A, E
    pub(crate) fn sbc_a_e_0x9b(&mut self, bus: &mut Bus) -> (cycles: u8)
        requires
            old(bus)@.wf(),
        ensures
            final(bus)@.wf(),
            (*final(self), final(bus)@, cycles) == exec_spec(*old(self), old(bus)@, decode(0x9B)),
    {
        self.i_alu(bus, AluOp::Sbc, Reg8::E)
    }

    /// SBC A, H
    pub(crate) fn sbc_a_h_0x9c(&mut self, bus: &mut Bus) -> (cycles: u8)
        requires
            old(bus)@.wf(),
        ensures
            final(bus)@.wf(),
            (*final(self), final(bus)@, cycles) == exec_spec(*old(self), old(bus)@, decode(0x9C)),
    {
        self.i_alu(bus, AluOp::Sbc, Reg8::H)
    }

    /// SBC A, L
    pub(crate) fn sbc_a_l_0x9d(&mut self, bus: &mut Bus) -> (cycles: u8)
        requires
            old(bus)@.wf(),
        ensures
            final(bus)@.wf(),
            (*final(self), final(bus)@, cycles) == exec_spec(*old(self), old(bus)@, decode(0x9D)),
    {
        self.i_alu(bus, AluOp::Sbc, Reg8::L)
    }

    /// SBC A, (HL)
    pub(crate) fn sbc_a_hl_0x9e(&mut self, bus: &mut Bus) -> (cycles: u8)
        requires
            old(bus)@.wf(),
        ensures
            final(bus)@.wf(),
            (*final(self), final(bus)@, cycles) == exec_spec(*old(self), old(bus)@, decode(0x9E)),
    {
        self.i_alu(bus, AluOp::Sbc, Reg8::MemHl)
    }

    /// SBC A, A
    pub(crate) fn sbc_a_a_0x9f(&mut self, bus: &mut Bus) -> (cycles: u8)
        requires
            old(bus)@.wf(),
        ensures
            final(bus)@.wf(),
            (*final(self), final(bus)@, cycles) == exec_spec(*old(self), old(bus)@, decode(0x9F)),
    {
        self.i_alu(bus, AluOp::Sbc, Reg8::A)
    }

    /// AND B
    pub(crate) fn and_b_0xa0(&mut self, bus: &mut Bus) -> (cycles: u8)
        requires
            old(bus)@.wf(),
        ensures
            final(bus)@.wf(),
            (*final(self), final(bus)@, cycles) == exec_spec(*old(self), old(bus)@, decode(0xA0)),
    {
        self.i_alu(bus, AluOp::And, Reg8::B)
    }

    /// AND C
    pub(crate) fn and_c_0xa1(&mut self, bus: &mut Bus) -> (cycles: u8)
        requires
            old(bus)@.wf(),
        ensures
            final(bus)@.wf(),
            (*final(self), final(bus)@, cycles) == exec_spec(*old(self), old(bus)@, decode(0xA1)),
    {
        self.i_alu(bus, AluOp::And, Reg8::C)
    }

    /// AND D
    pub(crate) fn and_d_0xa2(&mut self, bus: &mut Bus) -> (cycles: u8)
        requires
            old(bus)@.wf(),
        ensures
            final(bus)@.wf(),
            (*final(self), final(bus)@, cycles) == exec_spec(*old(self), old(bus)@, decode(0xA2)),
    {
        self.i_alu(bus, AluOp::And, Reg8::D)
    }

    /// AND E
    pub(crate) fn and_e_0xa3(&mut self, bus: &mut Bus) -> (cycles: u8)
        requires
            old(bus)@.wf(),
        ensures
            final(bus)@.wf(),
            (*final(self), final(bus)@, cycles) == exec_spec(*old(self), old(bus)@, decode(0xA3)),
    {
        self.i_alu(bus, AluOp::And, Reg8::E)
    }

    /// AND H
    pub(crate) fn and_h_0xa4(&mut self, bus: &mut Bus) -> (cycles: u8)
        requires
            old(bus)@.wf(),
        ensures
            final(bus)@.wf(),
            (*final(self), final(bus)@, cycles) == exec_spec(*old(self), old(bus)@, decode(0xA4)),
    {
        self.i_alu(bus, AluOp::And, Reg8::H)
    }

    /// AND L
    pub(crate) fn and_l_0xa5(&mut self, bus: &mut Bus) -> (cycles: u8)
        requires
            old(bus)@.wf(),
        ensures
            final(bus)@.wf(),
            (*final(self), final(bus)@, cycles) == exec_spec(*old(self), old(bus)@, decode(0xA5)),
    {
        self.i_alu(bus, AluOp::And, Reg8::L)
    }

    /// AND (HL)
    pub(crate) fn and_hl_0xa6(&mut self, bus: &mut Bus) -> (cycles: u8)
        requires
            old(bus)@.wf(),
        ensures
            final(bus)@.wf(),
            (*final(self), final(bus)@, cycles) == exec_spec(*old(self), old(bus)@, decode(0xA6)),
    {
        self.i_alu(bus, AluOp::And, Reg8::MemHl)
    }

    /// AND A
    pub(crate) fn and_a_0xa7(&mut self, bus: &mut Bus) -> (cycles: u8)
        requires
            old(bus)@.wf(),
        ensures
            final(bus)@.wf(),
            (*final(self), final(bus)@, cycles) == exec_spec(*old(self), old(bus)@, decode(0xA7)),
    {
        self.i_alu(bus, AluOp::And, Reg8::A)
    }

    /// XOR B
    pub(crate) fn xor_b_0xa8(&mut self, bus: &mut Bus) -> (cycles: u8)
        requires
            old(bus)@.wf(),
        ensures
            final(bus)@.wf(),
            (*final(self), final(bus)@, cycles) == exec_spec(*old(self), old(bus)@, decode(0xA8)),
    {
        self.i_alu(bus, AluOp::Xor, Reg8::B)
    }

    /// XOR C
    pub(crate) fn xor_c_0xa9(&mut self, bus: &mut Bus) -> (cycles: u8)
        requires
            old(bus)@.wf(),
        ensures
            final(bus)@.wf(),
            (*final(self), final(bus)@, cycles) == exec_spec(*old(self), old(bus)@, decode(0xA9)),
    {
        self.i_alu(bus, AluOp::Xor, Reg8::C)
    }

    /// XOR D
    pub(crate) fn xor_d_0xaa(&mut self, bus: &mut Bus) -> (cycles: u8)
        requires
            old(bus)@.wf(),
        ensures
            final(bus)@.wf(),
            (*final(self), final(bus)@, cycles) == exec_spec(*old(self), old(bus)@, decode(0xAA)),
    {
        self.i_alu(bus, AluOp::Xor, Reg8::D)
    }

    /// XOR E
    pub(crate) fn xor_e_0xab(&mut self, bus: &mut Bus) -> (cycles: u8)
        requires
            old(bus)@.wf(),
        ensures
            final(bus)@.wf(),
            (*final(self), final(bus)@, cycles) == exec_spec(*old(self), old(bus)@, decode(0xAB)),
    {
        self.i_alu(bus, AluOp::Xor, Reg8::E)
    }

    /// XOR H
    pub(crate) fn xor_h_0xac(&mut self, bus: &mut Bus) -> (cycles: u8)
        requires
            old(bus)@.wf(),
        ensures
            final(bus)@.wf(),
            (*final(self), final(bus)@, cycles) == exec_spec(*old(self), old(bus)@, decode(0xAC)),
    {
        self.i_alu(bus, AluOp::Xor, Reg8::H)
    }

    /// XOR L
    pub(crate) fn xor_l_0xad(&mut self, bus: &mut Bus) -> (cycles: u8)
        requires
            old(bus)@.wf(),
        ensures
            final(bus)@.wf(),
            (*final(self), final(bus)@, cycles) == exec_spec(*old(self), old(bus)@, decode(0xAD)),
    {
        self.i_alu(bus, AluOp::Xor, Reg8::L)
    }

    /// XOR (HL)
    pub(crate) fn xor_hl_0xae(&mut self, bus: &mut Bus) -> (cycles: u8)
        requires
            old(bus)@.wf(),
        ensures
            final(bus)@.wf(),
            (*final(self), final(bus)@, cycles) == exec_spec(*old(self), old(bus)@, decode(0xAE)),
    {
        self.i_alu(bus, AluOp::Xor, Reg8::MemHl)
    }

    /// XOR A
    pub(crate) fn xor_a_0xaf(&mut self, bus: &mut Bus) -> (cycles: u8)
        requires
            old(bus)@.wf(),
        ensures
            final(bus)@.wf(),
            (*final(self), final(bus)@, cycles) == exec_spec(*old(self), old(bus)@, decode(0xAF)),
    {
        self.i_alu(bus, AluOp::Xor, Reg8::A)
    }

    /// OR B
    pub(crate) fn or_b_0xb0(&mut self, bus: &mut Bus) -> (cycles: u8)
        requires
            old(bus)@.wf(),
        ensures
            final(bus)@.wf(),
            (*final(self), final(bus)@, cycles) == exec_spec(*old(self), old(bus)@, decode(0xB0)),
    {
        self.i_alu(bus, AluOp::Or, Reg8::B)
    }

    /// OR C
    pub(crate) fn or_c_0xb1(&mut self, bus: &mut Bus) -> (cycles: u8)
        requires
            old(bus)@.wf(),
        ensures
            final(bus)@.wf(),
            (*final(self), final(bus)@, cycles) == exec_spec(*old(self), old(bus)@, decode(0xB1)),
    {
        self.i_alu(bus, AluOp::Or, Reg8::C)
    }

    /// OR D
    pub(crate) fn or_d_0xb2(&mut self, bus: &mut Bus) -> (cycles: u8)
        requires
            old(bus)@.wf(),
        ensures
            final(bus)@.wf(),
            (*final(self), final(bus)@, cycles) == exec_spec(*old(self), old(bus)@, decode(0xB2)),
    {
        self.i_alu(bus, AluOp::Or, Reg8::D)
    }

    /// OR E
    pub(crate) fn or_e_0xb3(&mut self, bus: &mut Bus) -> (cycles: u8)
        requires
            old(bus)@.wf(),
        ensures
            final(bus)@.wf(),
            (*final(self), final(bus)@, cycles) == exec_spec(*old(self), old(bus)@, decode(0xB3)),
    {
        self.i_alu(bus, AluOp::Or, Reg8::E)
    }

    /// OR H
    pub(crate) fn or_h_0xb4(&mut self, bus: &mut Bus) -> (cycles: u8)
        requires
            old(bus)@.wf(),
        ensures
            final(bus)@.wf(),
            (*final(self), final(bus)@, cycles) == exec_spec(*old(self), old(bus)@, decode(0xB4)),
    {
        self.i_alu(bus, AluOp::Or, Reg8::H)
    }

    /// OR L
    pub(crate) fn or_l_0xb5(&mut self, bus: &mut Bus) -> (cycles: u8)
        requires
            old(bus)@.wf(),
        ensures
            final(bus)@.wf(),
            (*final(self), final(bus)@, cycles) == exec_spec(*old(self), old(bus)@, decode(0xB5)),
    {
        self.i_alu(bus, AluOp::Or, Reg8::L)
    }

    /// OR (HL)
    pub(crate) fn or_hl_0xb6(&mut self, bus: &mut Bus) -> (cycles: u8)
        requires
            old(bus)@.wf(),
        ensures
            final(bus)@.wf(),
            (*final(self), final(bus)@, cycles) == exec_spec(*old(self), old(bus)@, decode(0xB6)),
    {
        self.i_alu(bus, AluOp::Or, Reg8::MemHl)
    }

    /// OR A
    pub(crate) fn or_a_0xb7(&mut self, bus: &mut Bus) -> (cycles: u8)
        requires
            old(bus)@.wf(),
        ensures
            final(bus)@.wf(),
            (*final(self), final(bus)@, cycles) == exec_spec(*old(self), old(bus)@, decode(0xB7)),
    {
        self.i_alu(bus, AluOp::Or, Reg8::A)
    }

    /// CP B
    pub(crate) fn cp_b_0xb8(&mut self, bus: &mut Bus) -> (cycles: u8)
        requires
            old(bus)@.wf(),
        ensures
            final(bus)@.wf(),
            (*final(self), final(bus)@, cycles) == exec_spec(*old(self), old(bus)@, decode(0xB8)),
    {
        self.i_alu(bus, AluOp::Cp, Reg8::B)
    }

    /// CP C
    pub(crate) fn cp_c_0xb9(&mut self, bus: &mut Bus) -> (cycles: u8)
        requires
            old(bus)@.wf(),
        ensures
            final(bus)@.wf(),
            (*final(self), final(bus)@, cycles) == exec_spec(*old(self), old(bus)@, decode(0xB9)),
    {
        self.i_alu(bus, AluOp::Cp, Reg8::C)
    }

    /// CP D
    pub(crate) fn cp_d_0xba(&mut self, bus: &mut Bus) -> (cycles: u8)
        requires
            old(bus)@.wf(),
        ensures
            final(bus)@.wf(),
            (*final(self), final(bus)@, cycles) == exec_spec(*old(self), old(bus)@, decode(0xBA)),
    {
        self.i_alu(bus, AluOp::Cp, Reg8::D)
    }

    /// CP E
    pub(crate) fn cp_e_0xbb(&mut self, bus: &mut Bus) -> (cycles: u8)
        requires
            old(bus)@.wf(),
        ensures
            final(bus)@.wf(),
            (*final(self), final(bus)@, cycles) == exec_spec(*old(self), old(bus)@, decode(0xBB)),
    {
        self.i_alu(bus, AluOp::Cp, Reg8::E)
    }

    /// CP H
    pub(crate) fn cp_h_0xbc(&mut self, bus: &mut Bus) -> (cycles: u8)
        requires
            old(bus)@.wf(),
        ensures
            final(bus)@.wf(),
            (*final(self), final(bus)@, cycles) == exec_spec(*old(self), old(bus)@, decode(0xBC)),
    {
        self.i_alu(bus, AluOp::Cp, Reg8::H)
    }

    /// CP L
    pub(crate) fn cp_l_0xbd(&mut self, bus: &mut Bus) -> (cycles: u8)
        requires
            old(bus)@.wf(),
        ensures
            final(bus)@.wf(),
            (*final(self), final(bus)@, cycles) == exec_spec(*old(self), old(bus)@, decode(0xBD)),
    {
        self.i_alu(bus, AluOp::Cp, Reg8::L)
    }

    /// CP (HL)
    pub(crate) fn cp_hl_0xbe(&mut self, bus: &mut Bus) -> (cycles: u8)
        requires
            old(bus)@.wf(),
        ensures
            final(bus)@.wf(),
            (*final(self), final(bus)@, cycles) == exec_spec(*old(self), old(bus)@, decode(0xBE)),
    {
        self.i_alu(bus, AluOp::Cp, Reg8::MemHl)
    }

    /// CP A
    pub(crate) fn cp_a_0xbf(&mut self, bus: &mut Bus) -> (cycles: u8)
        requires
            old(bus)@.wf(),
        ensures
            final(bus)@.wf(),
            (*final(self), final(bus)@, cycles) == exec_spec(*old(self), old(bus)@, decode(0xBF)),
    {
        self.i_alu(bus, AluOp::Cp, Reg8::A)
    }

    /// RET NZ
    pub(crate) fn ret_nz_0xc0(&mut self, bus: &mut Bus) -> (cycles: u8)
        requires
            old(bus)@.wf(),
        ensures
            final(bus)@.wf(),
            (*final(self), final(bus)@, cycles) == exec_spec(*old(self), old(bus)@, decode(0xC0)),
    {
        self.i_ret(bus, Cond::NZ)
    }

    /// POP BC
    pub(crate) fn pop_bc_0xc1(&mut self, bus: &mut Bus) -> (cycles: u8)
        requires
            old(bus)@.wf(),
        ensures
            final(bus)@.wf(),
            (*final(self), final(bus)@, cycles) == exec_spec(*old(self), old(bus)@, decode(0xC1)),
    {
        self.i_pop(bus, Reg16Stack::BC)
    }

    /// JP NZ, a16
    pub(crate) fn jp_nz_a16_0xc2(&mut self, bus: &mut Bus) -> (cycles: u8)
        requires
            old(bus)@.wf(),
        ensures
            final(bus)@.wf(),
            (*final(self), final(bus)@, cycles) == exec_spec(*old(self), old(bus)@, decode(0xC2)),
    {
        self.i_jp(bus, Cond::NZ)
    }

    /// JP a16
    pub(crate) fn jp_a16_0xc3(&mut self, bus: &mut Bus) -> (cycles: u8)
        requires
            old(bus)@.wf(),
        ensures
            final(bus)@.wf(),
            (*final(self), final(bus)@, cycles) == exec_spec(*old(self), old(bus)@, decode(0xC3)),
    {
        self.i_jp(bus, Cond::Always)
    }

    /// CALL NZ, a16
    pub(crate) fn call_nz_a16_0xc4(&mut self, bus: &mut Bus) -> (cycles: u8)
        requires
            old(bus)@.wf(),
        ensures
            final(bus)@.wf(),
            (*final(self), final(bus)@, cycles) == exec_spec(*old(self), old(bus)@, decode(0xC4)),
    {
        self.i_call(bus, Cond::NZ)
    }

    /// PUSH BC
    pub(crate) fn push_bc_0xc5(&mut self, bus: &mut Bus) -> (cycles: u8)
        requires
            old(bus)@.wf(),
        ensures
            final(bus)@.wf(),
            (*final(self), final(bus)@, cycles) == exec_spec(*old(self), old(bus)@, decode(0xC5)),
    {
        self.i_push(bus, Reg16Stack::BC)
    }

    /// ADD A, d8
    pub(crate) fn add_a_d8_0xc6(&mut self, bus: &mut Bus) -> (cycles: u8)
        requires
            old(bus)@.wf(),
        ensures
            final(bus)@.wf(),
            (*final(self), final(bus)@, cycles) == exec_spec(*old(self), old(bus)@, decode(0xC6)),
    {
        self.i_alu_imm(bus, AluOp::Add)
    }

    /// RST 00H
    pub(crate) fn rst_00h_0xc7(&mut self, bus: &mut Bus) -> (cycles: u8)
        requires
            old(bus)@.wf(),
        ensures
            final(bus)@.wf(),
            (*final(self), final(bus)@, cycles) == exec_spec(*old(self), old(bus)@, decode(0xC7)),
    {
        self.i_rst(bus, 0)
    }

    /// RET Z
    pub(crate) fn ret_z_0xc8(&mut self, bus: &mut Bus) -> (cycles: u8)
        requires
            old(bus)@.wf(),
        ensures
            final(bus)@.wf(),
            (*final(self), final(bus)@, cycles) == exec_spec(*old(self), old(bus)@, decode(0xC8)),
    {
        self.i_ret(bus, Cond::Z)
    }

    /// RET
    pub(crate) fn ret_0xc9(&mut self, bus: &mut Bus) -> (cycles: u8)
        requires
            old(bus)@.wf(),
        ensures
            final(bus)@.wf(),
            (*final(self), final(bus)@, cycles) == exec_spec(*old(self), old(bus)@, decode(0xC9)),
    {
        self.i_ret(bus, Cond::Always)
    }

    /// JP Z, a16
    pub(crate) fn jp_z_a16_0xca(&mut self, bus: &mut Bus) -> (cycles: u8)
        requires
            old(bus)@.wf(),
        ensures
            final(bus)@.wf(),
            (*final(self), final(bus)@, cycles) == exec_spec(*old(self), old(bus)@, decode(0xCA)),
    {
        self.i_jp(bus, Cond::Z)
    }

    /// PREFIX CB
    pub(crate) fn prefix_0xcb(&mut self, bus: &mut Bus) -> (cycles: u8)
        requires
            old(bus)@.wf(),
        ensures
            final(bus)@.wf(),
            (*final(self), final(bus)@, cycles) == exec_spec(*old(self), old(bus)@, decode(0xCB)),
    {
        self.i_prefix(bus)
    }

    /// CALL Z, a16
    pub(crate) fn call_z_a16_0xcc(&mut self, bus: &mut Bus) -> (cycles: u8)
        requires
            old(bus)@.wf(),
        ensures
            final(bus)@.wf(),
            (*final(self), final(bus)@, cycles) == exec_spec(*old(self), old(bus)@, decode(0xCC)),
    {
        self.i_call(bus, Cond::Z)
    }

    /// CALL a16
    pub(crate) fn call_a16_0xcd(&mut self, bus: &mut Bus) -> (cycles: u8)
        requires
            old(bus)@.wf(),
        ensures
            final(bus)@.wf(),
            (*final(self), final(bus)@, cycles) == exec_spec(*old(self), old(bus)@, decode(0xCD)),
    {
        self.i_call(bus, Cond::Always)
    }

    /// ADC A, d8
    pub(crate) fn adc_a_d8_0xce(&mut self, bus: &mut Bus) -> (cycles: u8)
        requires
            old(bus)@.wf(),
        ensures
            final(bus)@.wf(),
            (*final(self), final(bus)@, cycles) == exec_spec(*old(self), old(bus)@, decode(0xCE)),
    {
        self.i_alu_imm(bus, AluOp::Adc)
    }

    /// RST 08H
    pub(crate) fn rst_08h_0xcf(&mut self, bus: &mut Bus) -> (cycles: u8)
        requires
            old(bus)@.wf(),
        ensures
            final(bus)@.wf(),
            (*final(self), final(bus)@, cycles) == exec_spec(*old(self), old(bus)@, decode(0xCF)),
    {
        self.i_rst(bus, 1)
    }

    /// RET NC
    pub(crate) fn ret_nc_0xd0(&mut self, bus: &mut Bus) -> (cycles: u8)
        requires
            old(bus)@.wf(),
        ensures
            final(bus)@.wf(),
            (*final(self), final(bus)@, cycles) == exec_spec(*old(self), old(bus)@, decode(0xD0)),
    {
        self.i_ret(bus, Cond::NC)
    }

    /// POP DE
    pub(crate) fn pop_de_0xd1(&mut self, bus: &mut Bus) -> (cycles: u8)
        requires
            old(bus)@.wf(),
        ensures
            final(bus)@.wf(),
            (*final(self), final(bus)@, cycles) == exec_spec(*old(self), old(bus)@, decode(0xD1)),
    {
        self.i_pop(bus, Reg16Stack::DE)
    }

    /// JP NC, a16
    pub(crate) fn jp_nc_a16_0xd2(&mut self, bus: &mut Bus) -> (cycles: u8)
        requires
            old(bus)@.wf(),
        ensures
            final(bus)@.wf(),
            (*final(self), final(bus)@, cycles) == exec_spec(*old(self), old(bus)@, decode(0xD2)),
    {
        self.i_jp(bus, Cond::NC)
    }

    /// illegal opcode
    pub(crate) fn illegal_d3_0xd3(&mut self, bus: &mut Bus) -> (cycles: u8)
        requires
            old(bus)@.wf(),
        ensures
            final(bus)@.wf(),
            (*final(self), final(bus)@, cycles) == exec_spec(*old(self), old(bus)@, decode(0xD3)),
    {
        self.i_illegal(bus)
    }

    /// CALL NC, a16
    pub(crate) fn call_nc_a16_0xd4(&mut self, bus: &mut Bus) -> (cycles: u8)
        requires
            old(bus)@.wf(),
        ensures
            final(bus)@.wf(),
            (*final(self), final(bus)@, cycles) == exec_spec(*old(self), old(bus)@, decode(0xD4)),
    {
        self.i_call(bus, Cond::NC)
    }

    /// PUSH DE
    pub(crate) fn push_de_0xd5(&mut self, bus: &mut Bus) -> (cycles: u8)
        requires
            old(bus)@.wf(),
        ensures
            final(bus)@.wf(),
            (*final(self), final(bus)@, cycles) == exec_spec(*old(self), old(bus)@, decode(0xD5)),
    {
        self.i_push(bus, Reg16Stack::DE)
    }

    /// SUB d8
    pub(crate) fn sub_d8_0xd6(&mut self, bus: &mut Bus) -> (cycles: u8)
        requires
            old(bus)@.wf(),
        ensures
            final(bus)@.wf(),
            (*final(self), final(bus)@, cycles) == exec_spec(*old(self), old(bus)@, decode(0xD6)),
    {
        self.i_alu_imm(bus, AluOp::Sub)
    }

    /// RST 10H
    pub(crate) fn rst_10h_0xd7(&mut self, bus: &mut Bus) -> (cycles: u8)
        requires
            old(bus)@.wf(),
        ensures
            final(bus)@.wf(),
            (*final(self), final(bus)@, cycles) == exec_spec(*old(self), old(bus)@, decode(0xD7)),
    {
        self.i_rst(bus, 2)
    }

    /// RET C
    pub(crate) fn ret_c_0xd8(&mut self, bus: &mut Bus) -> (cycles: u8)
        requires
            old(bus)@.wf(),
        ensures
            final(bus)@.wf(),
            (*final(self), final(bus)@, cycles) == exec_spec(*old(self), old(bus)@, decode(0xD8)),
    {
        self.i_ret(bus, Cond::C)
    }

    /// RETI
    pub(crate) fn reti_0xd9(&mut self, bus: &mut Bus) -> (cycles: u8)
        requires
            old(bus)@.wf(),
        ensures
            final(bus)@.wf(),
            (*final(self), final(bus)@, cycles) == exec_spec(*old(self), old(bus)@, decode(0xD9)),
    {
        self.i_reti(bus)
    }

    /// JP C, a16
    pub(crate) fn jp_c_a16_0xda(&mut self, bus: &mut Bus) -> (cycles: u8)
        requires
            old(bus)@.wf(),
        ensures
            final(bus)@.wf(),
            (*final(self), final(bus)@, cycles) == exec_spec(*old(self), old(bus)@, decode(0xDA)),
    {
        self.i_jp(bus, Cond::C)
    }

    /// illegal opcode
    pub(crate) fn illegal_db_0xdb(&mut self, bus: &mut Bus) -> (cycles: u8)
        requires
            old(bus)@.wf(),
        ensures
            final(bus)@.wf(),
            (*final(self), final(bus)@, cycles) == exec_spec(*old(self), old(bus)@, decode(0xDB)),
    {
        self.i_illegal(bus)
    }

    /// CALL C, a16
    pub(crate) fn call_c_a16_0xdc(&mut self, bus: &mut Bus) -> (cycles: u8)
        requires
            old(bus)@.wf(),
        ensures
            final(bus)@.wf(),
            (*final(self), final(bus)@, cycles) == exec_spec(*old(self), old(bus)@, decode(0xDC)),
    {
        self.i_call(bus, Cond::C)
    }

    /// illegal opcode
    pub(crate) fn illegal_dd_0xdd(&mut self, bus: &mut Bus) -> (cycles: u8)
        requires
            old(bus)@.wf(),
        ensures
            final(bus)@.wf(),
            (*final(self), final(bus)@, cycles) == exec_spec(*old(self), old(bus)@, decode(0xDD)),
    {
        self.i_illegal(bus)
    }

    /// SBC A, d8
    pub(crate) fn sbc_a_d8_0xde(&mut self, bus: &mut Bus) -> (cycles: u8)
        requires
            old(bus)@.wf(),
        ensures
            final(bus)@.wf(),
            (*final(self), final(bus)@, cycles) == exec_spec(*old(self), old(bus)@, decode(0xDE)),
    {
        self.i_alu_imm(bus, AluOp::Sbc)
    }

    /// RST 18H
    pub(crate) fn rst_18h_0xdf(&mut self, bus: &mut Bus) -> (cycles: u8)
        requires
            old(bus)@.wf(),
        ensures
            final(bus)@.wf(),
            (*final(self), final(bus)@, cycles) == exec_spec(*old(self), old(bus)@, decode(0xDF)),
    {
        self.i_rst(bus, 3)
    }

    /// LDH (a8), A
    pub(crate) fn ldh_a8_a_0xe0(&mut self, bus: &mut Bus) -> (cycles: u8)
        requires
            old(bus)@.wf(),
        ensures
            final(bus)@.wf(),
            (*final(self), final(bus)@, cycles) == exec_spec(*old(self), old(bus)@, decode(0xE0)),
    {
        self.i_ldh_store(bus)
    }

    /// POP HL
    pub(crate) fn pop_hl_0xe1(&mut self, bus: &mut Bus) -> (cycles: u8)
        requires
            old(bus)@.wf(),
        ensures
            final(bus)@.wf(),
            (*final(self), final(bus)@, cycles) == exec_spec(*old(self), old(bus)@, decode(0xE1)),
    {
        self.i_pop(bus, Reg16Stack::HL)
    }

    /// LD (C), A
    pub(crate) fn ld_c_a_0xe2(&mut self, bus: &mut Bus) -> (cycles: u8)
        requires
            old(bus)@.wf(),
        ensures
            final(bus)@.wf(),
            (*final(self), final(bus)@, cycles) == exec_spec(*old(self), old(bus)@, decode(0xE2)),
    {
        self.i_ldc_store(bus)
    }

    /// illegal opcode
    pub(crate) fn illegal_e3_0xe3(&mut self, bus: &mut Bus) -> (cycles: u8)
        requires
            old(bus)@.wf(),
        ensures
            final(bus)@.wf(),
            (*final(self), final(bus)@, cycles) == exec_spec(*old(self), old(bus)@, decode(0xE3)),
    {
        self.i_illegal(bus)
    }

    /// illegal opcode
    pub(crate) fn illegal_e4_0xe4(&mut self, bus: &mut Bus) -> (cycles: u8)
        requires
            old(bus)@.wf(),
        ensures
            final(bus)@.wf(),
            (*final(self), final(bus)@, cycles) == exec_spec(*old(self), old(bus)@, decode(0xE4)),
    {
        self.i_illegal(bus)
    }

    /// PUSH HL
    pub(crate) fn push_hl_0xe5(&mut self, bus: &mut Bus) -> (cycles: u8)
        requires
            old(bus)@.wf(),
        ensures
            final(bus)@.wf(),
            (*final(self), final(bus)@, cycles) == exec_spec(*old(self), old(bus)@, decode(0xE5)),
    {
        self.i_push(bus, Reg16Stack::HL)
    }

    /// AND d8
    pub(crate) fn and_d8_0xe6(&mut self, bus: &mut Bus) -> (cycles: u8)
        requires
            old(bus)@.wf(),
        ensures
            final(bus)@.wf(),
            (*final(self), final(bus)@, cycles) == exec_spec(*old(self), old(bus)@, decode(0xE6)),
    {
        self.i_alu_imm(bus, AluOp::And)
    }

    /// RST 20H
    pub(crate) fn rst_20h_0xe7(&mut self, bus: &mut Bus) -> (cycles: u8)
        requires
            old(bus)@.wf(),
        ensures
            final(bus)@.wf(),
            (*final(self), final(bus)@, cycles) == exec_spec(*old(self), old(bus)@, decode(0xE7)),
    {
        self.i_rst(bus, 4)
    }

    /// ADD SP, r8
    pub(crate) fn add_sp_r8_0xe8(&mut self, bus: &mut Bus) -> (cycles: u8)
        requires
            old(bus)@.wf(),
        ensures
            final(bus)@.wf(),
            (*final(self), final(bus)@, cycles) == exec_spec(*old(self), old(bus)@, decode(0xE8)),
    {
        self.i_add_sp(bus)
    }

    /// JP HL
    pub(crate) fn jp_hl_0xe9(&mut self, bus: &mut Bus) -> (cycles: u8)
        requires
            old(bus)@.wf(),
        ensures
            final(bus)@.wf(),
            (*final(self), final(bus)@, cycles) == exec_spec(*old(self), old(bus)@, decode(0xE9)),
    {
        self.i_jp_hl(bus)
    }

    /// LD (a16), A
    pub(crate) fn ld_a16_a_0xea(&mut self, bus: &mut Bus) -> (cycles: u8)
        requires
            old(bus)@.wf(),
        ensures
            final(bus)@.wf(),
            (*final(self), final(bus)@, cycles) == exec_spec(*old(self), old(bus)@, decode(0xEA)),
    {
        self.i_store_abs(bus)
    }

    /// illegal opcode
    pub(crate) fn illegal_eb_0xeb(&mut self, bus: &mut Bus) -> (cycles: u8)
        requires
            old(bus)@.wf(),
        ensures
            final(bus)@.wf(),
            (*final(self), final(bus)@, cycles) == exec_spec(*old(self), old(bus)@, decode(0xEB)),
    {
        self.i_illegal(bus)
    }

    /// illegal opcode
    pub(crate) fn illegal_ec_0xec(&mut self, bus: &mut Bus) -> (cycles: u8)
        requires
            old(bus)@.wf(),
        ensures
            final(bus)@.wf(),
            (*final(self), final(bus)@, cycles) == exec_spec(*old(self), old(bus)@, decode(0xEC)),
    {
        self.i_illegal(bus)
    }

    /// illegal opcode
    pub(crate) fn illegal_ed_0xed(&mut self, bus: &mut Bus) -> (cycles: u8)
        requires
            old(bus)@.wf(),
        ensures
            final(bus)@.wf(),
            (*final(self), final(bus)@, cycles) == exec_spec(*old(self), old(bus)@, decode(0xED)),
    {
        self.i_illegal(bus)
    }

    /// XOR d8
    pub(crate) fn xor_d8_0xee(&mut self, bus: &mut Bus) -> (cycles: u8)
        requires
            old(bus)@.wf(),
        ensures
            final(bus)@.wf(),
            (*final(self), final(bus)@, cycles) == exec_spec(*old(self), old(bus)@, decode(0xEE)),
    {
        self.i_alu_imm(bus, AluOp::Xor)
    }

    /// RST 28H
    pub(crate) fn rst_28h_0xef(&mut self, bus: &mut Bus) -> (cycles: u8)
        requires
            old(bus)@.wf(),
        ensures
            final(bus)@.wf(),
            (*final(self), final(bus)@, cycles) == exec_spec(*old(self), old(bus)@, decode(0xEF)),
    {
        self.i_rst(bus, 5)
    }

    /// LDH A, (a8)
    pub(crate) fn ldh_a_a8_0xf0(&mut self, bus: &mut Bus) -> (cycles: u8)
        requires
            old(bus)@.wf(),
        ensures
            final(bus)@.wf(),
            (*final(self), final(bus)@, cycles) == exec_spec(*old(self), old(bus)@, decode(0xF0)),
    {
        self.i_ldh_load(bus)
    }

    /// POP AF
    pub(crate) fn pop_af_0xf1(&mut self, bus: &mut Bus) -> (cycles: u8)
        requires
            old(bus)@.wf(),
        ensures
            final(bus)@.wf(),
            (*final(self), final(bus)@, cycles) == exec_spec(*old(self), old(bus)@, decode(0xF1)),
    {
        self.i_pop(bus, Reg16Stack::AF)
    }

    /// LD A, (C)
    pub(crate) fn ld_a_c_0xf2(&mut self, bus: &mut Bus) -> (cycles: u8)
        requires
            old(bus)@.wf(),
        ensures
            final(bus)@.wf(),
            (*final(self), final(bus)@, cycles) == exec_spec(*old(self), old(bus)@, decode(0xF2)),
    {
        self.i_ldc_load(bus)
    }

    /// DI
    pub(crate) fn di_0xf3(&mut self, bus: &mut Bus) -> (cycles: u8)
        requires
            old(bus)@.wf(),
        ensures
            final(bus)@.wf(),
            (*final(self), final(bus)@, cycles) == exec_spec(*old(self), old(bus)@, decode(0xF3)),
    {
        self.i_di(bus)
    }

    /// illegal opcode
    pub(crate) fn illegal_f4_0xf4(&mut self, bus: &mut Bus) -> (cycles: u8)
        requires
            old(bus)@.wf(),
        ensures
            final(bus)@.wf(),
            (*final(self), final(bus)@, cycles) == exec_spec(*old(self), old(bus)@, decode(0xF4)),
    {
        self.i_illegal(bus)
    }

    /// PUSH AF
    pub(crate) fn push_af_0xf5(&mut self, bus: &mut Bus) -> (cycles: u8)
        requires
            old(bus)@.wf(),
        ensures
            final(bus)@.wf(),
            (*final(self), final(bus)@, cycles) == exec_spec(*old(self), old(bus)@, decode(0xF5)),
    {
        self.i_push(bus, Reg16Stack::AF)
    }

    /// OR d8
    pub(crate) fn or_d8_0xf6(&mut self, bus: &mut Bus) -> (cycles: u8)
        requires
            old(bus)@.wf(),
        ensures
            final(bus)@.wf(),
            (*final(self), final(bus)@, cycles) == exec_spec(*old(self), old(bus)@, decode(0xF6)),
    {
        self.i_alu_imm(bus, AluOp::Or)
    }

    /// RST 30H
    pub(crate) fn rst_30h_0xf7(&mut self, bus: &mut Bus) -> (cycles: u8)
        requires
            old(bus)@.wf(),
        ensures
            final(bus)@.wf(),
            (*final(self), final(bus)@, cycles) == exec_spec(*old(self), old(bus)@, decode(0xF7)),
    {
        self.i_rst(bus, 6)
    }

    /// LD HL, SP+r8
    pub(crate) fn ld_hl_sp_r8_0xf8(&mut self, bus: &mut Bus) -> (cycles: u8)
        requires
            old(bus)@.wf(),
        ensures
            final(bus)@.wf(),
            (*final(self), final(bus)@, cycles) == exec_spec(*old(self), old(bus)@, decode(0xF8)),
    {
        self.i_ld_hl_sp(bus)
    }

    /// LD SP, HL
    pub(crate) fn ld_sp_hl_0xf9(&mut self, bus: &mut Bus) -> (cycles: u8)
        requires
            old(bus)@.wf(),
        ensures
            final(bus)@.wf(),
            (*final(self), final(bus)@, cycles) == exec_spec(*old(self), old(bus)@, decode(0xF9)),
    {
        self.i_ld_sp_hl(bus)
    }

    /// LD A, (a16)
    pub(crate) fn ld_a_a16_0xfa(&mut self, bus: &mut Bus) -> (cycles: u8)
        requires
            old(bus)@.wf(),
        ensures
            final(bus)@.wf(),
            (*final(self), final(bus)@, cycles) == exec_spec(*old(self), old(bus)@, decode(0xFA)),
    {
        self.i_load_abs(bus)
    }

    /// EI
    pub(crate) fn ei_0xfb(&mut self, bus: &mut Bus) -> (cycles: u8)
        requires
            old(bus)@.wf(),
        ensures
            final(bus)@.wf(),
            (*final(self), final(bus)@, cycles) == exec_spec(*old(self), old(bus)@, decode(0xFB)),
    {
        self.i_ei(bus)
    }

    /// illegal opcode
    pub(crate) fn illegal_fc_0xfc(&mut self, bus: &mut Bus) -> (cycles: u8)
        requires
            old(bus)@.wf(),
        ensures
            final(bus)@.wf(),
            (*final(self), final(bus)@, cycles) == exec_spec(*old(self), old(bus)@, decode(0xFC)),
    {
        self.i_illegal(bus)
    }

    /// illegal opcode
    pub(crate) fn illegal_fd_0xfd(&mut self, bus: &mut Bus) -> (cycles: u8)
        requires
            old(bus)@.wf(),
        ensures
            final(bus)@.wf(),
            (*final(self), final(bus)@, cycles) == exec_spec(*old(self), old(bus)@, decode(0xFD)),
    {
        self.i_illegal(bus)
    }

    /// CP d8
    pub(crate) fn cp_d8_0xfe(&mut self, bus: &mut Bus) -> (cycles: u8)
        requires
            old(bus)@.wf(),
        ensures
            final(bus)@.wf(),
            (*final(self), final(bus)@, cycles) == exec_spec(*old(self), old(bus)@, decode(0xFE)),
    {
        self.i_alu_imm(bus, AluOp::Cp)
    }

    /// RST 38H
    pub(crate) fn rst_38h_0xff(&mut self, bus: &mut Bus) -> (cycles: u8)
        requires
            old(bus)@.wf(),
        ensures
            final(bus)@.wf(),
            (*final(self), final(bus)@, cycles) == exec_spec(*old(self), old(bus)@, decode(0xFF)),
    {
        self.i_rst(bus, 7)
    }

}

} // verus!
