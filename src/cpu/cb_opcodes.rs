//! The CB-prefixed opcode table: rotates, shifts and bit operations.
use vstd::prelude::*;

use super::semantics::{decode_cb, exec_cb_spec, Reg8, ShiftOp};
use super::CPU;
use crate::bus::Bus;

verus! {

impl CPU {
    /// Runs the instruction of opcode `opcode` of this table, with PC
    /// already past the opcode.
    pub fn execute_cb(&mut self, bus: &mut Bus, opcode: u8) -> (cycles: u8)
        requires
            old(bus)@.wf(),
        ensures
            final(bus)@.wf(),
            (*final(self), final(bus)@, cycles) == exec_cb_spec(*old(self), old(bus)@, decode_cb(opcode)),
    {
        match opcode {
            0x00 => self.rlc_b_0xcb00(bus),
            0x01 => self.rlc_c_0xcb01(bus),
            0x02 => self.rlc_d_0xcb02(bus),
            0x03 => self.rlc_e_0xcb03(bus),
            0x04 => self.rlc_h_0xcb04(bus),
            0x05 => self.rlc_l_0xcb05(bus),
            0x06 => self.rlc_hl_0xcb06(bus),
            0x07 => self.rlc_a_0xcb07(bus),
            0x08 => self.rrc_b_0xcb08(bus),
            0x09 => self.rrc_c_0xcb09(bus),
            0x0A => self.rrc_d_0xcb0a(bus),
            0x0B => self.rrc_e_0xcb0b(bus),
            0x0C => self.rrc_h_0xcb0c(bus),
            0x0D => self.rrc_l_0xcb0d(bus),
            0x0E => self.rrc_hl_0xcb0e(bus),
            0x0F => self.rrc_a_0xcb0f(bus),
            0x10 => self.rl_b_0xcb10(bus),
            0x11 => self.rl_c_0xcb11(bus),
            0x12 => self.rl_d_0xcb12(bus),
            0x13 => self.rl_e_0xcb13(bus),
            0x14 => self.rl_h_0xcb14(bus),
            0x15 => self.rl_l_0xcb15(bus),
            0x16 => self.rl_hl_0xcb16(bus),
            0x17 => self.rl_a_0xcb17(bus),
            0x18 => self.rr_b_0xcb18(bus),
            0x19 => self.rr_c_0xcb19(bus),
            0x1A => self.rr_d_0xcb1a(bus),
            0x1B => self.rr_e_0xcb1b(bus),
            0x1C => self.rr_h_0xcb1c(bus),
            0x1D => self.rr_l_0xcb1d(bus),
            0x1E => self.rr_hl_0xcb1e(bus),
            0x1F => self.rr_a_0xcb1f(bus),
            0x20 => self.sla_b_0xcb20(bus),
            0x21 => self.sla_c_0xcb21(bus),
            0x22 => self.sla_d_0xcb22(bus),
            0x23 => self.sla_e_0xcb23(bus),
            0x24 => self.sla_h_0xcb24(bus),
            0x25 => self.sla_l_0xcb25(bus),
            0x26 => self.sla_hl_0xcb26(bus),
            0x27 => self.sla_a_0xcb27(bus),
            0x28 => self.sra_b_0xcb28(bus),
            0x29 => self.sra_c_0xcb29(bus),
            0x2A => self.sra_d_0xcb2a(bus),
            0x2B => self.sra_e_0xcb2b(bus),
            0x2C => self.sra_h_0xcb2c(bus),
            0x2D => self.sra_l_0xcb2d(bus),
            0x2E => self.sra_hl_0xcb2e(bus),
            0x2F => self.sra_a_0xcb2f(bus),
            0x30 => self.swap_b_0xcb30(bus),
            0x31 => self.swap_c_0xcb31(bus),
            0x32 => self.swap_d_0xcb32(bus),
            0x33 => self.swap_e_0xcb33(bus),
            0x34 => self.swap_h_0xcb34(bus),
            0x35 => self.swap_l_0xcb35(bus),
            0x36 => self.swap_hl_0xcb36(bus),
            0x37 => self.swap_a_0xcb37(bus),
            0x38 => self.srl_b_0xcb38(bus),
            0x39 => self.srl_c_0xcb39(bus),
            0x3A => self.srl_d_0xcb3a(bus),
            0x3B => self.srl_e_0xcb3b(bus),
            0x3C => self.srl_h_0xcb3c(bus),
            0x3D => self.srl_l_0xcb3d(bus),
            0x3E => self.srl_hl_0xcb3e(bus),
            0x3F => self.srl_a_0xcb3f(bus),
            0x40 => self.bit_0_b_0xcb40(bus),
            0x41 => self.bit_0_c_0xcb41(bus),
            0x42 => self.bit_0_d_0xcb42(bus),
            0x43 => self.bit_0_e_0xcb43(bus),
            0x44 => self.bit_0_h_0xcb44(bus),
            0x45 => self.bit_0_l_0xcb45(bus),
            0x46 => self.bit_0_hl_0xcb46(bus),
            0x47 => self.bit_0_a_0xcb47(bus),
            0x48 => self.bit_1_b_0xcb48(bus),
            0x49 => self.bit_1_c_0xcb49(bus),
            0x4A => self.bit_1_d_0xcb4a(bus),
            0x4B => self.bit_1_e_0xcb4b(bus),
            0x4C => self.bit_1_h_0xcb4c(bus),
            0x4D => self.bit_1_l_0xcb4d(bus),
            0x4E => self.bit_1_hl_0xcb4e(bus),
            0x4F => self.bit_1_a_0xcb4f(bus),
            0x50 => self.bit_2_b_0xcb50(bus),
            0x51 => self.bit_2_c_0xcb51(bus),
            0x52 => self.bit_2_d_0xcb52(bus),
            0x53 => self.bit_2_e_0xcb53(bus),
            0x54 => self.bit_2_h_0xcb54(bus),
            0x55 => self.bit_2_l_0xcb55(bus),
            0x56 => self.bit_2_hl_0xcb56(bus),
            0x57 => self.bit_2_a_0xcb57(bus),
            0x58 => self.bit_3_b_0xcb58(bus),
            0x59 => self.bit_3_c_0xcb59(bus),
            0x5A => self.bit_3_d_0xcb5a(bus),
            0x5B => self.bit_3_e_0xcb5b(bus),
            0x5C => self.bit_3_h_0xcb5c(bus),
            0x5D => self.bit_3_l_0xcb5d(bus),
            0x5E => self.bit_3_hl_0xcb5e(bus),
            0x5F => self.bit_3_a_0xcb5f(bus),
            0x60 => self.bit_4_b_0xcb60(bus),
            0x61 => self.bit_4_c_0xcb61(bus),
            0x62 => self.bit_4_d_0xcb62(bus),
            0x63 => self.bit_4_e_0xcb63(bus),
            0x64 => self.bit_4_h_0xcb64(bus),
            0x65 => self.bit_4_l_0xcb65(bus),
            0x66 => self.bit_4_hl_0xcb66(bus),
            0x67 => self.bit_4_a_0xcb67(bus),
            0x68 => self.bit_5_b_0xcb68(bus),
            0x69 => self.bit_5_c_0xcb69(bus),
            0x6A => self.bit_5_d_0xcb6a(bus),
            0x6B => self.bit_5_e_0xcb6b(bus),
            0x6C => self.bit_5_h_0xcb6c(bus),
            0x6D => self.bit_5_l_0xcb6d(bus),
            0x6E => self.bit_5_hl_0xcb6e(bus),
            0x6F => self.bit_5_a_0xcb6f(bus),
            0x70 => self.bit_6_b_0xcb70(bus),
            0x71 => self.bit_6_c_0xcb71(bus),
            0x72 => self.bit_6_d_0xcb72(bus),
            0x73 => self.bit_6_e_0xcb73(bus),
            0x74 => self.bit_6_h_0xcb74(bus),
            0x75 => self.bit_6_l_0xcb75(bus),
            0x76 => self.bit_6_hl_0xcb76(bus),
            0x77 => self.bit_6_a_0xcb77(bus),
            0x78 => self.bit_7_b_0xcb78(bus),
            0x79 => self.bit_7_c_0xcb79(bus),
            0x7A => self.bit_7_d_0xcb7a(bus),
            0x7B => self.bit_7_e_0xcb7b(bus),
            0x7C => self.bit_7_h_0xcb7c(bus),
            0x7D => self.bit_7_l_0xcb7d(bus),
            0x7E => self.bit_7_hl_0xcb7e(bus),
            0x7F => self.bit_7_a_0xcb7f(bus),
            0x80 => self.res_0_b_0xcb80(bus),
            0x81 => self.res_0_c_0xcb81(bus),
            0x82 => self.res_0_d_0xcb82(bus),
            0x83 => self.res_0_e_0xcb83(bus),
            0x84 => self.res_0_h_0xcb84(bus),
            0x85 => self.res_0_l_0xcb85(bus),
            0x86 => self.res_0_hl_0xcb86(bus),
            0x87 => self.res_0_a_0xcb87(bus),
            0x88 => self.res_1_b_0xcb88(bus),
            0x89 => self.res_1_c_0xcb89(bus),
            0x8A => self.res_1_d_0xcb8a(bus),
            0x8B => self.res_1_e_0xcb8b(bus),
            0x8C => self.res_1_h_0xcb8c(bus),
            0x8D => self.res_1_l_0xcb8d(bus),
            0x8E => self.res_1_hl_0xcb8e(bus),
            0x8F => self.res_1_a_0xcb8f(bus),
            0x90 => self.res_2_b_0xcb90(bus),
            0x91 => self.res_2_c_0xcb91(bus),
            0x92 => self.res_2_d_0xcb92(bus),
            0x93 => self.res_2_e_0xcb93(bus),
            0x94 => self.res_2_h_0xcb94(bus),
            0x95 => self.res_2_l_0xcb95(bus),
            0x96 => self.res_2_hl_0xcb96(bus),
            0x97 => self.res_2_a_0xcb97(bus),
            0x98 => self.res_3_b_0xcb98(bus),
            0x99 => self.res_3_c_0xcb99(bus),
            0x9A => self.res_3_d_0xcb9a(bus),
            0x9B => self.res_3_e_0xcb9b(bus),
            0x9C => self.res_3_h_0xcb9c(bus),
            0x9D => self.res_3_l_0xcb9d(bus),
            0x9E => self.res_3_hl_0xcb9e(bus),
            0x9F => self.res_3_a_0xcb9f(bus),
            0xA0 => self.res_4_b_0xcba0(bus),
            0xA1 => self.res_4_c_0xcba1(bus),
            0xA2 => self.res_4_d_0xcba2(bus),
            0xA3 => self.res_4_e_0xcba3(bus),
            0xA4 => self.res_4_h_0xcba4(bus),
            0xA5 => self.res_4_l_0xcba5(bus),
            0xA6 => self.res_4_hl_0xcba6(bus),
            0xA7 => self.res_4_a_0xcba7(bus),
            0xA8 => self.res_5_b_0xcba8(bus),
            0xA9 => self.res_5_c_0xcba9(bus),
            0xAA => self.res_5_d_0xcbaa(bus),
            0xAB => self.res_5_e_0xcbab(bus),
            0xAC => self.res_5_h_0xcbac(bus),
            0xAD => self.res_5_l_0xcbad(bus),
            0xAE => self.res_5_hl_0xcbae(bus),
            0xAF => self.res_5_a_0xcbaf(bus),
            0xB0 => self.res_6_b_0xcbb0(bus),
            0xB1 => self.res_6_c_0xcbb1(bus),
            0xB2 => self.res_6_d_0xcbb2(bus),
            0xB3 => self.res_6_e_0xcbb3(bus),
            0xB4 => self.res_6_h_0xcbb4(bus),
            0xB5 => self.res_6_l_0xcbb5(bus),
            0xB6 => self.res_6_hl_0xcbb6(bus),
            0xB7 => self.res_6_a_0xcbb7(bus),
            0xB8 => self.res_7_b_0xcbb8(bus),
            0xB9 => self.res_7_c_0xcbb9(bus),
            0xBA => self.res_7_d_0xcbba(bus),
            0xBB => self.res_7_e_0xcbbb(bus),
            0xBC => self.res_7_h_0xcbbc(bus),
            0xBD => self.res_7_l_0xcbbd(bus),
            0xBE => self.res_7_hl_0xcbbe(bus),
            0xBF => self.res_7_a_0xcbbf(bus),
            0xC0 => self.set_0_b_0xcbc0(bus),
            0xC1 => self.set_0_c_0xcbc1(bus),
            0xC2 => self.set_0_d_0xcbc2(bus),
            0xC3 => self.set_0_e_0xcbc3(bus),
            0xC4 => self.set_0_h_0xcbc4(bus),
            0xC5 => self.set_0_l_0xcbc5(bus),
            0xC6 => self.set_0_hl_0xcbc6(bus),
            0xC7 => self.set_0_a_0xcbc7(bus),
            0xC8 => self.set_1_b_0xcbc8(bus),
            0xC9 => self.set_1_c_0xcbc9(bus),
            0xCA => self.set_1_d_0xcbca(bus),
            0xCB => self.set_1_e_0xcbcb(bus),
            0xCC => self.set_1_h_0xcbcc(bus),
            0xCD => self.set_1_l_0xcbcd(bus),
            0xCE => self.set_1_hl_0xcbce(bus),
            0xCF => self.set_1_a_0xcbcf(bus),
            0xD0 => self.set_2_b_0xcbd0(bus),
            0xD1 => self.set_2_c_0xcbd1(bus),
            0xD2 => self.set_2_d_0xcbd2(bus),
            0xD3 => self.set_2_e_0xcbd3(bus),
            0xD4 => self.set_2_h_0xcbd4(bus),
            0xD5 => self.set_2_l_0xcbd5(bus),
            0xD6 => self.set_2_hl_0xcbd6(bus),
            0xD7 => self.set_2_a_0xcbd7(bus),
            0xD8 => self.set_3_b_0xcbd8(bus),
            0xD9 => self.set_3_c_0xcbd9(bus),
            0xDA => self.set_3_d_0xcbda(bus),
            0xDB => self.set_3_e_0xcbdb(bus),
            0xDC => self.set_3_h_0xcbdc(bus),
            0xDD => self.set_3_l_0xcbdd(bus),
            0xDE => self.set_3_hl_0xcbde(bus),
            0xDF => self.set_3_a_0xcbdf(bus),
            0xE0 => self.set_4_b_0xcbe0(bus),
            0xE1 => self.set_4_c_0xcbe1(bus),
            0xE2 => self.set_4_d_0xcbe2(bus),
            0xE3 => self.set_4_e_0xcbe3(bus),
            0xE4 => self.set_4_h_0xcbe4(bus),
            0xE5 => self.set_4_l_0xcbe5(bus),
            0xE6 => self.set_4_hl_0xcbe6(bus),
            0xE7 => self.set_4_a_0xcbe7(bus),
            0xE8 => self.set_5_b_0xcbe8(bus),
            0xE9 => self.set_5_c_0xcbe9(bus),
            0xEA => self.set_5_d_0xcbea(bus),
            0xEB => self.set_5_e_0xcbeb(bus),
            0xEC => self.set_5_h_0xcbec(bus),
            0xED => self.set_5_l_0xcbed(bus),
            0xEE => self.set_5_hl_0xcbee(bus),
            0xEF => self.set_5_a_0xcbef(bus),
            0xF0 => self.set_6_b_0xcbf0(bus),
            0xF1 => self.set_6_c_0xcbf1(bus),
            0xF2 => self.set_6_d_0xcbf2(bus),
            0xF3 => self.set_6_e_0xcbf3(bus),
            0xF4 => self.set_6_h_0xcbf4(bus),
            0xF5 => self.set_6_l_0xcbf5(bus),
            0xF6 => self.set_6_hl_0xcbf6(bus),
            0xF7 => self.set_6_a_0xcbf7(bus),
            0xF8 => self.set_7_b_0xcbf8(bus),
            0xF9 => self.set_7_c_0xcbf9(bus),
            0xFA => self.set_7_d_0xcbfa(bus),
            0xFB => self.set_7_e_0xcbfb(bus),
            0xFC => self.set_7_h_0xcbfc(bus),
            0xFD => self.set_7_l_0xcbfd(bus),
            0xFE => self.set_7_hl_0xcbfe(bus),
            0xFF => self.set_7_a_0xcbff(bus),
        }
    }

    /// RLC B
    pub(crate) fn rlc_b_0xcb00(&mut self, bus: &mut Bus) -> (cycles: u8)
        requires
            old(bus)@.wf(),
        ensures
            final(bus)@.wf(),
            (*final(self), final(bus)@, cycles) == exec_cb_spec(*old(self), old(bus)@, decode_cb(0x00)),
    {
        self.i_shift(bus, ShiftOp::Rlc, Reg8::B)
    }

    /// RLC C
    pub(crate) fn rlc_c_0xcb01(&mut self, bus: &mut Bus) -> (cycles: u8)
        requires
            old(bus)@.wf(),
        ensures
            final(bus)@.wf(),
            (*final(self), final(bus)@, cycles) == exec_cb_spec(*old(self), old(bus)@, decode_cb(0x01)),
    {
        self.i_shift(bus, ShiftOp::Rlc, Reg8::C)
    }

    /// RLC D
    pub(crate) fn rlc_d_0xcb02(&mut self, bus: &mut Bus) -> (cycles: u8)
        requires
            old(bus)@.wf(),
        ensures
            final(bus)@.wf(),
            (*final(self), final(bus)@, cycles) == exec_cb_spec(*old(self), old(bus)@, decode_cb(0x02)),
    {
        self.i_shift(bus, ShiftOp::Rlc, Reg8::D)
    }

    /// RLC E
    pub(crate) fn rlc_e_0xcb03(&mut self, bus: &mut Bus) -> (cycles: u8)
        requires
            old(bus)@.wf(),
        ensures
            final(bus)@.wf(),
            (*final(self), final(bus)@, cycles) == exec_cb_spec(*old(self), old(bus)@, decode_cb(0x03)),
    {
        self.i_shift(bus, ShiftOp::Rlc, Reg8::E)
    }

    /// RLC H
    pub(crate) fn rlc_h_0xcb04(&mut self, bus: &mut Bus) -> (cycles: u8)
        requires
            old(bus)@.wf(),
        ensures
            final(bus)@.wf(),
            (*final(self), final(bus)@, cycles) == exec_cb_spec(*old(self), old(bus)@, decode_cb(0x04)),
    {
        self.i_shift(bus, ShiftOp::Rlc, Reg8::H)
    }

    /// RLC L
    pub(crate) fn rlc_l_0xcb05(&mut self, bus: &mut Bus) -> (cycles: u8)
        requires
            old(bus)@.wf(),
        ensures
            final(bus)@.wf(),
            (*final(self), final(bus)@, cycles) == exec_cb_spec(*old(self), old(bus)@, decode_cb(0x05)),
    {
        self.i_shift(bus, ShiftOp::Rlc, Reg8::L)
    }

    /// RLC (HL)
    pub(crate) fn rlc_hl_0xcb06(&mut self, bus: &mut Bus) -> (cycles: u8)
        requires
            old(bus)@.wf(),
        ensures
            final(bus)@.wf(),
            (*final(self), final(bus)@, cycles) == exec_cb_spec(*old(self), old(bus)@, decode_cb(0x06)),
    {
        self.i_shift(bus, ShiftOp::Rlc, Reg8::MemHl)
    }

    /// RLC A
    pub(crate) fn rlc_a_0xcb07(&mut self, bus: &mut Bus) -> (cycles: u8)
        requires
            old(bus)@.wf(),
        ensures
            final(bus)@.wf(),
            (*final(self), final(bus)@, cycles) == exec_cb_spec(*old(self), old(bus)@, decode_cb(0x07)),
    {
        self.i_shift(bus, ShiftOp::Rlc, Reg8::A)
    }

    /// RRC B
    pub(crate) fn rrc_b_0xcb08(&mut self, bus: &mut Bus) -> (cycles: u8)
        requires
            old(bus)@.wf(),
        ensures
            final(bus)@.wf(),
            (*final(self), final(bus)@, cycles) == exec_cb_spec(*old(self), old(bus)@, decode_cb(0x08)),
    {
        self.i_shift(bus, ShiftOp::Rrc, Reg8::B)
    }

    /// RRC C
    pub(crate) fn rrc_c_0xcb09(&mut self, bus: &mut Bus) -> (cycles: u8)
        requires
            old(bus)@.wf(),
        ensures
            final(bus)@.wf(),
            (*final(self), final(bus)@, cycles) == exec_cb_spec(*old(self), old(bus)@, decode_cb(0x09)),
    {
        self.i_shift(bus, ShiftOp::Rrc, Reg8::C)
    }

    /// RRC D
    pub(crate) fn rrc_d_0xcb0a(&mut self, bus: &mut Bus) -> (cycles: u8)
        requires
            old(bus)@.wf(),
        ensures
            final(bus)@.wf(),
            (*final(self), final(bus)@, cycles) == exec_cb_spec(*old(self), old(bus)@, decode_cb(0x0A)),
    {
        self.i_shift(bus, ShiftOp::Rrc, Reg8::D)
    }

    /// RRC E
    pub(crate) fn rrc_e_0xcb0b(&mut self, bus: &mut Bus) -> (cycles: u8)
        requires
            old(bus)@.wf(),
        ensures
            final(bus)@.wf(),
            (*final(self), final(bus)@, cycles) == exec_cb_spec(*old(self), old(bus)@, decode_cb(0x0B)),
    {
        self.i_shift(bus, ShiftOp::Rrc, Reg8::E)
    }

    /// RRC H
    pub(crate) fn rrc_h_0xcb0c(&mut self, bus: &mut Bus) -> (cycles: u8)
        requires
            old(bus)@.wf(),
        ensures
            final(bus)@.wf(),
            (*final(self), final(bus)@, cycles) == exec_cb_spec(*old(self), old(bus)@, decode_cb(0x0C)),
    {
        self.i_shift(bus, ShiftOp::Rrc, Reg8::H)
    }

    /// RRC L
    pub(crate) fn rrc_l_0xcb0d(&mut self, bus: &mut Bus) -> (cycles: u8)
        requires
            old(bus)@.wf(),
        ensures
            final(bus)@.wf(),
            (*final(self), final(bus)@, cycles) == exec_cb_spec(*old(self), old(bus)@, decode_cb(0x0D)),
    {
        self.i_shift(bus, ShiftOp::Rrc, Reg8::L)
    }

    /// RRC (HL)
    pub(crate) fn rrc_hl_0xcb0e(&mut self, bus: &mut Bus) -> (cycles: u8)
        requires
            old(bus)@.wf(),
        ensures
            final(bus)@.wf(),
            (*final(self), final(bus)@, cycles) == exec_cb_spec(*old(self), old(bus)@, decode_cb(0x0E)),
    {
        self.i_shift(bus, ShiftOp::Rrc, Reg8::MemHl)
    }

    /// RRC A
    pub(crate) fn rrc_a_0xcb0f(&mut self, bus: &mut Bus) -> (cycles: u8)
        requires
            old(bus)@.wf(),
        ensures
            final(bus)@.wf(),
            (*final(self), final(bus)@, cycles) == exec_cb_spec(*old(self), old(bus)@, decode_cb(0x0F)),
    {
        self.i_shift(bus, ShiftOp::Rrc, Reg8::A)
    }

    /// RL B
    pub(crate) fn rl_b_0xcb10(&mut self, bus: &mut Bus) -> (cycles: u8)
        requires
            old(bus)@.wf(),
        ensures
            final(bus)@.wf(),
            (*final(self), final(bus)@, cycles) == exec_cb_spec(*old(self), old(bus)@, decode_cb(0x10)),
    {
        self.i_shift(bus, ShiftOp::Rl, Reg8::B)
    }

    /// RL C
    pub(crate) fn rl_c_0xcb11(&mut self, bus: &mut Bus) -> (cycles: u8)
        requires
            old(bus)@.wf(),
        ensures
            final(bus)@.wf(),
            (*final(self), final(bus)@, cycles) == exec_cb_spec(*old(self), old(bus)@, decode_cb(0x11)),
    {
        self.i_shift(bus, ShiftOp::Rl, Reg8::C)
    }

    /// RL D
    pub(crate) fn rl_d_0xcb12(&mut self, bus: &mut Bus) -> (cycles: u8)
        requires
            old(bus)@.wf(),
        ensures
            final(bus)@.wf(),
            (*final(self), final(bus)@, cycles) == exec_cb_spec(*old(self), old(bus)@, decode_cb(0x12)),
    {
        self.i_shift(bus, ShiftOp::Rl, Reg8::D)
    }

    /// RL E
    pub(crate) fn rl_e_0xcb13(&mut self, bus: &mut Bus) -> (cycles: u8)
        requires
            old(bus)@.wf(),
        ensures
            final(bus)@.wf(),
            (*final(self), final(bus)@, cycles) == exec_cb_spec(*old(self), old(bus)@, decode_cb(0x13)),
    {
        self.i_shift(bus, ShiftOp::Rl, Reg8::E)
    }

    /// RL H
    pub(crate) fn rl_h_0xcb14(&mut self, bus: &mut Bus) -> (cycles: u8)
        requires
            old(bus)@.wf(),
        ensures
            final(bus)@.wf(),
            (*final(self), final(bus)@, cycles) == exec_cb_spec(*old(self), old(bus)@, decode_cb(0x14)),
    {
        self.i_shift(bus, ShiftOp::Rl, Reg8::H)
    }

    /// RL L
    pub(crate) fn rl_l_0xcb15(&mut self, bus: &mut Bus) -> (cycles: u8)
        requires
            old(bus)@.wf(),
        ensures
            final(bus)@.wf(),
            (*final(self), final(bus)@, cycles) == exec_cb_spec(*old(self), old(bus)@, decode_cb(0x15)),
    {
        self.i_shift(bus, ShiftOp::Rl, Reg8::L)
    }

    /// RL (HL)
    pub(crate) fn rl_hl_0xcb16(&mut self, bus: &mut Bus) -> (cycles: u8)
        requires
            old(bus)@.wf(),
        ensures
            final(bus)@.wf(),
            (*final(self), final(bus)@, cycles) == exec_cb_spec(*old(self), old(bus)@, decode_cb(0x16)),
    {
        self.i_shift(bus, ShiftOp::Rl, Reg8::MemHl)
    }

    /// RL A
    pub(crate) fn rl_a_0xcb17(&mut self, bus: &mut Bus) -> (cycles: u8)
        requires
            old(bus)@.wf(),
        ensures
            final(bus)@.wf(),
            (*final(self), final(bus)@, cycles) == exec_cb_spec(*old(self), old(bus)@, decode_cb(0x17)),
    {
        self.i_shift(bus, ShiftOp::Rl, Reg8::A)
    }

    /// RR B
    pub(crate) fn rr_b_0xcb18(&mut self, bus: &mut Bus) -> (cycles: u8)
        requires
            old(bus)@.wf(),
        ensures
            final(bus)@.wf(),
            (*final(self), final(bus)@, cycles) == exec_cb_spec(*old(self), old(bus)@, decode_cb(0x18)),
    {
        self.i_shift(bus, ShiftOp::Rr, Reg8::B)
    }

    /// RR C
    pub(crate) fn rr_c_0xcb19(&mut self, bus: &mut Bus) -> (cycles: u8)
        requires
            old(bus)@.wf(),
        ensures
            final(bus)@.wf(),
            (*final(self), final(bus)@, cycles) == exec_cb_spec(*old(self), old(bus)@, decode_cb(0x19)),
    {
        self.i_shift(bus, ShiftOp::Rr, Reg8::C)
    }

    /// RR D
    pub(crate) fn rr_d_0xcb1a(&mut self, bus: &mut Bus) -> (cycles: u8)
        requires
            old(bus)@.wf(),
        ensures
            final(bus)@.wf(),
            (*final(self), final(bus)@, cycles) == exec_cb_spec(*old(self), old(bus)@, decode_cb(0x1A)),
    {
        self.i_shift(bus, ShiftOp::Rr, Reg8::D)
    }

    /// RR E
    pub(crate) fn rr_e_0xcb1b(&mut self, bus: &mut Bus) -> (cycles: u8)
        requires
            old(bus)@.wf(),
        ensures
            final(bus)@.wf(),
            (*final(self), final(bus)@, cycles) == exec_cb_spec(*old(self), old(bus)@, decode_cb(0x1B)),
    {
        self.i_shift(bus, ShiftOp::Rr, Reg8::E)
    }

    /// RR H
    pub(crate) fn rr_h_0xcb1c(&mut self, bus: &mut Bus) -> (cycles: u8)
        requires
            old(bus)@.wf(),
        ensures
            final(bus)@.wf(),
            (*final(self), final(bus)@, cycles) == exec_cb_spec(*old(self), old(bus)@, decode_cb(0x1C)),
    {
        self.i_shift(bus, ShiftOp::Rr, Reg8::H)
    }

    /// RR L
    pub(crate) fn rr_l_0xcb1d(&mut self, bus: &mut Bus) -> (cycles: u8)
        requires
            old(bus)@.wf(),
        ensures
            final(bus)@.wf(),
            (*final(self), final(bus)@, cycles) == exec_cb_spec(*old(self), old(bus)@, decode_cb(0x1D)),
    {
        self.i_shift(bus, ShiftOp::Rr, Reg8::L)
    }

    /// RR (HL)
    pub(crate) fn rr_hl_0xcb1e(&mut self, bus: &mut Bus) -> (cycles: u8)
        requires
            old(bus)@.wf(),
        ensures
            final(bus)@.wf(),
            (*final(self), final(bus)@, cycles) == exec_cb_spec(*old(self), old(bus)@, decode_cb(0x1E)),
    {
        self.i_shift(bus, ShiftOp::Rr, Reg8::MemHl)
    }

    /// RR A
    pub(crate) fn rr_a_0xcb1f(&mut self, bus: &mut Bus) -> (cycles: u8)
        requires
            old(bus)@.wf(),
        ensures
            final(bus)@.wf(),
            (*final(self), final(bus)@, cycles) == exec_cb_spec(*old(self), old(bus)@, decode_cb(0x1F)),
    {
        self.i_shift(bus, ShiftOp::Rr, Reg8::A)
    }

    /// SLA B
    pub(crate) fn sla_b_0xcb20(&mut self, bus: &mut Bus) -> (cycles: u8)
        requires
            old(bus)@.wf(),
        ensures
            final(bus)@.wf(),
            (*final(self), final(bus)@, cycles) == exec_cb_spec(*old(self), old(bus)@, decode_cb(0x20)),
    {
        self.i_shift(bus, ShiftOp::Sla, Reg8::B)
    }

    /// SLA C
    pub(crate) fn sla_c_0xcb21(&mut self, bus: &mut Bus) -> (cycles: u8)
        requires
            old(bus)@.wf(),
        ensures
            final(bus)@.wf(),
            (*final(self), final(bus)@, cycles) == exec_cb_spec(*old(self), old(bus)@, decode_cb(0x21)),
    {
        self.i_shift(bus, ShiftOp::Sla, Reg8::C)
    }

    /// SLA D
    pub(crate) fn sla_d_0xcb22(&mut self, bus: &mut Bus) -> (cycles: u8)
        requires
            old(bus)@.wf(),
        ensures
            final(bus)@.wf(),
            (*final(self), final(bus)@, cycles) == exec_cb_spec(*old(self), old(bus)@, decode_cb(0x22)),
    {
        self.i_shift(bus, ShiftOp::Sla, Reg8::D)
    }

    /// SLA E
    pub(crate) fn sla_e_0xcb23(&mut self, bus: &mut Bus) -> (cycles: u8)
        requires
            old(bus)@.wf(),
        ensures
            final(bus)@.wf(),
            (*final(self), final(bus)@, cycles) == exec_cb_spec(*old(self), old(bus)@, decode_cb(0x23)),
    {
        self.i_shift(bus, ShiftOp::Sla, Reg8::E)
    }

    /// SLA H
    pub(crate) fn sla_h_0xcb24(&mut self, bus: &mut Bus) -> (cycles: u8)
        requires
            old(bus)@.wf(),
        ensures
            final(bus)@.wf(),
            (*final(self), final(bus)@, cycles) == exec_cb_spec(*old(self), old(bus)@, decode_cb(0x24)),
    {
        self.i_shift(bus, ShiftOp::Sla, Reg8::H)
    }

    /// SLA L
    pub(crate) fn sla_l_0xcb25(&mut self, bus: &mut Bus) -> (cycles: u8)
        requires
            old(bus)@.wf(),
        ensures
            final(bus)@.wf(),
            (*final(self), final(bus)@, cycles) == exec_cb_spec(*old(self), old(bus)@, decode_cb(0x25)),
    {
        self.i_shift(bus, ShiftOp::Sla, Reg8::L)
    }

    /// SLA (HL)
    pub(crate) fn sla_hl_0xcb26(&mut self, bus: &mut Bus) -> (cycles: u8)
        requires
            old(bus)@.wf(),
        ensures
            final(bus)@.wf(),
            (*final(self), final(bus)@, cycles) == exec_cb_spec(*old(self), old(bus)@, decode_cb(0x26)),
    {
        self.i_shift(bus, ShiftOp::Sla, Reg8::MemHl)
    }

    /// SLA A
    pub(crate) fn sla_a_0xcb27(&mut self, bus: &mut Bus) -> (cycles: u8)
        requires
            old(bus)@.wf(),
        ensures
            final(bus)@.wf(),
            (*final(self), final(bus)@, cycles) == exec_cb_spec(*old(self), old(bus)@, decode_cb(0x27)),
    {
        self.i_shift(bus, ShiftOp::Sla, Reg8::A)
    }

    /// SRA B
    pub(crate) fn sra_b_0xcb28(&mut self, bus: &mut Bus) -> (cycles: u8)
        requires
            old(bus)@.wf(),
        ensures
            final(bus)@.wf(),
            (*final(self), final(bus)@, cycles) == exec_cb_spec(*old(self), old(bus)@, decode_cb(0x28)),
    {
        self.i_shift(bus, ShiftOp::Sra, Reg8::B)
    }

    /// SRA C
    pub(crate) fn sra_c_0xcb29(&mut self, bus: &mut Bus) -> (cycles: u8)
        requires
            old(bus)@.wf(),
        ensures
            final(bus)@.wf(),
            (*final(self), final(bus)@, cycles) == exec_cb_spec(*old(self), old(bus)@, decode_cb(0x29)),
    {
        self.i_shift(bus, ShiftOp::Sra, Reg8::C)
    }

    /// SRA D
    pub(crate) fn sra_d_0xcb2a(&mut self, bus: &mut Bus) -> (cycles: u8)
        requires
            old(bus)@.wf(),
        ensures
            final(bus)@.wf(),
            (*final(self), final(bus)@, cycles) == exec_cb_spec(*old(self), old(bus)@, decode_cb(0x2A)),
    {
        self.i_shift(bus, ShiftOp::Sra, Reg8::D)
    }

    /// SRA E
    pub(crate) fn sra_e_0xcb2b(&mut self, bus: &mut Bus) -> (cycles: u8)
        requires
            old(bus)@.wf(),
        ensures
            final(bus)@.wf(),
            (*final(self), final(bus)@, cycles) == exec_cb_spec(*old(self), old(bus)@, decode_cb(0x2B)),
    {
        self.i_shift(bus, ShiftOp::Sra, Reg8::E)
    }

    /// SRA H
    pub(crate) fn sra_h_0xcb2c(&mut self, bus: &mut Bus) -> (cycles: u8)
        requires
            old(bus)@.wf(),
        ensures
            final(bus)@.wf(),
            (*final(self), final(bus)@, cycles) == exec_cb_spec(*old(self), old(bus)@, decode_cb(0x2C)),
    {
        self.i_shift(bus, ShiftOp::Sra, Reg8::H)
    }

    /// SRA L
    pub(crate) fn sra_l_0xcb2d(&mut self, bus: &mut Bus) -> (cycles: u8)
        requires
            old(bus)@.wf(),
        ensures
            final(bus)@.wf(),
            (*final(self), final(bus)@, cycles) == exec_cb_spec(*old(self), old(bus)@, decode_cb(0x2D)),
    {
        self.i_shift(bus, ShiftOp::Sra, Reg8::L)
    }

    /// SRA (HL)
    pub(crate) fn sra_hl_0xcb2e(&mut self, bus: &mut Bus) -> (cycles: u8)
        requires
            old(bus)@.wf(),
        ensures
            final(bus)@.wf(),
            (*final(self), final(bus)@, cycles) == exec_cb_spec(*old(self), old(bus)@, decode_cb(0x2E)),
    {
        self.i_shift(bus, ShiftOp::Sra, Reg8::MemHl)
    }

    /// SRA A
    pub(crate) fn sra_a_0xcb2f(&mut self, bus: &mut Bus) -> (cycles: u8)
        requires
            old(bus)@.wf(),
        ensures
            final(bus)@.wf(),
            (*final(self), final(bus)@, cycles) == exec_cb_spec(*old(self), old(bus)@, decode_cb(0x2F)),
    {
        self.i_shift(bus, ShiftOp::Sra, Reg8::A)
    }

    /// SWAP B
    pub(crate) fn swap_b_0xcb30(&mut self, bus: &mut Bus) -> (cycles: u8)
        requires
            old(bus)@.wf(),
        ensures
            final(bus)@.wf(),
            (*final(self), final(bus)@, cycles) == exec_cb_spec(*old(self), old(bus)@, decode_cb(0x30)),
    {
        self.i_shift(bus, ShiftOp::Swap, Reg8::B)
    }

    /// SWAP C
    pub(crate) fn swap_c_0xcb31(&mut self, bus: &mut Bus) -> (cycles: u8)
        requires
            old(bus)@.wf(),
        ensures
            final(bus)@.wf(),
            (*final(self), final(bus)@, cycles) == exec_cb_spec(*old(self), old(bus)@, decode_cb(0x31)),
    {
        self.i_shift(bus, ShiftOp::Swap, Reg8::C)
    }

    /// SWAP D
    pub(crate) fn swap_d_0xcb32(&mut self, bus: &mut Bus) -> (cycles: u8)
        requires
            old(bus)@.wf(),
        ensures
            final(bus)@.wf(),
            (*final(self), final(bus)@, cycles) == exec_cb_spec(*old(self), old(bus)@, decode_cb(0x32)),
    {
        self.i_shift(bus, ShiftOp::Swap, Reg8::D)
    }

    /// SWAP E
    pub(crate) fn swap_e_0xcb33(&mut self, bus: &mut Bus) -> (cycles: u8)
        requires
            old(bus)@.wf(),
        ensures
            final(bus)@.wf(),
            (*final(self), final(bus)@, cycles) == exec_cb_spec(*old(self), old(bus)@, decode_cb(0x33)),
    {
        self.i_shift(bus, ShiftOp::Swap, Reg8::E)
    }

    /// SWAP H
    pub(crate) fn swap_h_0xcb34(&mut self, bus: &mut Bus) -> (cycles: u8)
        requires
            old(bus)@.wf(),
        ensures
            final(bus)@.wf(),
            (*final(self), final(bus)@, cycles) == exec_cb_spec(*old(self), old(bus)@, decode_cb(0x34)),
    {
        self.i_shift(bus, ShiftOp::Swap, Reg8::H)
    }

    /// SWAP L
    pub(crate) fn swap_l_0xcb35(&mut self, bus: &mut Bus) -> (cycles: u8)
        requires
            old(bus)@.wf(),
        ensures
            final(bus)@.wf(),
            (*final(self), final(bus)@, cycles) == exec_cb_spec(*old(self), old(bus)@, decode_cb(0x35)),
    {
        self.i_shift(bus, ShiftOp::Swap, Reg8::L)
    }

    /// SWAP (HL)
    pub(crate) fn swap_hl_0xcb36(&mut self, bus: &mut Bus) -> (cycles: u8)
        requires
            old(bus)@.wf(),
        ensures
            final(bus)@.wf(),
            (*final(self), final(bus)@, cycles) == exec_cb_spec(*old(self), old(bus)@, decode_cb(0x36)),
    {
        self.i_shift(bus, ShiftOp::Swap, Reg8::MemHl)
    }

    /// SWAP A
    pub(crate) fn swap_a_0xcb37(&mut self, bus: &mut Bus) -> (cycles: u8)
        requires
            old(bus)@.wf(),
        ensures
            final(bus)@.wf(),
            (*final(self), final(bus)@, cycles) == exec_cb_spec(*old(self), old(bus)@, decode_cb(0x37)),
    {
        self.i_shift(bus, ShiftOp::Swap, Reg8::A)
    }

    /// SRL B
    pub(crate) fn srl_b_0xcb38(&mut self, bus: &mut Bus) -> (cycles: u8)
        requires
            old(bus)@.wf(),
        ensures
            final(bus)@.wf(),
            (*final(self), final(bus)@, cycles) == exec_cb_spec(*old(self), old(bus)@, decode_cb(0x38)),
    {
        self.i_shift(bus, ShiftOp::Srl, Reg8::B)
    }

    /// SRL C
    pub(crate) fn srl_c_0xcb39(&mut self, bus: &mut Bus) -> (cycles: u8)
        requires
            old(bus)@.wf(),
        ensures
            final(bus)@.wf(),
            (*final(self), final(bus)@, cycles) == exec_cb_spec(*old(self), old(bus)@, decode_cb(0x39)),
    {
        self.i_shift(bus, ShiftOp::Srl, Reg8::C)
    }

    /// SRL D
    pub(crate) fn srl_d_0xcb3a(&mut self, bus: &mut Bus) -> (cycles: u8)
        requires
            old(bus)@.wf(),
        ensures
            final(bus)@.wf(),
            (*final(self), final(bus)@, cycles) == exec_cb_spec(*old(self), old(bus)@, decode_cb(0x3A)),
    {
        self.i_shift(bus, ShiftOp::Srl, Reg8::D)
    }

    /// SRL E
    pub(crate) fn srl_e_0xcb3b(&mut self, bus: &mut Bus) -> (cycles: u8)
        requires
            old(bus)@.wf(),
        ensures
            final(bus)@.wf(),
            (*final(self), final(bus)@, cycles) == exec_cb_spec(*old(self), old(bus)@, decode_cb(0x3B)),
    {
        self.i_shift(bus, ShiftOp::Srl, Reg8::E)
    }

    /// SRL H
    pub(crate) fn srl_h_0xcb3c(&mut self, bus: &mut Bus) -> (cycles: u8)
        requires
            old(bus)@.wf(),
        ensures
            final(bus)@.wf(),
            (*final(self), final(bus)@, cycles) == exec_cb_spec(*old(self), old(bus)@, decode_cb(0x3C)),
    {
        self.i_shift(bus, ShiftOp::Srl, Reg8::H)
    }

    /// SRL L
    pub(crate) fn srl_l_0xcb3d(&mut self, bus: &mut Bus) -> (cycles: u8)
        requires
            old(bus)@.wf(),
        ensures
            final(bus)@.wf(),
            (*final(self), final(bus)@, cycles) == exec_cb_spec(*old(self), old(bus)@, decode_cb(0x3D)),
    {
        self.i_shift(bus, ShiftOp::Srl, Reg8::L)
    }

    /// SRL (HL)
    pub(crate) fn srl_hl_0xcb3e(&mut self, bus: &mut Bus) -> (cycles: u8)
        requires
            old(bus)@.wf(),
        ensures
            final(bus)@.wf(),
            (*final(self), final(bus)@, cycles) == exec_cb_spec(*old(self), old(bus)@, decode_cb(0x3E)),
    {
        self.i_shift(bus, ShiftOp::Srl, Reg8::MemHl)
    }

    /// SRL A
    pub(crate) fn srl_a_0xcb3f(&mut self, bus: &mut Bus) -> (cycles: u8)
        requires
            old(bus)@.wf(),
        ensures
            final(bus)@.wf(),
            (*final(self), final(bus)@, cycles) == exec_cb_spec(*old(self), old(bus)@, decode_cb(0x3F)),
    {
        self.i_shift(bus, ShiftOp::Srl, Reg8::A)
    }

    /// BIT 0, B
    pub(crate) fn bit_0_b_0xcb40(&mut self, bus: &mut Bus) -> (cycles: u8)
        requires
            old(bus)@.wf(),
        ensures
            final(bus)@.wf(),
            (*final(self), final(bus)@, cycles) == exec_cb_spec(*old(self), old(bus)@, decode_cb(0x40)),
    {
        self.i_bit(bus, 0, Reg8::B)
    }

    /// BIT 0, C
    pub(crate) fn bit_0_c_0xcb41(&mut self, bus: &mut Bus) -> (cycles: u8)
        requires
            old(bus)@.wf(),
        ensures
            final(bus)@.wf(),
            (*final(self), final(bus)@, cycles) == exec_cb_spec(*old(self), old(bus)@, decode_cb(0x41)),
    {
        self.i_bit(bus, 0, Reg8::C)
    }

    /// BIT 0, D
    pub(crate) fn bit_0_d_0xcb42(&mut self, bus: &mut Bus) -> (cycles: u8)
        requires
            old(bus)@.wf(),
        ensures
            final(bus)@.wf(),
            (*final(self), final(bus)@, cycles) == exec_cb_spec(*old(self), old(bus)@, decode_cb(0x42)),
    {
        self.i_bit(bus, 0, Reg8::D)
    }

    /// BIT 0, E
    pub(crate) fn bit_0_e_0xcb43(&mut self, bus: &mut Bus) -> (cycles: u8)
        requires
            old(bus)@.wf(),
        ensures
            final(bus)@.wf(),
            (*final(self), final(bus)@, cycles) == exec_cb_spec(*old(self), old(bus)@, decode_cb(0x43)),
    {
        self.i_bit(bus, 0, Reg8::E)
    }

    /// BIT 0, H
    pub(crate) fn bit_0_h_0xcb44(&mut self, bus: &mut Bus) -> (cycles: u8)
        requires
            old(bus)@.wf(),
        ensures
            final(bus)@.wf(),
            (*final(self), final(bus)@, cycles) == exec_cb_spec(*old(self), old(bus)@, decode_cb(0x44)),
    {
        self.i_bit(bus, 0, Reg8::H)
    }

    /// BIT 0, L
    pub(crate) fn bit_0_l_0xcb45(&mut self, bus: &mut Bus) -> (cycles: u8)
        requires
            old(bus)@.wf(),
        ensures
            final(bus)@.wf(),
            (*final(self), final(bus)@, cycles) == exec_cb_spec(*old(self), old(bus)@, decode_cb(0x45)),
    {
        self.i_bit(bus, 0, Reg8::L)
    }

    /// BIT 0, (HL)
    pub(crate) fn bit_0_hl_0xcb46(&mut self, bus: &mut Bus) -> (cycles: u8)
        requires
            old(bus)@.wf(),
        ensures
            final(bus)@.wf(),
            (*final(self), final(bus)@, cycles) == exec_cb_spec(*old(self), old(bus)@, decode_cb(0x46)),
    {
        self.i_bit(bus, 0, Reg8::MemHl)
    }

    /// BIT 0, A
    pub(crate) fn bit_0_a_0xcb47(&mut self, bus: &mut Bus) -> (cycles: u8)
        requires
            old(bus)@.wf(),
        ensures
            final(bus)@.wf(),
            (*final(self), final(bus)@, cycles) == exec_cb_spec(*old(self), old(bus)@, decode_cb(0x47)),
    {
        self.i_bit(bus, 0, Reg8::A)
    }

    /// BIT 1, B
    pub(crate) fn bit_1_b_0xcb48(&mut self, bus: &mut Bus) -> (cycles: u8)
        requires
            old(bus)@.wf(),
        ensures
            final(bus)@.wf(),
            (*final(self), final(bus)@, cycles) == exec_cb_spec(*old(self), old(bus)@, decode_cb(0x48)),
    {
        self.i_bit(bus, 1, Reg8::B)
    }

    /// BIT 1, C
    pub(crate) fn bit_1_c_0xcb49(&mut self, bus: &mut Bus) -> (cycles: u8)
        requires
            old(bus)@.wf(),
        ensures
            final(bus)@.wf(),
            (*final(self), final(bus)@, cycles) == exec_cb_spec(*old(self), old(bus)@, decode_cb(0x49)),
    {
        self.i_bit(bus, 1, Reg8::C)
    }

    /// BIT 1, D
    pub(crate) fn bit_1_d_0xcb4a(&mut self, bus: &mut Bus) -> (cycles: u8)
        requires
            old(bus)@.wf(),
        ensures
            final(bus)@.wf(),
            (*final(self), final(bus)@, cycles) == exec_cb_spec(*old(self), old(bus)@, decode_cb(0x4A)),
    {
        self.i_bit(bus, 1, Reg8::D)
    }

    /// BIT 1, E
    pub(crate) fn bit_1_e_0xcb4b(&mut self, bus: &mut Bus) -> (cycles: u8)
        requires
            old(bus)@.wf(),
        ensures
            final(bus)@.wf(),
            (*final(self), final(bus)@, cycles) == exec_cb_spec(*old(self), old(bus)@, decode_cb(0x4B)),
    {
        self.i_bit(bus, 1, Reg8::E)
    }

    /// BIT 1, H
    pub(crate) fn bit_1_h_0xcb4c(&mut self, bus: &mut Bus) -> (cycles: u8)
        requires
            old(bus)@.wf(),
        ensures
            final(bus)@.wf(),
            (*final(self), final(bus)@, cycles) == exec_cb_spec(*old(self), old(bus)@, decode_cb(0x4C)),
    {
        self.i_bit(bus, 1, Reg8::H)
    }

    /// BIT 1, L
    pub(crate) fn bit_1_l_0xcb4d(&mut self, bus: &mut Bus) -> (cycles: u8)
        requires
            old(bus)@.wf(),
        ensures
            final(bus)@.wf(),
            (*final(self), final(bus)@, cycles) == exec_cb_spec(*old(self), old(bus)@, decode_cb(0x4D)),
    {
        self.i_bit(bus, 1, Reg8::L)
    }

    /// BIT 1, (HL)
    pub(crate) fn bit_1_hl_0xcb4e(&mut self, bus: &mut Bus) -> (cycles: u8)
        requires
            old(bus)@.wf(),
        ensures
            final(bus)@.wf(),
            (*final(self), final(bus)@, cycles) == exec_cb_spec(*old(self), old(bus)@, decode_cb(0x4E)),
    {
        self.i_bit(bus, 1, Reg8::MemHl)
    }

    /// BIT 1, A
    pub(crate) fn bit_1_a_0xcb4f(&mut self, bus: &mut Bus) -> (cycles: u8)
        requires
            old(bus)@.wf(),
        ensures
            final(bus)@.wf(),
            (*final(self), final(bus)@, cycles) == exec_cb_spec(*old(self), old(bus)@, decode_cb(0x4F)),
    {
        self.i_bit(bus, 1, Reg8::A)
    }

    /// BIT 2, B
    pub(crate) fn bit_2_b_0xcb50(&mut self, bus: &mut Bus) -> (cycles: u8)
        requires
            old(bus)@.wf(),
        ensures
            final(bus)@.wf(),
            (*final(self), final(bus)@, cycles) == exec_cb_spec(*old(self), old(bus)@, decode_cb(0x50)),
    {
        self.i_bit(bus, 2, Reg8::B)
    }

    /// BIT 2, C
    pub(crate) fn bit_2_c_0xcb51(&mut self, bus: &mut Bus) -> (cycles: u8)
        requires
            old(bus)@.wf(),
        ensures
            final(bus)@.wf(),
            (*final(self), final(bus)@, cycles) == exec_cb_spec(*old(self), old(bus)@, decode_cb(0x51)),
    {
        self.i_bit(bus, 2, Reg8::C)
    }

    /// BIT 2, D
    pub(crate) fn bit_2_d_0xcb52(&mut self, bus: &mut Bus) -> (cycles: u8)
        requires
            old(bus)@.wf(),
        ensures
            final(bus)@.wf(),
            (*final(self), final(bus)@, cycles) == exec_cb_spec(*old(self), old(bus)@, decode_cb(0x52)),
    {
        self.i_bit(bus, 2, Reg8::D)
    }

    /// BIT 2, E
    pub(crate) fn bit_2_e_0xcb53(&mut self, bus: &mut Bus) -> (cycles: u8)
        requires
            old(bus)@.wf(),
        ensures
            final(bus)@.wf(),
            (*final(self), final(bus)@, cycles) == exec_cb_spec(*old(self), old(bus)@, decode_cb(0x53)),
    {
        self.i_bit(bus, 2, Reg8::E)
    }

    /// BIT 2, H
    pub(crate) fn bit_2_h_0xcb54(&mut self, bus: &mut Bus) -> (cycles: u8)
        requires
            old(bus)@.wf(),
        ensures
            final(bus)@.wf(),
            (*final(self), final(bus)@, cycles) == exec_cb_spec(*old(self), old(bus)@, decode_cb(0x54)),
    {
        self.i_bit(bus, 2, Reg8::H)
    }

    /// BIT 2, L
    pub(crate) fn bit_2_l_0xcb55(&mut self, bus: &mut Bus) -> (cycles: u8)
        requires
            old(bus)@.wf(),
        ensures
            final(bus)@.wf(),
            (*final(self), final(bus)@, cycles) == exec_cb_spec(*old(self), old(bus)@, decode_cb(0x55)),
    {
        self.i_bit(bus, 2, Reg8::L)
    }

    /// BIT 2, (HL)
    pub(crate) fn bit_2_hl_0xcb56(&mut self, bus: &mut Bus) -> (cycles: u8)
        requires
            old(bus)@.wf(),
        ensures
            final(bus)@.wf(),
            (*final(self), final(bus)@, cycles) == exec_cb_spec(*old(self), old(bus)@, decode_cb(0x56)),
    {
        self.i_bit(bus, 2, Reg8::MemHl)
    }

    /// BIT 2, A
    pub(crate) fn bit_2_a_0xcb57(&mut self, bus: &mut Bus) -> (cycles: u8)
        requires
            old(bus)@.wf(),
        ensures
            final(bus)@.wf(),
            (*final(self), final(bus)@, cycles) == exec_cb_spec(*old(self), old(bus)@, decode_cb(0x57)),
    {
        self.i_bit(bus, 2, Reg8::A)
    }

    /// BIT 3, B
    pub(crate) fn bit_3_b_0xcb58(&mut self, bus: &mut Bus) -> (cycles: u8)
        requires
            old(bus)@.wf(),
        ensures
            final(bus)@.wf(),
            (*final(self), final(bus)@, cycles) == exec_cb_spec(*old(self), old(bus)@, decode_cb(0x58)),
    {
        self.i_bit(bus, 3, Reg8::B)
    }

    /// BIT 3, C
    pub(crate) fn bit_3_c_0xcb59(&mut self, bus: &mut Bus) -> (cycles: u8)
        requires
            old(bus)@.wf(),
        ensures
            final(bus)@.wf(),
            (*final(self), final(bus)@, cycles) == exec_cb_spec(*old(self), old(bus)@, decode_cb(0x59)),
    {
        self.i_bit(bus, 3, Reg8::C)
    }

    /// BIT 3, D
    pub(crate) fn bit_3_d_0xcb5a(&mut self, bus: &mut Bus) -> (cycles: u8)
        requires
            old(bus)@.wf(),
        ensures
            final(bus)@.wf(),
            (*final(self), final(bus)@, cycles) == exec_cb_spec(*old(self), old(bus)@, decode_cb(0x5A)),
    {
        self.i_bit(bus, 3, Reg8::D)
    }

    /// BIT 3, E
    pub(crate) fn bit_3_e_0xcb5b(&mut self, bus: &mut Bus) -> (cycles: u8)
        requires
            old(bus)@.wf(),
        ensures
            final(bus)@.wf(),
            (*final(self), final(bus)@, cycles) == exec_cb_spec(*old(self), old(bus)@, decode_cb(0x5B)),
    {
        self.i_bit(bus, 3, Reg8::E)
    }

    /// BIT 3, H
    pub(crate) fn bit_3_h_0xcb5c(&mut self, bus: &mut Bus) -> (cycles: u8)
        requires
            old(bus)@.wf(),
        ensures
            final(bus)@.wf(),
            (*final(self), final(bus)@, cycles) == exec_cb_spec(*old(self), old(bus)@, decode_cb(0x5C)),
    {
        self.i_bit(bus, 3, Reg8::H)
    }

    /// BIT 3, L
    pub(crate) fn bit_3_l_0xcb5d(&mut self, bus: &mut Bus) -> (cycles: u8)
        requires
            old(bus)@.wf(),
        ensures
            final(bus)@.wf(),
            (*final(self), final(bus)@, cycles) == exec_cb_spec(*old(self), old(bus)@, decode_cb(0x5D)),
    {
        self.i_bit(bus, 3, Reg8::L)
    }

    /// BIT 3, (HL)
    pub(crate) fn bit_3_hl_0xcb5e(&mut self, bus: &mut Bus) -> (cycles: u8)
        requires
            old(bus)@.wf(),
        ensures
            final(bus)@.wf(),
            (*final(self), final(bus)@, cycles) == exec_cb_spec(*old(self), old(bus)@, decode_cb(0x5E)),
    {
        self.i_bit(bus, 3, Reg8::MemHl)
    }

    /// BIT 3, A
    pub(crate) fn bit_3_a_0xcb5f(&mut self, bus: &mut Bus) -> (cycles: u8)
        requires
            old(bus)@.wf(),
        ensures
            final(bus)@.wf(),
            (*final(self), final(bus)@, cycles) == exec_cb_spec(*old(self), old(bus)@, decode_cb(0x5F)),
    {
        self.i_bit(bus, 3, Reg8::A)
    }

    /// BIT 4, B
    pub(crate) fn bit_4_b_0xcb60(&mut self, bus: &mut Bus) -> (cycles: u8)
        requires
            old(bus)@.wf(),
        ensures
            final(bus)@.wf(),
            (*final(self), final(bus)@, cycles) == exec_cb_spec(*old(self), old(bus)@, decode_cb(0x60)),
    {
        self.i_bit(bus, 4, Reg8::B)
    }

    /// BIT 4, C
    pub(crate) fn bit_4_c_0xcb61(&mut self, bus: &mut Bus) -> (cycles: u8)
        requires
            old(bus)@.wf(),
        ensures
            final(bus)@.wf(),
            (*final(self), final(bus)@, cycles) == exec_cb_spec(*old(self), old(bus)@, decode_cb(0x61)),
    {
        self.i_bit(bus, 4, Reg8::C)
    }

    /// BIT 4, D
    pub(crate) fn bit_4_d_0xcb62(&mut self, bus: &mut Bus) -> (cycles: u8)
        requires
            old(bus)@.wf(),
        ensures
            final(bus)@.wf(),
            (*final(self), final(bus)@, cycles) == exec_cb_spec(*old(self), old(bus)@, decode_cb(0x62)),
    {
        self.i_bit(bus, 4, Reg8::D)
    }

    /// BIT 4, E
    pub(crate) fn bit_4_e_0xcb63(&mut self, bus: &mut Bus) -> (cycles: u8)
        requires
            old(bus)@.wf(),
        ensures
            final(bus)@.wf(),
            (*final(self), final(bus)@, cycles) == exec_cb_spec(*old(self), old(bus)@, decode_cb(0x63)),
    {
        self.i_bit(bus, 4, Reg8::E)
    }

    /// BIT 4, H
    pub(crate) fn bit_4_h_0xcb64(&mut self, bus: &mut Bus) -> (cycles: u8)
        requires
            old(bus)@.wf(),
        ensures
            final(bus)@.wf(),
            (*final(self), final(bus)@, cycles) == exec_cb_spec(*old(self), old(bus)@, decode_cb(0x64)),
    {
        self.i_bit(bus, 4, Reg8::H)
    }

    /// BIT 4, L
    pub(crate) fn bit_4_l_0xcb65(&mut self, bus: &mut Bus) -> (cycles: u8)
        requires
            old(bus)@.wf(),
        ensures
            final(bus)@.wf(),
            (*final(self), final(bus)@, cycles) == exec_cb_spec(*old(self), old(bus)@, decode_cb(0x65)),
    {
        self.i_bit(bus, 4, Reg8::L)
    }

    /// BIT 4, (HL)
    pub(crate) fn bit_4_hl_0xcb66(&mut self, bus: &mut Bus) -> (cycles: u8)
        requires
            old(bus)@.wf(),
        ensures
            final(bus)@.wf(),
            (*final(self), final(bus)@, cycles) == exec_cb_spec(*old(self), old(bus)@, decode_cb(0x66)),
    {
        self.i_bit(bus, 4, Reg8::MemHl)
    }

    /// BIT 4, A
    pub(crate) fn bit_4_a_0xcb67(&mut self, bus: &mut Bus) -> (cycles: u8)
        requires
            old(bus)@.wf(),
        ensures
            final(bus)@.wf(),
            (*final(self), final(bus)@, cycles) == exec_cb_spec(*old(self), old(bus)@, decode_cb(0x67)),
    {
        self.i_bit(bus, 4, Reg8::A)
    }

    /// BIT 5, B
    pub(crate) fn bit_5_b_0xcb68(&mut self, bus: &mut Bus) -> (cycles: u8)
        requires
            old(bus)@.wf(),
        ensures
            final(bus)@.wf(),
            (*final(self), final(bus)@, cycles) == exec_cb_spec(*old(self), old(bus)@, decode_cb(0x68)),
    {
        self.i_bit(bus, 5, Reg8::B)
    }

    /// BIT 5, C
    pub(crate) fn bit_5_c_0xcb69(&mut self, bus: &mut Bus) -> (cycles: u8)
        requires
            old(bus)@.wf(),
        ensures
            final(bus)@.wf(),
            (*final(self), final(bus)@, cycles) == exec_cb_spec(*old(self), old(bus)@, decode_cb(0x69)),
    {
        self.i_bit(bus, 5, Reg8::C)
    }

    /// BIT 5, D
    pub(crate) fn bit_5_d_0xcb6a(&mut self, bus: &mut Bus) -> (cycles: u8)
        requires
            old(bus)@.wf(),
        ensures
            final(bus)@.wf(),
            (*final(self), final(bus)@, cycles) == exec_cb_spec(*old(self), old(bus)@, decode_cb(0x6A)),
    {
        self.i_bit(bus, 5, Reg8::D)
    }

    /// BIT 5, E
    pub(crate) fn bit_5_e_0xcb6b(&mut self, bus: &mut Bus) -> (cycles: u8)
        requires
            old(bus)@.wf(),
        ensures
            final(bus)@.wf(),
            (*final(self), final(bus)@, cycles) == exec_cb_spec(*old(self), old(bus)@, decode_cb(0x6B)),
    {
        self.i_bit(bus, 5, Reg8::E)
    }

    /// BIT 5, H
    pub(crate) fn bit_5_h_0xcb6c(&mut self, bus: &mut Bus) -> (cycles: u8)
        requires
            old(bus)@.wf(),
        ensures
            final(bus)@.wf(),
            (*final(self), final(bus)@, cycles) == exec_cb_spec(*old(self), old(bus)@, decode_cb(0x6C)),
    {
        self.i_bit(bus, 5, Reg8::H)
    }

    /// BIT 5, L
    pub(crate) fn bit_5_l_0xcb6d(&mut self, bus: &mut Bus) -> (cycles: u8)
        requires
            old(bus)@.wf(),
        ensures
            final(bus)@.wf(),
            (*final(self), final(bus)@, cycles) == exec_cb_spec(*old(self), old(bus)@, decode_cb(0x6D)),
    {
        self.i_bit(bus, 5, Reg8::L)
    }

    /// BIT 5, (HL)
    pub(crate) fn bit_5_hl_0xcb6e(&mut self, bus: &mut Bus) -> (cycles: u8)
        requires
            old(bus)@.wf(),
        ensures
            final(bus)@.wf(),
            (*final(self), final(bus)@, cycles) == exec_cb_spec(*old(self), old(bus)@, decode_cb(0x6E)),
    {
        self.i_bit(bus, 5, Reg8::MemHl)
    }

    /// BIT 5, A
    pub(crate) fn bit_5_a_0xcb6f(&mut self, bus: &mut Bus) -> (cycles: u8)
        requires
            old(bus)@.wf(),
        ensures
            final(bus)@.wf(),
            (*final(self), final(bus)@, cycles) == exec_cb_spec(*old(self), old(bus)@, decode_cb(0x6F)),
    {
        self.i_bit(bus, 5, Reg8::A)
    }

    /// BIT 6, B
    pub(crate) fn bit_6_b_0xcb70(&mut self, bus: &mut Bus) -> (cycles: u8)
        requires
            old(bus)@.wf(),
        ensures
            final(bus)@.wf(),
            (*final(self), final(bus)@, cycles) == exec_cb_spec(*old(self), old(bus)@, decode_cb(0x70)),
    {
        self.i_bit(bus, 6, Reg8::B)
    }

    /// BIT 6, C
    pub(crate) fn bit_6_c_0xcb71(&mut self, bus: &mut Bus) -> (cycles: u8)
        requires
            old(bus)@.wf(),
        ensures
            final(bus)@.wf(),
            (*final(self), final(bus)@, cycles) == exec_cb_spec(*old(self), old(bus)@, decode_cb(0x71)),
    {
        self.i_bit(bus, 6, Reg8::C)
    }

    /// BIT 6, D
    pub(crate) fn bit_6_d_0xcb72(&mut self, bus: &mut Bus) -> (cycles: u8)
        requires
            old(bus)@.wf(),
        ensures
            final(bus)@.wf(),
            (*final(self), final(bus)@, cycles) == exec_cb_spec(*old(self), old(bus)@, decode_cb(0x72)),
    {
        self.i_bit(bus, 6, Reg8::D)
    }

    /// BIT 6, E
    pub(crate) fn bit_6_e_0xcb73(&mut self, bus: &mut Bus) -> (cycles: u8)
        requires
            old(bus)@.wf(),
        ensures
            final(bus)@.wf(),
            (*final(self), final(bus)@, cycles) == exec_cb_spec(*old(self), old(bus)@, decode_cb(0x73)),
    {
        self.i_bit(bus, 6, Reg8::E)
    }

    /// BIT 6, H
    pub(crate) fn bit_6_h_0xcb74(&mut self, bus: &mut Bus) -> (cycles: u8)
        requires
            old(bus)@.wf(),
        ensures
            final(bus)@.wf(),
            (*final(self), final(bus)@, cycles) == exec_cb_spec(*old(self), old(bus)@, decode_cb(0x74)),
    {
        self.i_bit(bus, 6, Reg8::H)
    }

    /// BIT 6, L
    pub(crate) fn bit_6_l_0xcb75(&mut self, bus: &mut Bus) -> (cycles: u8)
        requires
            old(bus)@.wf(),
        ensures
            final(bus)@.wf(),
            (*final(self), final(bus)@, cycles) == exec_cb_spec(*old(self), old(bus)@, decode_cb(0x75)),
    {
        self.i_bit(bus, 6, Reg8::L)
    }

    /// BIT 6, (HL)
    pub(crate) fn bit_6_hl_0xcb76(&mut self, bus: &mut Bus) -> (cycles: u8)
        requires
            old(bus)@.wf(),
        ensures
            final(bus)@.wf(),
            (*final(self), final(bus)@, cycles) == exec_cb_spec(*old(self), old(bus)@, decode_cb(0x76)),
    {
        self.i_bit(bus, 6, Reg8::MemHl)
    }

    /// BIT 6, A
    pub(crate) fn bit_6_a_0xcb77(&mut self, bus: &mut Bus) -> (cycles: u8)
        requires
            old(bus)@.wf(),
        ensures
            final(bus)@.wf(),
            (*final(self), final(bus)@, cycles) == exec_cb_spec(*old(self), old(bus)@, decode_cb(0x77)),
    {
        self.i_bit(bus, 6, Reg8::A)
    }

    /// BIT 7, B
    pub(crate) fn bit_7_b_0xcb78(&mut self, bus: &mut Bus) -> (cycles: u8)
        requires
            old(bus)@.wf(),
        ensures
            final(bus)@.wf(),
            (*final(self), final(bus)@, cycles) == exec_cb_spec(*old(self), old(bus)@, decode_cb(0x78)),
    {
        self.i_bit(bus, 7, Reg8::B)
    }

    /// BIT 7, C
    pub(crate) fn bit_7_c_0xcb79(&mut self, bus: &mut Bus) -> (cycles: u8)
        requires
            old(bus)@.wf(),
        ensures
            final(bus)@.wf(),
            (*final(self), final(bus)@, cycles) == exec_cb_spec(*old(self), old(bus)@, decode_cb(0x79)),
    {
        self.i_bit(bus, 7, Reg8::C)
    }

    /// BIT 7, D
    pub(crate) fn bit_7_d_0xcb7a(&mut self, bus: &mut Bus) -> (cycles: u8)
        requires
            old(bus)@.wf(),
        ensures
            final(bus)@.wf(),
            (*final(self), final(bus)@, cycles) == exec_cb_spec(*old(self), old(bus)@, decode_cb(0x7A)),
    {
        self.i_bit(bus, 7, Reg8::D)
    }

    /// BIT 7, E
    pub(crate) fn bit_7_e_0xcb7b(&mut self, bus: &mut Bus) -> (cycles: u8)
        requires
            old(bus)@.wf(),
        ensures
            final(bus)@.wf(),
            (*final(self), final(bus)@, cycles) == exec_cb_spec(*old(self), old(bus)@, decode_cb(0x7B)),
    {
        self.i_bit(bus, 7, Reg8::E)
    }

    /// BIT 7, H
    pub(crate) fn bit_7_h_0xcb7c(&mut self, bus: &mut Bus) -> (cycles: u8)
        requires
            old(bus)@.wf(),
        ensures
            final(bus)@.wf(),
            (*final(self), final(bus)@, cycles) == exec_cb_spec(*old(self), old(bus)@, decode_cb(0x7C)),
    {
        self.i_bit(bus, 7, Reg8::H)
    }

    /// BIT 7, L
    pub(crate) fn bit_7_l_0xcb7d(&mut self, bus: &mut Bus) -> (cycles: u8)
        requires
            old(bus)@.wf(),
        ensures
            final(bus)@.wf(),
            (*final(self), final(bus)@, cycles) == exec_cb_spec(*old(self), old(bus)@, decode_cb(0x7D)),
    {
        self.i_bit(bus, 7, Reg8::L)
    }

    /// BIT 7, (HL)
    pub(crate) fn bit_7_hl_0xcb7e(&mut self, bus: &mut Bus) -> (cycles: u8)
        requires
            old(bus)@.wf(),
        ensures
            final(bus)@.wf(),
            (*final(self), final(bus)@, cycles) == exec_cb_spec(*old(self), old(bus)@, decode_cb(0x7E)),
    {
        self.i_bit(bus, 7, Reg8::MemHl)
    }

    /// BIT 7, A
    pub(crate) fn bit_7_a_0xcb7f(&mut self, bus: &mut Bus) -> (cycles: u8)
        requires
            old(bus)@.wf(),
        ensures
            final(bus)@.wf(),
            (*final(self), final(bus)@, cycles) == exec_cb_spec(*old(self), old(bus)@, decode_cb(0x7F)),
    {
        self.i_bit(bus, 7, Reg8::A)
    }

    /// RES 0, B
    pub(crate) fn res_0_b_0xcb80(&mut self, bus: &mut Bus) -> (cycles: u8)
        requires
            old(bus)@.wf(),
        ensures
            final(bus)@.wf(),
            (*final(self), final(bus)@, cycles) == exec_cb_spec(*old(self), old(bus)@, decode_cb(0x80)),
    {
        self.i_res(bus, 0, Reg8::B)
    }

    /// RES 0, C
    pub(crate) fn res_0_c_0xcb81(&mut self, bus: &mut Bus) -> (cycles: u8)
        requires
            old(bus)@.wf(),
        ensures
            final(bus)@.wf(),
            (*final(self), final(bus)@, cycles) == exec_cb_spec(*old(self), old(bus)@, decode_cb(0x81)),
    {
        self.i_res(bus, 0, Reg8::C)
    }

    /// RES 0, D
    pub(crate) fn res_0_d_0xcb82(&mut self, bus: &mut Bus) -> (cycles: u8)
        requires
            old(bus)@.wf(),
        ensures
            final(bus)@.wf(),
            (*final(self), final(bus)@, cycles) == exec_cb_spec(*old(self), old(bus)@, decode_cb(0x82)),
    {
        self.i_res(bus, 0, Reg8::D)
    }

    /// RES 0, E
    pub(crate) fn res_0_e_0xcb83(&mut self, bus: &mut Bus) -> (cycles: u8)
        requires
            old(bus)@.wf(),
        ensures
            final(bus)@.wf(),
            (*final(self), final(bus)@, cycles) == exec_cb_spec(*old(self), old(bus)@, decode_cb(0x83)),
    {
        self.i_res(bus, 0, Reg8::E)
    }

    /// RES 0, H
    pub(crate) fn res_0_h_0xcb84(&mut self, bus: &mut Bus) -> (cycles: u8)
        requires
            old(bus)@.wf(),
        ensures
            final(bus)@.wf(),
            (*final(self), final(bus)@, cycles) == exec_cb_spec(*old(self), old(bus)@, decode_cb(0x84)),
    {
        self.i_res(bus, 0, Reg8::H)
    }

    /// RES 0, L
    pub(crate) fn res_0_l_0xcb85(&mut self, bus: &mut Bus) -> (cycles: u8)
        requires
            old(bus)@.wf(),
        ensures
            final(bus)@.wf(),
            (*final(self), final(bus)@, cycles) == exec_cb_spec(*old(self), old(bus)@, decode_cb(0x85)),
    {
        self.i_res(bus, 0, Reg8::L)
    }

    /// RES 0, (HL)
    pub(crate) fn res_0_hl_0xcb86(&mut self, bus: &mut Bus) -> (cycles: u8)
        requires
            old(bus)@.wf(),
        ensures
            final(bus)@.wf(),
            (*final(self), final(bus)@, cycles) == exec_cb_spec(*old(self), old(bus)@, decode_cb(0x86)),
    {
        self.i_res(bus, 0, Reg8::MemHl)
    }

    /// RES 0, A
    pub(crate) fn res_0_a_0xcb87(&mut self, bus: &mut Bus) -> (cycles: u8)
        requires
            old(bus)@.wf(),
        ensures
            final(bus)@.wf(),
            (*final(self), final(bus)@, cycles) == exec_cb_spec(*old(self), old(bus)@, decode_cb(0x87)),
    {
        self.i_res(bus, 0, Reg8::A)
    }

    /// RES 1, B
    pub(crate) fn res_1_b_0xcb88(&mut self, bus: &mut Bus) -> (cycles: u8)
        requires
            old(bus)@.wf(),
        ensures
            final(bus)@.wf(),
            (*final(self), final(bus)@, cycles) == exec_cb_spec(*old(self), old(bus)@, decode_cb(0x88)),
    {
        self.i_res(bus, 1, Reg8::B)
    }

    /// RES 1, C
    pub(crate) fn res_1_c_0xcb89(&mut self, bus: &mut Bus) -> (cycles: u8)
        requires
            old(bus)@.wf(),
        ensures
            final(bus)@.wf(),
            (*final(self), final(bus)@, cycles) == exec_cb_spec(*old(self), old(bus)@, decode_cb(0x89)),
    {
        self.i_res(bus, 1, Reg8::C)
    }

    /// RES 1, D
    pub(crate) fn res_1_d_0xcb8a(&mut self, bus: &mut Bus) -> (cycles: u8)
        requires
            old(bus)@.wf(),
        ensures
            final(bus)@.wf(),
            (*final(self), final(bus)@, cycles) == exec_cb_spec(*old(self), old(bus)@, decode_cb(0x8A)),
    {
        self.i_res(bus, 1, Reg8::D)
    }

    /// RES 1, E
    pub(crate) fn res_1_e_0xcb8b(&mut self, bus: &mut Bus) -> (cycles: u8)
        requires
            old(bus)@.wf(),
        ensures
            final(bus)@.wf(),
            (*final(self), final(bus)@, cycles) == exec_cb_spec(*old(self), old(bus)@, decode_cb(0x8B)),
    {
        self.i_res(bus, 1, Reg8::E)
    }

    /// RES 1, H
    pub(crate) fn res_1_h_0xcb8c(&mut self, bus: &mut Bus) -> (cycles: u8)
        requires
            old(bus)@.wf(),
        ensures
            final(bus)@.wf(),
            (*final(self), final(bus)@, cycles) == exec_cb_spec(*old(self), old(bus)@, decode_cb(0x8C)),
    {
        self.i_res(bus, 1, Reg8::H)
    }

    /// RES 1, L
    pub(crate) fn res_1_l_0xcb8d(&mut self, bus: &mut Bus) -> (cycles: u8)
        requires
            old(bus)@.wf(),
        ensures
            final(bus)@.wf(),
            (*final(self), final(bus)@, cycles) == exec_cb_spec(*old(self), old(bus)@, decode_cb(0x8D)),
    {
        self.i_res(bus, 1, Reg8::L)
    }

    /// RES 1, (HL)
    pub(crate) fn res_1_hl_0xcb8e(&mut self, bus: &mut Bus) -> (cycles: u8)
        requires
            old(bus)@.wf(),
        ensures
            final(bus)@.wf(),
            (*final(self), final(bus)@, cycles) == exec_cb_spec(*old(self), old(bus)@, decode_cb(0x8E)),
    {
        self.i_res(bus, 1, Reg8::MemHl)
    }

    /// RES 1, A
    pub(crate) fn res_1_a_0xcb8f(&mut self, bus: &mut Bus) -> (cycles: u8)
        requires
            old(bus)@.wf(),
        ensures
            final(bus)@.wf(),
            (*final(self), final(bus)@, cycles) == exec_cb_spec(*old(self), old(bus)@, decode_cb(0x8F)),
    {
        self.i_res(bus, 1, Reg8::A)
    }

    /// RES 2, B
    pub(crate) fn res_2_b_0xcb90(&mut self, bus: &mut Bus) -> (cycles: u8)
        requires
            old(bus)@.wf(),
        ensures
            final(bus)@.wf(),
            (*final(self), final(bus)@, cycles) == exec_cb_spec(*old(self), old(bus)@, decode_cb(0x90)),
    {
        self.i_res(bus, 2, Reg8::B)
    }

    /// RES 2, C
    pub(crate) fn res_2_c_0xcb91(&mut self, bus: &mut Bus) -> (cycles: u8)
        requires
            old(bus)@.wf(),
        ensures
            final(bus)@.wf(),
            (*final(self), final(bus)@, cycles) == exec_cb_spec(*old(self), old(bus)@, decode_cb(0x91)),
    {
        self.i_res(bus, 2, Reg8::C)
    }

    /// RES 2, D
    pub(crate) fn res_2_d_0xcb92(&mut self, bus: &mut Bus) -> (cycles: u8)
        requires
            old(bus)@.wf(),
        ensures
            final(bus)@.wf(),
            (*final(self), final(bus)@, cycles) == exec_cb_spec(*old(self), old(bus)@, decode_cb(0x92)),
    {
        self.i_res(bus, 2, Reg8::D)
    }

    /// RES 2, E
    pub(crate) fn res_2_e_0xcb93(&mut self, bus: &mut Bus) -> (cycles: u8)
        requires
            old(bus)@.wf(),
        ensures
            final(bus)@.wf(),
            (*final(self), final(bus)@, cycles) == exec_cb_spec(*old(self), old(bus)@, decode_cb(0x93)),
    {
        self.i_res(bus, 2, Reg8::E)
    }

    /// RES 2, H
    pub(crate) fn res_2_h_0xcb94(&mut self, bus: &mut Bus) -> (cycles: u8)
        requires
            old(bus)@.wf(),
        ensures
            final(bus)@.wf(),
            (*final(self), final(bus)@, cycles) == exec_cb_spec(*old(self), old(bus)@, decode_cb(0x94)),
    {
        self.i_res(bus, 2, Reg8::H)
    }

    /// RES 2, L
    pub(crate) fn res_2_l_0xcb95(&mut self, bus: &mut Bus) -> (cycles: u8)
        requires
            old(bus)@.wf(),
        ensures
            final(bus)@.wf(),
            (*final(self), final(bus)@, cycles) == exec_cb_spec(*old(self), old(bus)@, decode_cb(0x95)),
    {
        self.i_res(bus, 2, Reg8::L)
    }

    /// RES 2, (HL)
    pub(crate) fn res_2_hl_0xcb96(&mut self, bus: &mut Bus) -> (cycles: u8)
        requires
            old(bus)@.wf(),
        ensures
            final(bus)@.wf(),
            (*final(self), final(bus)@, cycles) == exec_cb_spec(*old(self), old(bus)@, decode_cb(0x96)),
    {
        self.i_res(bus, 2, Reg8::MemHl)
    }

    /// RES 2, A
    pub(crate) fn res_2_a_0xcb97(&mut self, bus: &mut Bus) -> (cycles: u8)
        requires
            old(bus)@.wf(),
        ensures
            final(bus)@.wf(),
            (*final(self), final(bus)@, cycles) == exec_cb_spec(*old(self), old(bus)@, decode_cb(0x97)),
    {
        self.i_res(bus, 2, Reg8::A)
    }

    /// RES 3, B
    pub(crate) fn res_3_b_0xcb98(&mut self, bus: &mut Bus) -> (cycles: u8)
        requires
            old(bus)@.wf(),
        ensures
            final(bus)@.wf(),
            (*final(self), final(bus)@, cycles) == exec_cb_spec(*old(self), old(bus)@, decode_cb(0x98)),
    {
        self.i_res(bus, 3, Reg8::B)
    }

    /// RES 3, C
    pub(crate) fn res_3_c_0xcb99(&mut self, bus: &mut Bus) -> (cycles: u8)
        requires
            old(bus)@.wf(),
        ensures
            final(bus)@.wf(),
            (*final(self), final(bus)@, cycles) == exec_cb_spec(*old(self), old(bus)@, decode_cb(0x99)),
    {
        self.i_res(bus, 3, Reg8::C)
    }

    /// RES 3, D
    pub(crate) fn res_3_d_0xcb9a(&mut self, bus: &mut Bus) -> (cycles: u8)
        requires
            old(bus)@.wf(),
        ensures
            final(bus)@.wf(),
            (*final(self), final(bus)@, cycles) == exec_cb_spec(*old(self), old(bus)@, decode_cb(0x9A)),
    {
        self.i_res(bus, 3, Reg8::D)
    }

    /// RES 3, E
    pub(crate) fn res_3_e_0xcb9b(&mut self, bus: &mut Bus) -> (cycles: u8)
        requires
            old(bus)@.wf(),
        ensures
            final(bus)@.wf(),
            (*final(self), final(bus)@, cycles) == exec_cb_spec(*old(self), old(bus)@, decode_cb(0x9B)),
    {
        self.i_res(bus, 3, Reg8::E)
    }

    /// RES 3, H
    pub(crate) fn res_3_h_0xcb9c(&mut self, bus: &mut Bus) -> (cycles: u8)
        requires
            old(bus)@.wf(),
        ensures
            final(bus)@.wf(),
            (*final(self), final(bus)@, cycles) == exec_cb_spec(*old(self), old(bus)@, decode_cb(0x9C)),
    {
        self.i_res(bus, 3, Reg8::H)
    }

    /// RES 3, L
    pub(crate) fn res_3_l_0xcb9d(&mut self, bus: &mut Bus) -> (cycles: u8)
        requires
            old(bus)@.wf(),
        ensures
            final(bus)@.wf(),
            (*final(self), final(bus)@, cycles) == exec_cb_spec(*old(self), old(bus)@, decode_cb(0x9D)),
    {
        self.i_res(bus, 3, Reg8::L)
    }

    /// RES 3, (HL)
    pub(crate) fn res_3_hl_0xcb9e(&mut self, bus: &mut Bus) -> (cycles: u8)
        requires
            old(bus)@.wf(),
        ensures
            final(bus)@.wf(),
            (*final(self), final(bus)@, cycles) == exec_cb_spec(*old(self), old(bus)@, decode_cb(0x9E)),
    {
        self.i_res(bus, 3, Reg8::MemHl)
    }

    /// RES 3, A
    pub(crate) fn res_3_a_0xcb9f(&mut self, bus: &mut Bus) -> (cycles: u8)
        requires
            old(bus)@.wf(),
        ensures
            final(bus)@.wf(),
            (*final(self), final(bus)@, cycles) == exec_cb_spec(*old(self), old(bus)@, decode_cb(0x9F)),
    {
        self.i_res(bus, 3, Reg8::A)
    }

    /// RES 4, B
    pub(crate) fn res_4_b_0xcba0(&mut self, bus: &mut Bus) -> (cycles: u8)
        requires
            old(bus)@.wf(),
        ensures
            final(bus)@.wf(),
            (*final(self), final(bus)@, cycles) == exec_cb_spec(*old(self), old(bus)@, decode_cb(0xA0)),
    {
        self.i_res(bus, 4, Reg8::B)
    }

    /// RES 4, C
    pub(crate) fn res_4_c_0xcba1(&mut self, bus: &mut Bus) -> (cycles: u8)
        requires
            old(bus)@.wf(),
        ensures
            final(bus)@.wf(),
            (*final(self), final(bus)@, cycles) == exec_cb_spec(*old(self), old(bus)@, decode_cb(0xA1)),
    {
        self.i_res(bus, 4, Reg8::C)
    }

    /// RES 4, D
    pub(crate) fn res_4_d_0xcba2(&mut self, bus: &mut Bus) -> (cycles: u8)
        requires
            old(bus)@.wf(),
        ensures
            final(bus)@.wf(),
            (*final(self), final(bus)@, cycles) == exec_cb_spec(*old(self), old(bus)@, decode_cb(0xA2)),
    {
        self.i_res(bus, 4, Reg8::D)
    }

    /// RES 4, E
    pub(crate) fn res_4_e_0xcba3(&mut self, bus: &mut Bus) -> (cycles: u8)
        requires
            old(bus)@.wf(),
        ensures
            final(bus)@.wf(),
            (*final(self), final(bus)@, cycles) == exec_cb_spec(*old(self), old(bus)@, decode_cb(0xA3)),
    {
        self.i_res(bus, 4, Reg8::E)
    }

    /// RES 4, H
    pub(crate) fn res_4_h_0xcba4(&mut self, bus: &mut Bus) -> (cycles: u8)
        requires
            old(bus)@.wf(),
        ensures
            final(bus)@.wf(),
            (*final(self), final(bus)@, cycles) == exec_cb_spec(*old(self), old(bus)@, decode_cb(0xA4)),
    {
        self.i_res(bus, 4, Reg8::H)
    }

    /// RES 4, L
    pub(crate) fn res_4_l_0xcba5(&mut self, bus: &mut Bus) -> (cycles: u8)
        requires
            old(bus)@.wf(),
        ensures
            final(bus)@.wf(),
            (*final(self), final(bus)@, cycles) == exec_cb_spec(*old(self), old(bus)@, decode_cb(0xA5)),
    {
        self.i_res(bus, 4, Reg8::L)
    }

    /// RES 4, (HL)
    pub(crate) fn res_4_hl_0xcba6(&mut self, bus: &mut Bus) -> (cycles: u8)
        requires
            old(bus)@.wf(),
        ensures
            final(bus)@.wf(),
            (*final(self), final(bus)@, cycles) == exec_cb_spec(*old(self), old(bus)@, decode_cb(0xA6)),
    {
        self.i_res(bus, 4, Reg8::MemHl)
    }

    /// RES 4, A
    pub(crate) fn res_4_a_0xcba7(&mut self, bus: &mut Bus) -> (cycles: u8)
        requires
            old(bus)@.wf(),
        ensures
            final(bus)@.wf(),
            (*final(self), final(bus)@, cycles) == exec_cb_spec(*old(self), old(bus)@, decode_cb(0xA7)),
    {
        self.i_res(bus, 4, Reg8::A)
    }

    /// RES 5, B
    pub(crate) fn res_5_b_0xcba8(&mut self, bus: &mut Bus) -> (cycles: u8)
        requires
            old(bus)@.wf(),
        ensures
            final(bus)@.wf(),
            (*final(self), final(bus)@, cycles) == exec_cb_spec(*old(self), old(bus)@, decode_cb(0xA8)),
    {
        self.i_res(bus, 5, Reg8::B)
    }

    /// RES 5, C
    pub(crate) fn res_5_c_0xcba9(&mut self, bus: &mut Bus) -> (cycles: u8)
        requires
            old(bus)@.wf(),
        ensures
            final(bus)@.wf(),
            (*final(self), final(bus)@, cycles) == exec_cb_spec(*old(self), old(bus)@, decode_cb(0xA9)),
    {
        self.i_res(bus, 5, Reg8::C)
    }

    /// RES 5, D
    pub(crate) fn res_5_d_0xcbaa(&mut self, bus: &mut Bus) -> (cycles: u8)
        requires
            old(bus)@.wf(),
        ensures
            final(bus)@.wf(),
            (*final(self), final(bus)@, cycles) == exec_cb_spec(*old(self), old(bus)@, decode_cb(0xAA)),
    {
        self.i_res(bus, 5, Reg8::D)
    }

    /// RES 5, E
    pub(crate) fn res_5_e_0xcbab(&mut self, bus: &mut Bus) -> (cycles: u8)
        requires
            old(bus)@.wf(),
        ensures
            final(bus)@.wf(),
            (*final(self), final(bus)@, cycles) == exec_cb_spec(*old(self), old(bus)@, decode_cb(0xAB)),
    {
        self.i_res(bus, 5, Reg8::E)
    }

    /// RES 5, H
    pub(crate) fn res_5_h_0xcbac(&mut self, bus: &mut Bus) -> (cycles: u8)
        requires
            old(bus)@.wf(),
        ensures
            final(bus)@.wf(),
            (*final(self), final(bus)@, cycles) == exec_cb_spec(*old(self), old(bus)@, decode_cb(0xAC)),
    {
        self.i_res(bus, 5, Reg8::H)
    }

    /// RES 5, L
    pub(crate) fn res_5_l_0xcbad(&mut self, bus: &mut Bus) -> (cycles: u8)
        requires
            old(bus)@.wf(),
        ensures
            final(bus)@.wf(),
            (*final(self), final(bus)@, cycles) == exec_cb_spec(*old(self), old(bus)@, decode_cb(0xAD)),
    {
        self.i_res(bus, 5, Reg8::L)
    }

    /// RES 5, (HL)
    pub(crate) fn res_5_hl_0xcbae(&mut self, bus: &mut Bus) -> (cycles: u8)
        requires
            old(bus)@.wf(),
        ensures
            final(bus)@.wf(),
            (*final(self), final(bus)@, cycles) == exec_cb_spec(*old(self), old(bus)@, decode_cb(0xAE)),
    {
        self.i_res(bus, 5, Reg8::MemHl)
    }

    /// RES 5, A
    pub(crate) fn res_5_a_0xcbaf(&mut self, bus: &mut Bus) -> (cycles: u8)
        requires
            old(bus)@.wf(),
        ensures
            final(bus)@.wf(),
            (*final(self), final(bus)@, cycles) == exec_cb_spec(*old(self), old(bus)@, decode_cb(0xAF)),
    {
        self.i_res(bus, 5, Reg8::A)
    }

    /// RES 6, B
    pub(crate) fn res_6_b_0xcbb0(&mut self, bus: &mut Bus) -> (cycles: u8)
        requires
            old(bus)@.wf(),
        ensures
            final(bus)@.wf(),
            (*final(self), final(bus)@, cycles) == exec_cb_spec(*old(self), old(bus)@, decode_cb(0xB0)),
    {
        self.i_res(bus, 6, Reg8::B)
    }

    /// RES 6, C
    pub(crate) fn res_6_c_0xcbb1(&mut self, bus: &mut Bus) -> (cycles: u8)
        requires
            old(bus)@.wf(),
        ensures
            final(bus)@.wf(),
            (*final(self), final(bus)@, cycles) == exec_cb_spec(*old(self), old(bus)@, decode_cb(0xB1)),
    {
        self.i_res(bus, 6, Reg8::C)
    }

    /// RES 6, D
    pub(crate) fn res_6_d_0xcbb2(&mut self, bus: &mut Bus) -> (cycles: u8)
        requires
            old(bus)@.wf(),
        ensures
            final(bus)@.wf(),
            (*final(self), final(bus)@, cycles) == exec_cb_spec(*old(self), old(bus)@, decode_cb(0xB2)),
    {
        self.i_res(bus, 6, Reg8::D)
    }

    /// RES 6, E
    pub(crate) fn res_6_e_0xcbb3(&mut self, bus: &mut Bus) -> (cycles: u8)
        requires
            old(bus)@.wf(),
        ensures
            final(bus)@.wf(),
            (*final(self), final(bus)@, cycles) == exec_cb_spec(*old(self), old(bus)@, decode_cb(0xB3)),
    {
        self.i_res(bus, 6, Reg8::E)
    }

    /// RES 6, H
    pub(crate) fn res_6_h_0xcbb4(&mut self, bus: &mut Bus) -> (cycles: u8)
        requires
            old(bus)@.wf(),
        ensures
            final(bus)@.wf(),
            (*final(self), final(bus)@, cycles) == exec_cb_spec(*old(self), old(bus)@, decode_cb(0xB4)),
    {
        self.i_res(bus, 6, Reg8::H)
    }

    /// RES 6, L
    pub(crate) fn res_6_l_0xcbb5(&mut self, bus: &mut Bus) -> (cycles: u8)
        requires
            old(bus)@.wf(),
        ensures
            final(bus)@.wf(),
            (*final(self), final(bus)@, cycles) == exec_cb_spec(*old(self), old(bus)@, decode_cb(0xB5)),
    {
        self.i_res(bus, 6, Reg8::L)
    }

    /// RES 6, (HL)
    pub(crate) fn res_6_hl_0xcbb6(&mut self, bus: &mut Bus) -> (cycles: u8)
        requires
            old(bus)@.wf(),
        ensures
            final(bus)@.wf(),
            (*final(self), final(bus)@, cycles) == exec_cb_spec(*old(self), old(bus)@, decode_cb(0xB6)),
    {
        self.i_res(bus, 6, Reg8::MemHl)
    }

    /// RES 6, A
    pub(crate) fn res_6_a_0xcbb7(&mut self, bus: &mut Bus) -> (cycles: u8)
        requires
            old(bus)@.wf(),
        ensures
            final(bus)@.wf(),
            (*final(self), final(bus)@, cycles) == exec_cb_spec(*old(self), old(bus)@, decode_cb(0xB7)),
    {
        self.i_res(bus, 6, Reg8::A)
    }

    /// RES 7, B
    pub(crate) fn res_7_b_0xcbb8(&mut self, bus: &mut Bus) -> (cycles: u8)
        requires
            old(bus)@.wf(),
        ensures
            final(bus)@.wf(),
            (*final(self), final(bus)@, cycles) == exec_cb_spec(*old(self), old(bus)@, decode_cb(0xB8)),
    {
        self.i_res(bus, 7, Reg8::B)
    }

    /// RES 7, C
    pub(crate) fn res_7_c_0xcbb9(&mut self, bus: &mut Bus) -> (cycles: u8)
        requires
            old(bus)@.wf(),
        ensures
            final(bus)@.wf(),
            (*final(self), final(bus)@, cycles) == exec_cb_spec(*old(self), old(bus)@, decode_cb(0xB9)),
    {
        self.i_res(bus, 7, Reg8::C)
    }

    /// RES 7, D
    pub(crate) fn res_7_d_0xcbba(&mut self, bus: &mut Bus) -> (cycles: u8)
        requires
            old(bus)@.wf(),
        ensures
            final(bus)@.wf(),
            (*final(self), final(bus)@, cycles) == exec_cb_spec(*old(self), old(bus)@, decode_cb(0xBA)),
    {
        self.i_res(bus, 7, Reg8::D)
    }

    /// RES 7, E
    pub(crate) fn res_7_e_0xcbbb(&mut self, bus: &mut Bus) -> (cycles: u8)
        requires
            old(bus)@.wf(),
        ensures
            final(bus)@.wf(),
            (*final(self), final(bus)@, cycles) == exec_cb_spec(*old(self), old(bus)@, decode_cb(0xBB)),
    {
        self.i_res(bus, 7, Reg8::E)
    }

    /// RES 7, H
    pub(crate) fn res_7_h_0xcbbc(&mut self, bus: &mut Bus) -> (cycles: u8)
        requires
            old(bus)@.wf(),
        ensures
            final(bus)@.wf(),
            (*final(self), final(bus)@, cycles) == exec_cb_spec(*old(self), old(bus)@, decode_cb(0xBC)),
    {
        self.i_res(bus, 7, Reg8::H)
    }

    /// RES 7, L
    pub(crate) fn res_7_l_0xcbbd(&mut self, bus: &mut Bus) -> (cycles: u8)
        requires
            old(bus)@.wf(),
        ensures
            final(bus)@.wf(),
            (*final(self), final(bus)@, cycles) == exec_cb_spec(*old(self), old(bus)@, decode_cb(0xBD)),
    {
        self.i_res(bus, 7, Reg8::L)
    }

    /// RES 7, (HL)
    pub(crate) fn res_7_hl_0xcbbe(&mut self, bus: &mut Bus) -> (cycles: u8)
        requires
            old(bus)@.wf(),
        ensures
            final(bus)@.wf(),
            (*final(self), final(bus)@, cycles) == exec_cb_spec(*old(self), old(bus)@, decode_cb(0xBE)),
    {
        self.i_res(bus, 7, Reg8::MemHl)
    }

    /// RES 7, A
    pub(crate) fn res_7_a_0xcbbf(&mut self, bus: &mut Bus) -> (cycles: u8)
        requires
            old(bus)@.wf(),
        ensures
            final(bus)@.wf(),
            (*final(self), final(bus)@, cycles) == exec_cb_spec(*old(self), old(bus)@, decode_cb(0xBF)),
    {
        self.i_res(bus, 7, Reg8::A)
    }

    /// SET 0, B
    pub(crate) fn set_0_b_0xcbc0(&mut self, bus: &mut Bus) -> (cycles: u8)
        requires
            old(bus)@.wf(),
        ensures
            final(bus)@.wf(),
            (*final(self), final(bus)@, cycles) == exec_cb_spec(*old(self), old(bus)@, decode_cb(0xC0)),
    {
        self.i_set(bus, 0, Reg8::B)
    }

    /// SET 0, C
    pub(crate) fn set_0_c_0xcbc1(&mut self, bus: &mut Bus) -> (cycles: u8)
        requires
            old(bus)@.wf(),
        ensures
            final(bus)@.wf(),
            (*final(self), final(bus)@, cycles) == exec_cb_spec(*old(self), old(bus)@, decode_cb(0xC1)),
    {
        self.i_set(bus, 0, Reg8::C)
    }

    /// SET 0, D
    pub(crate) fn set_0_d_0xcbc2(&mut self, bus: &mut Bus) -> (cycles: u8)
        requires
            old(bus)@.wf(),
        ensures
            final(bus)@.wf(),
            (*final(self), final(bus)@, cycles) == exec_cb_spec(*old(self), old(bus)@, decode_cb(0xC2)),
    {
        self.i_set(bus, 0, Reg8::D)
    }

    /// SET 0, E
    pub(crate) fn set_0_e_0xcbc3(&mut self, bus: &mut Bus) -> (cycles: u8)
        requires
            old(bus)@.wf(),
        ensures
            final(bus)@.wf(),
            (*final(self), final(bus)@, cycles) == exec_cb_spec(*old(self), old(bus)@, decode_cb(0xC3)),
    {
        self.i_set(bus, 0, Reg8::E)
    }

    /// SET 0, H
    pub(crate) fn set_0_h_0xcbc4(&mut self, bus: &mut Bus) -> (cycles: u8)
        requires
            old(bus)@.wf(),
        ensures
            final(bus)@.wf(),
            (*final(self), final(bus)@, cycles) == exec_cb_spec(*old(self), old(bus)@, decode_cb(0xC4)),
    {
        self.i_set(bus, 0, Reg8::H)
    }

    /// SET 0, L
    pub(crate) fn set_0_l_0xcbc5(&mut self, bus: &mut Bus) -> (cycles: u8)
        requires
            old(bus)@.wf(),
        ensures
            final(bus)@.wf(),
            (*final(self), final(bus)@, cycles) == exec_cb_spec(*old(self), old(bus)@, decode_cb(0xC5)),
    {
        self.i_set(bus, 0, Reg8::L)
    }

    /// SET 0, (HL)
    pub(crate) fn set_0_hl_0xcbc6(&mut self, bus: &mut Bus) -> (cycles: u8)
        requires
            old(bus)@.wf(),
        ensures
            final(bus)@.wf(),
            (*final(self), final(bus)@, cycles) == exec_cb_spec(*old(self), old(bus)@, decode_cb(0xC6)),
    {
        self.i_set(bus, 0, Reg8::MemHl)
    }

    /// SET 0, A
    pub(crate) fn set_0_a_0xcbc7(&mut self, bus: &mut Bus) -> (cycles: u8)
        requires
            old(bus)@.wf(),
        ensures
            final(bus)@.wf(),
            (*final(self), final(bus)@, cycles) == exec_cb_spec(*old(self), old(bus)@, decode_cb(0xC7)),
    {
        self.i_set(bus, 0, Reg8::A)
    }

    /// SET 1, B
    pub(crate) fn set_1_b_0xcbc8(&mut self, bus: &mut Bus) -> (cycles: u8)
        requires
            old(bus)@.wf(),
        ensures
            final(bus)@.wf(),
            (*final(self), final(bus)@, cycles) == exec_cb_spec(*old(self), old(bus)@, decode_cb(0xC8)),
    {
        self.i_set(bus, 1, Reg8::B)
    }

    /// SET 1, C
    pub(crate) fn set_1_c_0xcbc9(&mut self, bus: &mut Bus) -> (cycles: u8)
        requires
            old(bus)@.wf(),
        ensures
            final(bus)@.wf(),
            (*final(self), final(bus)@, cycles) == exec_cb_spec(*old(self), old(bus)@, decode_cb(0xC9)),
    {
        self.i_set(bus, 1, Reg8::C)
    }

    /// SET 1, D
    pub(crate) fn set_1_d_0xcbca(&mut self, bus: &mut Bus) -> (cycles: u8)
        requires
            old(bus)@.wf(),
        ensures
            final(bus)@.wf(),
            (*final(self), final(bus)@, cycles) == exec_cb_spec(*old(self), old(bus)@, decode_cb(0xCA)),
    {
        self.i_set(bus, 1, Reg8::D)
    }

    /// SET 1, E
    pub(crate) fn set_1_e_0xcbcb(&mut self, bus: &mut Bus) -> (cycles: u8)
        requires
            old(bus)@.wf(),
        ensures
            final(bus)@.wf(),
            (*final(self), final(bus)@, cycles) == exec_cb_spec(*old(self), old(bus)@, decode_cb(0xCB)),
    {
        self.i_set(bus, 1, Reg8::E)
    }

    /// SET 1, H
    pub(crate) fn set_1_h_0xcbcc(&mut self, bus: &mut Bus) -> (cycles: u8)
        requires
            old(bus)@.wf(),
        ensures
            final(bus)@.wf(),
            (*final(self), final(bus)@, cycles) == exec_cb_spec(*old(self), old(bus)@, decode_cb(0xCC)),
    {
        self.i_set(bus, 1, Reg8::H)
    }

    /// SET 1, L
    pub(crate) fn set_1_l_0xcbcd(&mut self, bus: &mut Bus) -> (cycles: u8)
        requires
            old(bus)@.wf(),
        ensures
            final(bus)@.wf(),
            (*final(self), final(bus)@, cycles) == exec_cb_spec(*old(self), old(bus)@, decode_cb(0xCD)),
    {
        self.i_set(bus, 1, Reg8::L)
    }

    /// SET 1, (HL)
    pub(crate) fn set_1_hl_0xcbce(&mut self, bus: &mut Bus) -> (cycles: u8)
        requires
            old(bus)@.wf(),
        ensures
            final(bus)@.wf(),
            (*final(self), final(bus)@, cycles) == exec_cb_spec(*old(self), old(bus)@, decode_cb(0xCE)),
    {
        self.i_set(bus, 1, Reg8::MemHl)
    }

    /// SET 1, A
    pub(crate) fn set_1_a_0xcbcf(&mut self, bus: &mut Bus) -> (cycles: u8)
        requires
            old(bus)@.wf(),
        ensures
            final(bus)@.wf(),
            (*final(self), final(bus)@, cycles) == exec_cb_spec(*old(self), old(bus)@, decode_cb(0xCF)),
    {
        self.i_set(bus, 1, Reg8::A)
    }

    /// SET 2, B
    pub(crate) fn set_2_b_0xcbd0(&mut self, bus: &mut Bus) -> (cycles: u8)
        requires
            old(bus)@.wf(),
        ensures
            final(bus)@.wf(),
            (*final(self), final(bus)@, cycles) == exec_cb_spec(*old(self), old(bus)@, decode_cb(0xD0)),
    {
        self.i_set(bus, 2, Reg8::B)
    }

    /// SET 2, C
    pub(crate) fn set_2_c_0xcbd1(&mut self, bus: &mut Bus) -> (cycles: u8)
        requires
            old(bus)@.wf(),
        ensures
            final(bus)@.wf(),
            (*final(self), final(bus)@, cycles) == exec_cb_spec(*old(self), old(bus)@, decode_cb(0xD1)),
    {
        self.i_set(bus, 2, Reg8::C)
    }

    /// SET 2, D
    pub(crate) fn set_2_d_0xcbd2(&mut self, bus: &mut Bus) -> (cycles: u8)
        requires
            old(bus)@.wf(),
        ensures
            final(bus)@.wf(),
            (*final(self), final(bus)@, cycles) == exec_cb_spec(*old(self), old(bus)@, decode_cb(0xD2)),
    {
        self.i_set(bus, 2, Reg8::D)
    }

    /// SET 2, E
    pub(crate) fn set_2_e_0xcbd3(&mut self, bus: &mut Bus) -> (cycles: u8)
        requires
            old(bus)@.wf(),
        ensures
            final(bus)@.wf(),
            (*final(self), final(bus)@, cycles) == exec_cb_spec(*old(self), old(bus)@, decode_cb(0xD3)),
    {
        self.i_set(bus, 2, Reg8::E)
    }

    /// SET 2, H
    pub(crate) fn set_2_h_0xcbd4(&mut self, bus: &mut Bus) -> (cycles: u8)
        requires
            old(bus)@.wf(),
        ensures
            final(bus)@.wf(),
            (*final(self), final(bus)@, cycles) == exec_cb_spec(*old(self), old(bus)@, decode_cb(0xD4)),
    {
        self.i_set(bus, 2, Reg8::H)
    }

    /// SET 2, L
    pub(crate) fn set_2_l_0xcbd5(&mut self, bus: &mut Bus) -> (cycles: u8)
        requires
            old(bus)@.wf(),
        ensures
            final(bus)@.wf(),
            (*final(self), final(bus)@, cycles) == exec_cb_spec(*old(self), old(bus)@, decode_cb(0xD5)),
    {
        self.i_set(bus, 2, Reg8::L)
    }

    /// SET 2, (HL)
    pub(crate) fn set_2_hl_0xcbd6(&mut self, bus: &mut Bus) -> (cycles: u8)
        requires
            old(bus)@.wf(),
        ensures
            final(bus)@.wf(),
            (*final(self), final(bus)@, cycles) == exec_cb_spec(*old(self), old(bus)@, decode_cb(0xD6)),
    {
        self.i_set(bus, 2, Reg8::MemHl)
    }

    /// SET 2, A
    pub(crate) fn set_2_a_0xcbd7(&mut self, bus: &mut Bus) -> (cycles: u8)
        requires
            old(bus)@.wf(),
        ensures
            final(bus)@.wf(),
            (*final(self), final(bus)@, cycles) == exec_cb_spec(*old(self), old(bus)@, decode_cb(0xD7)),
    {
        self.i_set(bus, 2, Reg8::A)
    }

    /// SET 3, B
    pub(crate) fn set_3_b_0xcbd8(&mut self, bus: &mut Bus) -> (cycles: u8)
        requires
            old(bus)@.wf(),
        ensures
            final(bus)@.wf(),
            (*final(self), final(bus)@, cycles) == exec_cb_spec(*old(self), old(bus)@, decode_cb(0xD8)),
    {
        self.i_set(bus, 3, Reg8::B)
    }

    /// SET 3, C
    pub(crate) fn set_3_c_0xcbd9(&mut self, bus: &mut Bus) -> (cycles: u8)
        requires
            old(bus)@.wf(),
        ensures
            final(bus)@.wf(),
            (*final(self), final(bus)@, cycles) == exec_cb_spec(*old(self), old(bus)@, decode_cb(0xD9)),
    {
        self.i_set(bus, 3, Reg8::C)
    }

    /// SET 3, D
    pub(crate) fn set_3_d_0xcbda(&mut self, bus: &mut Bus) -> (cycles: u8)
        requires
            old(bus)@.wf(),
        ensures
            final(bus)@.wf(),
            (*final(self), final(bus)@, cycles) == exec_cb_spec(*old(self), old(bus)@, decode_cb(0xDA)),
    {
        self.i_set(bus, 3, Reg8::D)
    }

    /// SET 3, E
    pub(crate) fn set_3_e_0xcbdb(&mut self, bus: &mut Bus) -> (cycles: u8)
        requires
            old(bus)@.wf(),
        ensures
            final(bus)@.wf(),
            (*final(self), final(bus)@, cycles) == exec_cb_spec(*old(self), old(bus)@, decode_cb(0xDB)),
    {
        self.i_set(bus, 3, Reg8::E)
    }

    /// SET 3, H
    pub(crate) fn set_3_h_0xcbdc(&mut self, bus: &mut Bus) -> (cycles: u8)
        requires
            old(bus)@.wf(),
        ensures
            final(bus)@.wf(),
            (*final(self), final(bus)@, cycles) == exec_cb_spec(*old(self), old(bus)@, decode_cb(0xDC)),
    {
        self.i_set(bus, 3, Reg8::H)
    }

    /// SET 3, L
    pub(crate) fn set_3_l_0xcbdd(&mut self, bus: &mut Bus) -> (cycles: u8)
        requires
            old(bus)@.wf(),
        ensures
            final(bus)@.wf(),
            (*final(self), final(bus)@, cycles) == exec_cb_spec(*old(self), old(bus)@, decode_cb(0xDD)),
    {
        self.i_set(bus, 3, Reg8::L)
    }

    /// SET 3, (HL)
    pub(crate) fn set_3_hl_0xcbde(&mut self, bus: &mut Bus) -> (cycles: u8)
        requires
            old(bus)@.wf(),
        ensures
            final(bus)@.wf(),
            (*final(self), final(bus)@, cycles) == exec_cb_spec(*old(self), old(bus)@, decode_cb(0xDE)),
    {
        self.i_set(bus, 3, Reg8::MemHl)
    }

    /// SET 3, A
    pub(crate) fn set_3_a_0xcbdf(&mut self, bus: &mut Bus) -> (cycles: u8)
        requires
            old(bus)@.wf(),
        ensures
            final(bus)@.wf(),
            (*final(self), final(bus)@, cycles) == exec_cb_spec(*old(self), old(bus)@, decode_cb(0xDF)),
    {
        self.i_set(bus, 3, Reg8::A)
    }

    /// SET 4, B
    pub(crate) fn set_4_b_0xcbe0(&mut self, bus: &mut Bus) -> (cycles: u8)
        requires
            old(bus)@.wf(),
        ensures
            final(bus)@.wf(),
            (*final(self), final(bus)@, cycles) == exec_cb_spec(*old(self), old(bus)@, decode_cb(0xE0)),
    {
        self.i_set(bus, 4, Reg8::B)
    }

    /// SET 4, C
    pub(crate) fn set_4_c_0xcbe1(&mut self, bus: &mut Bus) -> (cycles: u8)
        requires
            old(bus)@.wf(),
        ensures
            final(bus)@.wf(),
            (*final(self), final(bus)@, cycles) == exec_cb_spec(*old(self), old(bus)@, decode_cb(0xE1)),
    {
        self.i_set(bus, 4, Reg8::C)
    }

    /// SET 4, D
    pub(crate) fn set_4_d_0xcbe2(&mut self, bus: &mut Bus) -> (cycles: u8)
        requires
            old(bus)@.wf(),
        ensures
            final(bus)@.wf(),
            (*final(self), final(bus)@, cycles) == exec_cb_spec(*old(self), old(bus)@, decode_cb(0xE2)),
    {
        self.i_set(bus, 4, Reg8::D)
    }

    /// SET 4, E
    pub(crate) fn set_4_e_0xcbe3(&mut self, bus: &mut Bus) -> (cycles: u8)
        requires
            old(bus)@.wf(),
        ensures
            final(bus)@.wf(),
            (*final(self), final(bus)@, cycles) == exec_cb_spec(*old(self), old(bus)@, decode_cb(0xE3)),
    {
        self.i_set(bus, 4, Reg8::E)
    }

    /// SET 4, H
    pub(crate) fn set_4_h_0xcbe4(&mut self, bus: &mut Bus) -> (cycles: u8)
        requires
            old(bus)@.wf(),
        ensures
            final(bus)@.wf(),
            (*final(self), final(bus)@, cycles) == exec_cb_spec(*old(self), old(bus)@, decode_cb(0xE4)),
    {
        self.i_set(bus, 4, Reg8::H)
    }

    /// SET 4, L
    pub(crate) fn set_4_l_0xcbe5(&mut self, bus: &mut Bus) -> (cycles: u8)
        requires
            old(bus)@.wf(),
        ensures
            final(bus)@.wf(),
            (*final(self), final(bus)@, cycles) == exec_cb_spec(*old(self), old(bus)@, decode_cb(0xE5)),
    {
        self.i_set(bus, 4, Reg8::L)
    }

    /// SET 4, (HL)
    pub(crate) fn set_4_hl_0xcbe6(&mut self, bus: &mut Bus) -> (cycles: u8)
        requires
            old(bus)@.wf(),
        ensures
            final(bus)@.wf(),
            (*final(self), final(bus)@, cycles) == exec_cb_spec(*old(self), old(bus)@, decode_cb(0xE6)),
    {
        self.i_set(bus, 4, Reg8::MemHl)
    }

    /// SET 4, A
    pub(crate) fn set_4_a_0xcbe7(&mut self, bus: &mut Bus) -> (cycles: u8)
        requires
            old(bus)@.wf(),
        ensures
            final(bus)@.wf(),
            (*final(self), final(bus)@, cycles) == exec_cb_spec(*old(self), old(bus)@, decode_cb(0xE7)),
    {
        self.i_set(bus, 4, Reg8::A)
    }

    /// SET 5, B
    pub(crate) fn set_5_b_0xcbe8(&mut self, bus: &mut Bus) -> (cycles: u8)
        requires
            old(bus)@.wf(),
        ensures
            final(bus)@.wf(),
            (*final(self), final(bus)@, cycles) == exec_cb_spec(*old(self), old(bus)@, decode_cb(0xE8)),
    {
        self.i_set(bus, 5, Reg8::B)
    }

    /// SET 5, C
    pub(crate) fn set_5_c_0xcbe9(&mut self, bus: &mut Bus) -> (cycles: u8)
        requires
            old(bus)@.wf(),
        ensures
            final(bus)@.wf(),
            (*final(self), final(bus)@, cycles) == exec_cb_spec(*old(self), old(bus)@, decode_cb(0xE9)),
    {
        self.i_set(bus, 5, Reg8::C)
    }

    /// SET 5, D
    pub(crate) fn set_5_d_0xcbea(&mut self, bus: &mut Bus) -> (cycles: u8)
        requires
            old(bus)@.wf(),
        ensures
            final(bus)@.wf(),
            (*final(self), final(bus)@, cycles) == exec_cb_spec(*old(self), old(bus)@, decode_cb(0xEA)),
    {
        self.i_set(bus, 5, Reg8::D)
    }

    /// SET 5, E
    pub(crate) fn set_5_e_0xcbeb(&mut self, bus: &mut Bus) -> (cycles: u8)
        requires
            old(bus)@.wf(),
        ensures
            final(bus)@.wf(),
            (*final(self), final(bus)@, cycles) == exec_cb_spec(*old(self), old(bus)@, decode_cb(0xEB)),
    {
        self.i_set(bus, 5, Reg8::E)
    }

    /// SET 5, H
    pub(crate) fn set_5_h_0xcbec(&mut self, bus: &mut Bus) -> (cycles: u8)
        requires
            old(bus)@.wf(),
        ensures
            final(bus)@.wf(),
            (*final(self), final(bus)@, cycles) == exec_cb_spec(*old(self), old(bus)@, decode_cb(0xEC)),
    {
        self.i_set(bus, 5, Reg8::H)
    }

    /// SET 5, L
    pub(crate) fn set_5_l_0xcbed(&mut self, bus: &mut Bus) -> (cycles: u8)
        requires
            old(bus)@.wf(),
        ensures
            final(bus)@.wf(),
            (*final(self), final(bus)@, cycles) == exec_cb_spec(*old(self), old(bus)@, decode_cb(0xED)),
    {
        self.i_set(bus, 5, Reg8::L)
    }

    /// SET 5, (HL)
    pub(crate) fn set_5_hl_0xcbee(&mut self, bus: &mut Bus) -> (cycles: u8)
        requires
            old(bus)@.wf(),
        ensures
            final(bus)@.wf(),
            (*final(self), final(bus)@, cycles) == exec_cb_spec(*old(self), old(bus)@, decode_cb(0xEE)),
    {
        self.i_set(bus, 5, Reg8::MemHl)
    }

    /// SET 5, A
    pub(crate) fn set_5_a_0xcbef(&mut self, bus: &mut Bus) -> (cycles: u8)
        requires
            old(bus)@.wf(),
        ensures
            final(bus)@.wf(),
            (*final(self), final(bus)@, cycles) == exec_cb_spec(*old(self), old(bus)@, decode_cb(0xEF)),
    {
        self.i_set(bus, 5, Reg8::A)
    }

    /// SET 6, B
    pub(crate) fn set_6_b_0xcbf0(&mut self, bus: &mut Bus) -> (cycles: u8)
        requires
            old(bus)@.wf(),
        ensures
            final(bus)@.wf(),
            (*final(self), final(bus)@, cycles) == exec_cb_spec(*old(self), old(bus)@, decode_cb(0xF0)),
    {
        self.i_set(bus, 6, Reg8::B)
    }

    /// SET 6, C
    pub(crate) fn set_6_c_0xcbf1(&mut self, bus: &mut Bus) -> (cycles: u8)
        requires
            old(bus)@.wf(),
        ensures
            final(bus)@.wf(),
            (*final(self), final(bus)@, cycles) == exec_cb_spec(*old(self), old(bus)@, decode_cb(0xF1)),
    {
        self.i_set(bus, 6, Reg8::C)
    }

    /// SET 6, D
    pub(crate) fn set_6_d_0xcbf2(&mut self, bus: &mut Bus) -> (cycles: u8)
        requires
            old(bus)@.wf(),
        ensures
            final(bus)@.wf(),
            (*final(self), final(bus)@, cycles) == exec_cb_spec(*old(self), old(bus)@, decode_cb(0xF2)),
    {
        self.i_set(bus, 6, Reg8::D)
    }

    /// SET 6, E
    pub(crate) fn set_6_e_0xcbf3(&mut self, bus: &mut Bus) -> (cycles: u8)
        requires
            old(bus)@.wf(),
        ensures
            final(bus)@.wf(),
            (*final(self), final(bus)@, cycles) == exec_cb_spec(*old(self), old(bus)@, decode_cb(0xF3)),
    {
        self.i_set(bus, 6, Reg8::E)
    }

    /// SET 6, H
    pub(crate) fn set_6_h_0xcbf4(&mut self, bus: &mut Bus) -> (cycles: u8)
        requires
            old(bus)@.wf(),
        ensures
            final(bus)@.wf(),
            (*final(self), final(bus)@, cycles) == exec_cb_spec(*old(self), old(bus)@, decode_cb(0xF4)),
    {
        self.i_set(bus, 6, Reg8::H)
    }

    /// SET 6, L
    pub(crate) fn set_6_l_0xcbf5(&mut self, bus: &mut Bus) -> (cycles: u8)
        requires
            old(bus)@.wf(),
        ensures
            final(bus)@.wf(),
            (*final(self), final(bus)@, cycles) == exec_cb_spec(*old(self), old(bus)@, decode_cb(0xF5)),
    {
        self.i_set(bus, 6, Reg8::L)
    }

    /// SET 6, (HL)
    pub(crate) fn set_6_hl_0xcbf6(&mut self, bus: &mut Bus) -> (cycles: u8)
        requires
            old(bus)@.wf(),
        ensures
            final(bus)@.wf(),
            (*final(self), final(bus)@, cycles) == exec_cb_spec(*old(self), old(bus)@, decode_cb(0xF6)),
    {
        self.i_set(bus, 6, Reg8::MemHl)
    }

    /// SET 6, A
    pub(crate) fn set_6_a_0xcbf7(&mut self, bus: &mut Bus) -> (cycles: u8)
        requires
            old(bus)@.wf(),
        ensures
            final(bus)@.wf(),
            (*final(self), final(bus)@, cycles) == exec_cb_spec(*old(self), old(bus)@, decode_cb(0xF7)),
    {
        self.i_set(bus, 6, Reg8::A)
    }

    /// SET 7, B
    pub(crate) fn set_7_b_0xcbf8(&mut self, bus: &mut Bus) -> (cycles: u8)
        requires
            old(bus)@.wf(),
        ensures
            final(bus)@.wf(),
            (*final(self), final(bus)@, cycles) == exec_cb_spec(*old(self), old(bus)@, decode_cb(0xF8)),
    {
        self.i_set(bus, 7, Reg8::B)
    }

    /// SET 7, C
    pub(crate) fn set_7_c_0xcbf9(&mut self, bus: &mut Bus) -> (cycles: u8)
        requires
            old(bus)@.wf(),
        ensures
            final(bus)@.wf(),
            (*final(self), final(bus)@, cycles) == exec_cb_spec(*old(self), old(bus)@, decode_cb(0xF9)),
    {
        self.i_set(bus, 7, Reg8::C)
    }

    /// SET 7, D
    pub(crate) fn set_7_d_0xcbfa(&mut self, bus: &mut Bus) -> (cycles: u8)
        requires
            old(bus)@.wf(),
        ensures
            final(bus)@.wf(),
            (*final(self), final(bus)@, cycles) == exec_cb_spec(*old(self), old(bus)@, decode_cb(0xFA)),
    {
        self.i_set(bus, 7, Reg8::D)
    }

    /// SET 7, E
    pub(crate) fn set_7_e_0xcbfb(&mut self, bus: &mut Bus) -> (cycles: u8)
        requires
            old(bus)@.wf(),
        ensures
            final(bus)@.wf(),
            (*final(self), final(bus)@, cycles) == exec_cb_spec(*old(self), old(bus)@, decode_cb(0xFB)),
    {
        self.i_set(bus, 7, Reg8::E)
    }

    /// SET 7, H
    pub(crate) fn set_7_h_0xcbfc(&mut self, bus: &mut Bus) -> (cycles: u8)
        requires
            old(bus)@.wf(),
        ensures
            final(bus)@.wf(),
            (*final(self), final(bus)@, cycles) == exec_cb_spec(*old(self), old(bus)@, decode_cb(0xFC)),
    {
        self.i_set(bus, 7, Reg8::H)
    }

    /// SET 7, L
    pub(crate) fn set_7_l_0xcbfd(&mut self, bus: &mut Bus) -> (cycles: u8)
        requires
            old(bus)@.wf(),
        ensures
            final(bus)@.wf(),
            (*final(self), final(bus)@, cycles) == exec_cb_spec(*old(self), old(bus)@, decode_cb(0xFD)),
    {
        self.i_set(bus, 7, Reg8::L)
    }

    /// SET 7, (HL)
    pub(crate) fn set_7_hl_0xcbfe(&mut self, bus: &mut Bus) -> (cycles: u8)
        requires
            old(bus)@.wf(),
        ensures
            final(bus)@.wf(),
            (*final(self), final(bus)@, cycles) == exec_cb_spec(*old(self), old(bus)@, decode_cb(0xFE)),
    {
        self.i_set(bus, 7, Reg8::MemHl)
    }

    /// SET 7, A
    pub(crate) fn set_7_a_0xcbff(&mut self, bus: &mut Bus) -> (cycles: u8)
        requires
            old(bus)@.wf(),
        ensures
            final(bus)@.wf(),
            (*final(self), final(bus)@, cycles) == exec_cb_spec(*old(self), old(bus)@, decode_cb(0xFF)),
    {
        self.i_set(bus, 7, Reg8::A)
    }

}

} // verus!
