use rustboy::cartridges::{BankError, Cartridge, LoadError};
use rustboy::cpu::CPU;
use rustboy::interruption::Peripheral;
use rustboy::mother_board::MotherBoard;

/// A ROM image of `banks` 16 KiB banks with a valid header checksum.
fn rom_image(cart_type: u8, ram_size: u8, banks: usize) -> Vec<u8> {
    rom_image_sized(cart_type, 0x00, ram_size, banks)
}

fn rom_image_sized(cart_type: u8, rom_size: u8, ram_size: u8, banks: usize) -> Vec<u8> {
    let mut r = vec![0u8; banks * 0x4000];
    r[0x147] = cart_type;
    r[0x148] = rom_size;
    r[0x149] = ram_size;
    let mut x: u8 = 0;
    for m in 0x134..=0x14C {
        x = x.wrapping_sub(r[m]).wrapping_sub(1);
    }
    r[0x14D] = x;
    r
}

fn machine_with_code(at: u16, code: &[u8]) -> MotherBoard {
    let mut mb = MotherBoard::new(rom_image(0x00, 0x00, 2)).unwrap();
    for (i, b) in code.iter().enumerate() {
        mb.bus.write(at + i as u16, *b);
    }
    mb.cpu.registers.pc = at;
    mb
}

#[test]
fn reset_state() {
    let mut cpu = CPU::new();
    cpu.registers.a = 0x55;
    cpu.ime = true;
    cpu.reset();
    let r = cpu.registers;
    assert_eq!(r.a, 0x01);
    assert_eq!(u8::from(r.f), 0xB0);
    assert_eq!(r.af(), 0x01B0);
    assert_eq!(r.bc(), 0x0013);
    assert_eq!(r.de(), 0x00D8);
    assert_eq!(r.hl(), 0x014D);
    assert_eq!(r.sp, 0xFFFE);
    assert_eq!(r.pc, 0x0100);
    assert_eq!(cpu.ime, false);
}

#[test]
fn inc_b_from_0x0f() {
    let mut mb = machine_with_code(0xC000, &[0x04]);
    mb.cpu.registers.b = 0x0F;
    let cycles = mb.cpu.tick(&mut mb.bus);
    assert_eq!(mb.cpu.registers.b, 0x10);
    assert_eq!(mb.cpu.registers.f.z, false);
    assert_eq!(mb.cpu.registers.f.n, false);
    assert_eq!(mb.cpu.registers.f.h, true);
    assert_eq!(cycles, 4);
}

#[test]
fn daa_after_add() {
    let mut mb = machine_with_code(0xC000, &[0xC6, 0x38, 0x27]);
    mb.cpu.registers.a = 0x45;
    let cycles = mb.cpu.tick(&mut mb.bus);
    assert_eq!(cycles, 8);
    assert_eq!(mb.cpu.registers.a, 0x7D);
    // 0x5 + 0x8 = 0xD carries nothing out of bit 3, so the half-carry rule
    // for ADD leaves H clear here.
    assert_eq!(mb.cpu.registers.f.h, false);
    mb.cpu.tick(&mut mb.bus);
    assert_eq!(mb.cpu.registers.a, 0x83);
    assert_eq!(mb.cpu.registers.f.c, false);
    assert_eq!(mb.cpu.registers.f.h, false);
}

#[test]
fn add_sp_negative_offset() {
    let mut mb = machine_with_code(0xC000, &[0xE8, 0xFE]);
    mb.cpu.registers.sp = 0xFFF0;
    let cycles = mb.cpu.tick(&mut mb.bus);
    assert_eq!(mb.cpu.registers.sp, 0xFFEE);
    assert_eq!(mb.cpu.registers.f.z, false);
    assert_eq!(mb.cpu.registers.f.n, false);
    // Low byte 0xF0 plus 0xFE: no carry out of bit 3, carry out of bit 7.
    assert_eq!(mb.cpu.registers.f.h, false);
    assert_eq!(mb.cpu.registers.f.c, true);
    assert_eq!(cycles, 16);
}

#[test]
fn signed_jr_taken() {
    let mut rom = rom_image(0x00, 0x00, 2);
    rom[0x0300] = 0x28;
    rom[0x0301] = 0xFE;
    let mut mb = MotherBoard::new(rom).unwrap();
    mb.cpu.registers.pc = 0x0300;
    mb.cpu.registers.f.z = true;
    let cycles = mb.cpu.tick(&mut mb.bus);
    assert_eq!(mb.cpu.registers.pc, 0x0300);
    assert_eq!(cycles, 12);
    mb.cpu.registers.f.z = false;
    let cycles = mb.cpu.tick(&mut mb.bus);
    assert_eq!(mb.cpu.registers.pc, 0x0302);
    assert_eq!(cycles, 8);
}

#[test]
fn oam_dma_copies_page() {
    let mut mb = machine_with_code(0xD000, &[0x3E, 0xC0, 0xE0, 0x46]);
    for i in 0..0xA0u16 {
        mb.bus.write(0xC000 + i, i as u8);
    }
    mb.cpu.tick(&mut mb.bus);
    mb.cpu.tick(&mut mb.bus);
    for i in 0..0xA0u16 {
        assert_eq!(mb.bus.read(0xFE00 + i), i as u8);
    }
}

#[test]
fn push_pop_round_trip_in_hram() {
    // PUSH BC; POP DE
    let mut mb = machine_with_code(0xC000, &[0xC5, 0xD1]);
    mb.cpu.registers.sp = 0xFFFE;
    mb.cpu.registers.set_bc(0xBEEF);
    assert_eq!(mb.cpu.tick(&mut mb.bus), 16);
    assert_eq!(mb.cpu.registers.sp, 0xFFFC);
    assert_eq!(mb.bus.read(0xFFFD), 0xBE);
    assert_eq!(mb.bus.read(0xFFFC), 0xEF);
    assert_eq!(mb.cpu.tick(&mut mb.bus), 12);
    assert_eq!(mb.cpu.registers.de(), 0xBEEF);
    assert_eq!(mb.cpu.registers.sp, 0xFFFE);
}

#[test]
fn pop_af_drops_low_nibble() {
    // PUSH BC; POP AF
    let mut mb = machine_with_code(0xC000, &[0xC5, 0xF1]);
    mb.cpu.registers.sp = 0xFFFE;
    mb.cpu.registers.set_bc(0x1213);
    mb.cpu.tick(&mut mb.bus);
    mb.cpu.tick(&mut mb.bus);
    assert_eq!(mb.cpu.registers.af(), 0x1210);
}

#[test]
fn hl_increment_then_decrement() {
    // LD HL,0xC800; LD (HL+),A; LD A,(HL-)
    let mut mb = machine_with_code(0xC000, &[0x21, 0x00, 0xC8, 0x22, 0x3A]);
    mb.cpu.registers.a = 0x42;
    mb.bus.write(0xC801, 0x42);
    mb.cpu.tick(&mut mb.bus);
    mb.cpu.tick(&mut mb.bus);
    assert_eq!(mb.cpu.registers.hl(), 0xC801);
    mb.cpu.tick(&mut mb.bus);
    assert_eq!(mb.cpu.registers.hl(), 0xC800);
    assert_eq!(mb.cpu.registers.a, 0x42);
    assert_eq!(mb.bus.read(0xC800), 0x42);
}

#[test]
fn div_write_reads_back_zero() {
    let mut mb = MotherBoard::new(rom_image(0x00, 0x00, 2)).unwrap();
    for _ in 0..10 {
        mb.bus.advance(200);
    }
    assert!(mb.bus.read(0xFF04) > 0);
    mb.bus.write(0xFF04, 0x5A);
    assert_eq!(mb.bus.read(0xFF04), 0);
}

#[test]
fn echo_ram_mirrors_work_ram() {
    let mut mb = MotherBoard::new(rom_image(0x00, 0x00, 2)).unwrap();
    mb.bus.write(0xE123, 0x77);
    assert_eq!(mb.bus.read(0xC123), 0x77);
    mb.bus.write(0xDD00, 0x31);
    assert_eq!(mb.bus.read(0xFD00), 0x31);
    // The unused gap reads as zero and ignores writes.
    mb.bus.write(0xFEA0, 0x12);
    assert_eq!(mb.bus.read(0xFEA0), 0);
}

#[test]
fn di_blocks_and_ei_allows_interrupts() {
    // DI; NOP; EI; NOP
    let mut mb = machine_with_code(0xC000, &[0xF3, 0x00, 0xFB, 0x00]);
    mb.cpu.registers.sp = 0xFFFE;
    mb.cpu.ime = true;
    mb.cpu.tick(&mut mb.bus);
    assert_eq!(mb.cpu.ime, false);
    mb.bus.write(0xFFFF, 0x04);
    mb.bus.write(0xFF0F, 0x04);
    assert_eq!(mb.cpu.tick(&mut mb.bus), 4);
    assert_eq!(mb.cpu.registers.pc, 0xC002);
    mb.cpu.tick(&mut mb.bus);
    assert_eq!(mb.cpu.ime, true);
    assert_eq!(mb.cpu.tick(&mut mb.bus), 20);
    assert_eq!(mb.cpu.registers.pc, 0x0050);
    assert_eq!(mb.cpu.ime, false);
    assert_eq!(mb.bus.read(0xFF0F), 0);
    assert_eq!(mb.bus.read(0xFFFD), 0xC0);
    assert_eq!(mb.bus.read(0xFFFC), 0x03);
}

#[test]
fn interrupt_priority_and_halt() {
    // HALT
    let mut mb = machine_with_code(0xC000, &[0x76, 0x00]);
    mb.cpu.registers.sp = 0xFFFE;
    mb.cpu.tick(&mut mb.bus);
    assert!(mb.cpu.halted);
    assert_eq!(mb.cpu.tick(&mut mb.bus), 4);
    assert_eq!(mb.cpu.registers.pc, 0xC001);
    mb.bus.write(0xFFFF, 0x1F);
    mb.bus.write(0xFF0F, 0x12);
    assert_eq!(mb.bus.pending_interrupt(), Some(Peripheral::LcdStatus));
    // IME is off: the CPU wakes and runs on without servicing.
    mb.cpu.tick(&mut mb.bus);
    assert!(!mb.cpu.halted);
    assert_eq!(mb.cpu.registers.pc, 0xC002);
}

#[test]
fn illegal_opcode_is_four_cycle_no_op() {
    let mut mb = machine_with_code(0xC000, &[0xD3]);
    let before = mb.cpu.registers;
    assert_eq!(mb.cpu.tick(&mut mb.bus), 4);
    assert_eq!(mb.cpu.registers.pc, 0xC001);
    assert_eq!(mb.cpu.registers.a, before.a);
}

#[test]
fn call_and_ret() {
    // CALL 0xC010 ... at 0xC010: RET
    let mut mb = machine_with_code(0xC000, &[0xCD, 0x10, 0xC0]);
    mb.bus.write(0xC010, 0xC9);
    mb.cpu.registers.sp = 0xFFFE;
    assert_eq!(mb.cpu.tick(&mut mb.bus), 24);
    assert_eq!(mb.cpu.registers.pc, 0xC010);
    assert_eq!(mb.cpu.tick(&mut mb.bus), 16);
    assert_eq!(mb.cpu.registers.pc, 0xC003);
    assert_eq!(mb.cpu.registers.sp, 0xFFFE);
}

#[test]
fn cb_prefixed_operations() {
    // SWAP A; BIT 7,A; SET 0,B; RES 4,A
    let mut mb = machine_with_code(0xC000, &[0xCB, 0x37, 0xCB, 0x7F, 0xCB, 0xC0, 0xCB, 0xA7]);
    mb.cpu.registers.a = 0x1F;
    assert_eq!(mb.cpu.tick(&mut mb.bus), 8);
    assert_eq!(mb.cpu.registers.a, 0xF1);
    mb.cpu.tick(&mut mb.bus);
    assert_eq!(mb.cpu.registers.f.z, false);
    assert_eq!(mb.cpu.registers.f.h, true);
    mb.cpu.tick(&mut mb.bus);
    assert_eq!(mb.cpu.registers.b, 0x01);
    mb.cpu.tick(&mut mb.bus);
    assert_eq!(mb.cpu.registers.a, 0xE1);
}

#[test]
fn alu_flags() {
    // SUB B; ADC A,C; XOR A; CP 0x01
    let mut mb = machine_with_code(0xC000, &[0x90, 0x89, 0xAF, 0xFE, 0x01]);
    mb.cpu.registers.a = 0x10;
    mb.cpu.registers.b = 0x01;
    mb.cpu.tick(&mut mb.bus);
    assert_eq!(mb.cpu.registers.a, 0x0F);
    assert_eq!(mb.cpu.registers.f.n, true);
    assert_eq!(mb.cpu.registers.f.h, true);
    assert_eq!(mb.cpu.registers.f.c, false);
    mb.cpu.registers.c = 0xF0;
    mb.cpu.registers.f.c = true;
    mb.cpu.tick(&mut mb.bus);
    assert_eq!(mb.cpu.registers.a, 0x00);
    assert_eq!(mb.cpu.registers.f.z, true);
    assert_eq!(mb.cpu.registers.f.h, true);
    assert_eq!(mb.cpu.registers.f.c, true);
    mb.cpu.tick(&mut mb.bus);
    assert_eq!(mb.cpu.registers.a, 0);
    mb.cpu.tick(&mut mb.bus);
    assert_eq!(mb.cpu.registers.f.c, true);
    assert_eq!(mb.cpu.registers.f.z, false);
    assert_eq!(mb.cpu.registers.a, 0);
}

#[test]
fn header_checksum_of_test_corpus() {
    for (t, banks) in [(0x00u8, 2usize), (0x01, 4), (0x03, 8)] {
        let rom = rom_image(t, 0x02, banks);
        assert_eq!(Cartridge::validate_checksum(&rom), Ok(rom[0x14D]));
        assert!(Cartridge::new(rom).is_ok());
    }
    let mut rom = rom_image(0x00, 0x00, 2);
    rom[0x134] = b'T';
    rom[0x14D] = 0xE7u8.wrapping_sub(b'T');
    assert_eq!(Cartridge::validate_checksum(&rom), Ok(0xE7u8.wrapping_sub(b'T')));
}

#[test]
fn load_errors() {
    assert_eq!(Cartridge::new(vec![]).err(), Some(LoadError::InvalidSize));
    assert_eq!(Cartridge::new(vec![0; 100]).err(), Some(LoadError::InvalidSize));
    let mut bad = rom_image(0x00, 0x00, 2);
    bad[0x14D] ^= 1;
    assert_eq!(Cartridge::validate_checksum(&bad), Err(LoadError::ChecksumMismatch));
    assert_eq!(Cartridge::new(bad).err(), Some(LoadError::ChecksumMismatch));
    assert_eq!(
        Cartridge::new(rom_image(0x05, 0x00, 2)).err(),
        Some(LoadError::UnsupportedCartridgeType)
    );
    assert_eq!(
        Cartridge::new(rom_image_sized(0x00, 0x09, 0x00, 2)).err(),
        Some(LoadError::UnsupportedRomSize)
    );
    assert_eq!(
        Cartridge::new(rom_image(0x00, 0x06, 2)).err(),
        Some(LoadError::UnsupportedRamSize)
    );
}

#[test]
fn mbc1_ram_enable_gate() {
    let mut mb = MotherBoard::new(rom_image(0x03, 0x03, 4)).unwrap();
    // Disabled RAM reads as 0xFF and ignores writes.
    mb.bus.write(0xA000, 0x11);
    assert_eq!(mb.bus.read(0xA000), 0xFF);
    mb.bus.write(0x0000, 0x0A);
    mb.bus.write(0xA000, 0x11);
    mb.bus.write(0xBFFF, 0x22);
    assert_eq!(mb.bus.read(0xA000), 0x11);
    assert_eq!(mb.bus.read(0xBFFF), 0x22);
    mb.bus.write(0x1FFF, 0x00);
    assert_eq!(mb.bus.read(0xA000), 0xFF);
    assert_eq!(mb.bus.read(0xBFFF), 0xFF);
}

#[test]
fn mbc1_rom_bank_switching() {
    let mut rom = rom_image(0x01, 0x00, 4);
    rom[0x4000] = 1;
    rom[0x8000] = 2;
    rom[0xC000] = 3;
    let mut mb = MotherBoard::new(rom).unwrap();
    assert_eq!(mb.bus.read(0x4000), 1);
    mb.bus.write(0x2000, 0x03);
    assert_eq!(mb.bus.read(0x4000), 3);
    assert_eq!(mb.bus.cartridge.current_bank(), 3);
    // Selecting bank 0 selects bank 1.
    mb.bus.write(0x2000, 0x00);
    assert_eq!(mb.bus.read(0x4000), 1);
    // Bank 0 stays at 0x0000-0x3FFF.
    assert_eq!(mb.bus.read(0x0147), 0x01);
}

#[test]
fn timer_overflow_requests_interrupt() {
    let mut mb = MotherBoard::new(rom_image(0x00, 0x00, 2)).unwrap();
    // Enabled, 16 T-cycles per increment; TMA = 0xF0.
    mb.bus.write(0xFF07, 0x05);
    mb.bus.write(0xFF06, 0xF0);
    mb.bus.write(0xFF05, 0xFE);
    mb.bus.advance(16);
    assert_eq!(mb.bus.read(0xFF05), 0xFF);
    assert_eq!(mb.bus.read(0xFF0F) & 0x04, 0);
    mb.bus.advance(16);
    assert_eq!(mb.bus.read(0xFF05), 0xF0);
    assert_eq!(mb.bus.read(0xFF0F) & 0x04, 0x04);
}

#[test]
fn step_runs_cpu_then_devices() {
    let mut mb = machine_with_code(0xC000, &[0x00]);
    let (cycles, frame) = mb.step();
    assert_eq!(cycles, 4);
    assert!(!frame);
    assert_eq!(mb.cpu.registers.pc, 0xC001);
}

#[test]
fn switch_bank_needs_controller_and_bank() {
    let mut mbc1 = Cartridge::new(rom_image(0x01, 0x00, 4)).unwrap();
    assert_eq!(mbc1.switch_bank(2), Ok(()));
    assert_eq!(mbc1.current_bank(), 2);
    assert_eq!(mbc1.switch_bank(4), Err(BankError::OutOfRange));
    assert_eq!(mbc1.current_bank(), 2);
    let mut plain = Cartridge::new(rom_image(0x00, 0x00, 2)).unwrap();
    assert_eq!(plain.switch_bank(1), Err(BankError::NoController));
}

#[test]
fn add_flags_follow_carry_rules() {
    // ADD A,B; ADD A,(HL); ADD A,A
    let mut mb = machine_with_code(0xC000, &[0x80, 0x86, 0x87]);
    mb.cpu.registers.a = 0x3A;
    mb.cpu.registers.b = 0xC6;
    assert_eq!(mb.cpu.tick(&mut mb.bus), 4);
    assert_eq!(mb.cpu.registers.a, 0x00);
    assert!(mb.cpu.registers.f.z && !mb.cpu.registers.f.n);
    assert!(mb.cpu.registers.f.h && mb.cpu.registers.f.c);
    mb.cpu.registers.set_hl(0xC100);
    mb.bus.write(0xC100, 0x0F);
    mb.cpu.registers.a = 0x01;
    assert_eq!(mb.cpu.tick(&mut mb.bus), 8);
    assert_eq!(mb.cpu.registers.a, 0x10);
    assert!(!mb.cpu.registers.f.z && mb.cpu.registers.f.h && !mb.cpu.registers.f.c);
    mb.cpu.tick(&mut mb.bus);
    assert_eq!(mb.cpu.registers.a, 0x20);
    assert!(!mb.cpu.registers.f.h && !mb.cpu.registers.f.c);
}

#[test]
fn reset_writes_post_boot_registers() {
    let mut mb = MotherBoard::new(rom_image(0x00, 0x00, 2)).unwrap();
    mb.cpu.registers.a = 0x99;
    mb.reset();
    assert_eq!(mb.cpu.registers.pc, 0x0100);
    assert_eq!(mb.cpu.registers.a, 0x01);
    assert_eq!(mb.bus.read(0xFF40), 0x91);
    assert_eq!(mb.bus.read(0xFF47), 0xFC);
    assert_eq!(mb.bus.read(0xFF48), 0xFF);
    assert_eq!(mb.bus.read(0xFF02), 0x7E);
    assert_eq!(mb.bus.read(0xFF00), 0xCF);
    assert_eq!(mb.bus.read(0xFF0F), 0x01);
    assert_eq!(mb.bus.read(0xFFFF), 0x00);
    assert_eq!(mb.bus.read(0xFF04), 0x00);
    assert_eq!(mb.bus.read(0xFF44), 0x00);
}
