//! The whole machine: the CPU and the bus it drives, stepped one
//! instruction at a time.
use vstd::prelude::*;

use crate::bus::{bus_advance, bus_write, lemma_write_wf, Bus, BusView};
use crate::cartridges::{spec_initial_state, spec_load_error, Cartridge, LoadError};
use crate::cpu::{reset_cpu, tick_spec, CPU};

verus! {

/// Settings taken from the command line.
pub struct Config {
    pub rom_file: String,
}

/// Why the command line was refused.
#[derive(Clone, Copy, Debug, PartialEq, Eq, Structural)]
pub enum ConfigError {
    /// No ROM file was named.
    MissingRomFile,
}

impl Config {
    /// Reads the ROM file name from `args[1]`.
    pub fn new(args: &Vec<String>) -> (r: Result<Config, ConfigError>)
        ensures
            args.len() < 2 <==> r is Err,
            r is Ok ==> r->Ok_0.rom_file@ == args@[1]@,
    {
        if args.len() < 2 {
            return Err(ConfigError::MissingRomFile);
        }
        Ok(Config { rom_file: args[1].clone() })
    }
}

/// The I/O register values the boot ROM leaves, in the order they are
/// written (OAM DMA is not started).
pub open spec fn boot_writes() -> Seq<(u16, u8)> {
    seq![
        (0xFF00u16, 0xCFu8),
        (0xFF01u16, 0x00u8),
        (0xFF02u16, 0x7Eu8),
        (0xFF04u16, 0x18u8),
        (0xFF05u16, 0x00u8),
        (0xFF06u16, 0x00u8),
        (0xFF07u16, 0xF8u8),
        (0xFF0Fu16, 0xE1u8),
        (0xFF10u16, 0x80u8),
        (0xFF11u16, 0xBFu8),
        (0xFF12u16, 0xF3u8),
        (0xFF13u16, 0xFFu8),
        (0xFF14u16, 0xBFu8),
        (0xFF16u16, 0x3Fu8),
        (0xFF17u16, 0x00u8),
        (0xFF18u16, 0xFFu8),
        (0xFF19u16, 0xBFu8),
        (0xFF1Au16, 0x7Fu8),
        (0xFF1Bu16, 0xFFu8),
        (0xFF1Cu16, 0x9Fu8),
        (0xFF1Du16, 0xFFu8),
        (0xFF1Eu16, 0xBFu8),
        (0xFF20u16, 0xFFu8),
        (0xFF21u16, 0x00u8),
        (0xFF22u16, 0x00u8),
        (0xFF23u16, 0xBFu8),
        (0xFF24u16, 0x77u8),
        (0xFF25u16, 0xF3u8),
        (0xFF26u16, 0xF1u8),
        (0xFF40u16, 0x91u8),
        (0xFF41u16, 0x81u8),
        (0xFF42u16, 0x00u8),
        (0xFF43u16, 0x00u8),
        (0xFF44u16, 0x91u8),
        (0xFF45u16, 0x00u8),
        (0xFF47u16, 0xFCu8),
        (0xFF48u16, 0xFFu8),
        (0xFF49u16, 0xFFu8),
        (0xFF4Au16, 0x00u8),
        (0xFF4Bu16, 0x00u8),
        (0xFFFFu16, 0x00u8),
    ]
}

/// The bus after the first `k` writes of `w`.
pub open spec fn apply_writes(m: BusView, w: Seq<(u16, u8)>, k: nat) -> BusView
    decreases k,
{
    if k == 0 || k > w.len() {
        m
    } else {
        let p = w[k - 1];
        bus_write(apply_writes(m, w, (k - 1) as nat), p.0, p.1)
    }
}

/// The bus right after the post-boot register values are written.
pub open spec fn post_boot(m: BusView) -> BusView {
    apply_writes(m, boot_writes(), boot_writes().len())
}

fn boot_io() -> (w: Vec<(u16, u8)>)
    ensures
        w@ == boot_writes(),
{
    let mut w: Vec<(u16, u8)> = Vec::new();
    w.push((0xFF00, 0xCF));
    w.push((0xFF01, 0x00));
    w.push((0xFF02, 0x7E));
    w.push((0xFF04, 0x18));
    w.push((0xFF05, 0x00));
    w.push((0xFF06, 0x00));
    w.push((0xFF07, 0xF8));
    w.push((0xFF0F, 0xE1));
    w.push((0xFF10, 0x80));
    w.push((0xFF11, 0xBF));
    w.push((0xFF12, 0xF3));
    w.push((0xFF13, 0xFF));
    w.push((0xFF14, 0xBF));
    w.push((0xFF16, 0x3F));
    w.push((0xFF17, 0x00));
    w.push((0xFF18, 0xFF));
    w.push((0xFF19, 0xBF));
    w.push((0xFF1A, 0x7F));
    w.push((0xFF1B, 0xFF));
    w.push((0xFF1C, 0x9F));
    w.push((0xFF1D, 0xFF));
    w.push((0xFF1E, 0xBF));
    w.push((0xFF20, 0xFF));
    w.push((0xFF21, 0x00));
    w.push((0xFF22, 0x00));
    w.push((0xFF23, 0xBF));
    w.push((0xFF24, 0x77));
    w.push((0xFF25, 0xF3));
    w.push((0xFF26, 0xF1));
    w.push((0xFF40, 0x91));
    w.push((0xFF41, 0x81));
    w.push((0xFF42, 0x00));
    w.push((0xFF43, 0x00));
    w.push((0xFF44, 0x91));
    w.push((0xFF45, 0x00));
    w.push((0xFF47, 0xFC));
    w.push((0xFF48, 0xFF));
    w.push((0xFF49, 0xFF));
    w.push((0xFF4A, 0x00));
    w.push((0xFF4B, 0x00));
    w.push((0xFFFF, 0x00));
    assert(w@ =~= boot_writes());
    w
}

pub struct MotherBoard {
    pub cpu: CPU,
    pub bus: Bus,
}

impl MotherBoard {
    /// A machine around the ROM image `rom`, CPU in its reset state.
    pub fn new(rom: Vec<u8>) -> (r: Result<MotherBoard, LoadError>)
        ensures
            match r {
                Ok(mb) => spec_load_error(rom@).is_none() && mb.cpu == reset_cpu() && mb.bus@.wf()
                    && mb.bus@.cart == spec_initial_state(rom@),
                Err(e) => spec_load_error(rom@) == Some(e),
            },
    {
        let cartridge = match Cartridge::new(rom) {
            Ok(c) => c,
            Err(e) => {
                return Err(e);
            },
        };
        Ok(MotherBoard { cpu: CPU::new(), bus: Bus::new(cartridge) })
    }

    /// Resets the CPU and writes the register values the boot ROM leaves.
    pub fn reset(&mut self)
        requires
            old(self).bus@.wf(),
        ensures
            final(self).bus@.wf(),
            final(self).cpu == reset_cpu(),
            final(self).bus@ == post_boot(old(self).bus@),
    {
        self.cpu.reset();
        let w = boot_io();
        let mut i: usize = 0;
        while i < w.len()
            invariant
                i <= w.len(),
                w@ == boot_writes(),
                self.bus@.wf(),
                self.bus@ == apply_writes(old(self).bus@, w@, i as nat),
                self.cpu == reset_cpu(),
            decreases w.len() - i,
        {
            let (a, d) = w[i];
            proof {
                lemma_write_wf(self.bus@, a, d);
            }
            self.bus.write(a, d);
            i = i + 1;
        }
    }

    /// Runs one CPU step, then the timer and the PPU for as many T-cycles.
    /// Returns the T-cycles and whether a frame was completed.
    pub fn step(&mut self) -> (r: (u8, bool))
        requires
            old(self).bus@.wf(),
        ensures
            final(self).bus@.wf(),
            ({
                let (s1, m1, c) = tick_spec(old(self).cpu, old(self).bus@);
                let (m2, frame) = bus_advance(m1, c);
                final(self).cpu == s1 && final(self).bus@ == m2 && r == (c, frame)
            }),
    {
        let cycles = self.cpu.tick(&mut self.bus);
        let frame = self.bus.advance(cycles);
        (cycles, frame)
    }
}

} // verus!
