//! The memory bus: the 16-bit address space routed to the cartridge, work
//! RAM, the PPU, the I/O registers, high RAM and the interrupt registers.
use vstd::prelude::*;

use crate::cartridges::{is_cart_address, spec_cart_read, spec_cart_write, Cartridge, MbcState};
use crate::interruption::{spec_pending, Interruption, Peripheral};
use crate::joypad::{buttons_of_byte, joypad_value, JoyPad};
use crate::ppu::{stat_requested, vblank_requested, zero_registers, PPU, PpuView};
use crate::sound::Sound;
use crate::timer::Timer;
use crate::Address;

verus! {

/// Everything on the bus, seen as plain values.
pub struct BusView {
    pub cart: MbcState,
    pub ppu: PpuView,
    pub timer: Timer,
    pub int: Interruption,
    pub joypad: JoyPad,
    /// Work RAM, 0xC000-0xDFFF.
    pub ram: Seq<u8>,
    /// High RAM, 0xFF80-0xFFFE.
    pub hram: Seq<u8>,
    /// Serial data and control bytes, 0xFF01-0xFF02.
    pub sb: u8,
    pub sc: u8,
}

impl BusView {
    pub open spec fn wf(&self) -> bool {
        &&& self.cart.wf()
        &&& self.ppu.wf()
        &&& self.timer.wf()
        &&& self.ram.len() == 0x2000
        &&& self.hram.len() == 127
    }
}

/// Whether `a` is in work RAM or its echo.
pub open spec fn is_wram(a: int) -> bool {
    0xC000 <= a < 0xFE00
}

/// Whether `a` is in high RAM.
pub open spec fn is_hram(a: int) -> bool {
    0xFF80 <= a < 0xFFFF
}

/// Whether a write at `a` stores a byte that a read at `a` gives back
/// unchanged: work RAM, its echo, and high RAM.
pub open spec fn is_plain_ram(a: int) -> bool {
    is_wram(a) || is_hram(a)
}

/// The work-RAM index of `a` (0xC000-0xFDFF); the echo region maps 0x2000
/// lower.
pub open spec fn wram_index(a: int) -> int {
    if a < 0xE000 {
        a - 0xC000
    } else {
        a - 0xE000
    }
}

/// What a read at `a` returns.
#[verifier::opaque]
pub open spec fn bus_read(v: BusView, a: Address) -> u8 {
    if is_cart_address(a) {
        spec_cart_read(v.cart, a)
    } else if a < 0xA000 {
        v.ppu.spec_read(a)
    } else if a < 0xFE00 {
        v.ram[wram_index(a as int)]
    } else if a < 0xFEA0 {
        v.ppu.spec_read(a)
    } else if a < 0xFF00 {
        0
    } else if a == 0xFF00 {
        joypad_value(v.joypad.buttons, v.joypad.pressed)
    } else if a == 0xFF01 {
        v.sb
    } else if a == 0xFF02 {
        v.sc
    } else if 0xFF04 <= a <= 0xFF07 {
        v.timer.spec_read(a)
    } else if a == 0xFF0F || a == 0xFFFF {
        v.int.spec_read(a)
    } else if 0xFF40 <= a <= 0xFF4B {
        v.ppu.spec_read(a)
    } else if is_hram(a as int) {
        v.hram[a - 0xFF80]
    } else {
        0
    }
}

/// The 160 bytes an OAM DMA from page `d` copies.
#[verifier::opaque]
pub open spec fn dma_source(v: BusView, d: u8) -> Seq<u8> {
    Seq::new(160, |i: int| bus_read(v, (d * 256 + i) as u16))
}

/// The bus after a write of `d` at `a`. A write to DIV resets it; a write to
/// 0xFF46 copies 160 bytes from `d`00 into OAM at once.
#[verifier::opaque]
pub open spec fn bus_write(v: BusView, a: Address, d: u8) -> BusView {
    if is_cart_address(a) {
        BusView { cart: spec_cart_write(v.cart, a, d), ..v }
    } else if a < 0xA000 {
        BusView { ppu: v.ppu.spec_write(a, d), ..v }
    } else if a < 0xFE00 {
        BusView { ram: v.ram.update(wram_index(a as int), d), ..v }
    } else if a < 0xFEA0 {
        BusView { ppu: v.ppu.spec_write(a, d), ..v }
    } else if a < 0xFF00 {
        v
    } else if a == 0xFF00 {
        BusView { joypad: JoyPad { buttons: buttons_of_byte(d), ..v.joypad }, ..v }
    } else if a == 0xFF01 {
        BusView { sb: d, ..v }
    } else if a == 0xFF02 {
        BusView { sc: d, ..v }
    } else if 0xFF04 <= a <= 0xFF07 {
        BusView { timer: v.timer.spec_write(a, d), ..v }
    } else if a == 0xFF0F || a == 0xFFFF {
        BusView { int: v.int.spec_write(a, d), ..v }
    } else if a == 0xFF46 {
        BusView { ppu: PpuView { oam: dma_source(v, d), ..v.ppu.spec_write(a, d) }, ..v }
    } else if 0xFF40 <= a <= 0xFF4B {
        BusView { ppu: v.ppu.spec_write(a, d), ..v }
    } else if is_hram(a as int) {
        BusView { hram: v.hram.update(a - 0xFF80, d), ..v }
    } else {
        v
    }
}

/// The bus after the timer and the PPU have run `cycles` T-cycles, and
/// whether a frame was completed.
pub open spec fn bus_advance(v: BusView, cycles: u8) -> (BusView, bool) {
    let (t, timer_irq) = v.timer.spec_tick(cycles);
    let (p, vblank, frame) = v.ppu.spec_tick(cycles);
    let f1 = if timer_irq {
        v.int.interrupts.spec_with(Peripheral::Timer, true)
    } else {
        v.int.interrupts
    };
    let f2 = stat_requested(vblank_requested(f1, vblank), v.ppu.spec_stat_request(cycles));
    (BusView { timer: t, ppu: p, int: Interruption { interrupts: f2, ..v.int }, ..v }, frame)
}

pub struct Bus {
    pub cartridge: Cartridge,
    pub ppu: PPU,
    pub timer: Timer,
    pub interruption: Interruption,
    pub joypad: JoyPad,
    pub sound: Sound,
    pub ram: Vec<u8>,
    pub stack: Vec<u8>,
    pub sb: u8,
    pub sc: u8,
}

impl View for Bus {
    type V = BusView;

    open spec fn view(&self) -> BusView {
        BusView {
            cart: self.cartridge.state(),
            ppu: self.ppu@,
            timer: self.timer,
            int: self.interruption,
            joypad: self.joypad,
            ram: self.ram@,
            hram: self.stack@,
            sb: self.sb,
            sc: self.sc,
        }
    }
}

fn zeroes(n: usize) -> (r: Vec<u8>)
    ensures
        r@ == Seq::new(n as nat, |i: int| 0u8),
{
    let mut r: Vec<u8> = Vec::new();
    let mut i: usize = 0;
    while i < n
        invariant
            i <= n,
            r@ == Seq::new(i as nat, |j: int| 0u8),
        decreases n - i,
    {
        r.push(0);
        i = i + 1;
        assert(r@ =~= Seq::new(i as nat, |j: int| 0u8));
    }
    r
}

impl Bus {
    /// A bus around `cartridge` with fresh devices and zeroed RAM.
    pub fn new(cartridge: Cartridge) -> (r: Self)
        requires
            cartridge.state().wf(),
        ensures
            r@.wf(),
            r@.cart == cartridge.state(),
            r@.ram == Seq::new(0x2000, |i: int| 0u8),
            r@.hram == Seq::new(127, |i: int| 0u8),
            r@.ppu.regs == zero_registers(),
            r@.ppu.clock == 0,
            r@.timer == (Timer { div: 0, div_tmp: 0, tima: 0, tima_tmp: 0, tma: 0, tac: 0 }),
            r@.int.interrupts.spec_byte() == 0,
            r@.int.enables.spec_byte() == 0,
            r@.joypad.pressed == 0,
            r@.sb == 0,
            r@.sc == 0,
    {
        Bus {
            cartridge,
            ppu: PPU::new(),
            timer: Timer::new(),
            interruption: Interruption::new(),
            joypad: JoyPad::new(),
            sound: Sound::new(),
            ram: zeroes(0x2000),
            stack: zeroes(127),
            sb: 0,
            sc: 0,
        }
    }

    /// Reads one byte.
    pub fn read(&self, address: Address) -> (r: u8)
        requires
            self@.wf(),
        ensures
            r == bus_read(self@, address),
    {
        reveal(bus_read);
        let a = address;
        if a < 0x8000 || (0xA000 <= a && a < 0xC000) {
            self.cartridge.read(a)
        } else if a < 0xA000 {
            self.ppu.read(a)
        } else if a < 0xE000 {
            self.ram[(a - 0xC000) as usize]
        } else if a < 0xFE00 {
            self.ram[(a - 0xE000) as usize]
        } else if a < 0xFEA0 {
            self.ppu.read(a)
        } else if a < 0xFF00 {
            0
        } else if a == 0xFF00 {
            self.joypad.read()
        } else if a == 0xFF01 {
            self.sb
        } else if a == 0xFF02 {
            self.sc
        } else if 0xFF04 <= a && a <= 0xFF07 {
            self.timer.read(a)
        } else if a == 0xFF0F || a == 0xFFFF {
            self.interruption.read(a)
        } else if 0xFF10 <= a && a <= 0xFF3F {
            self.sound.read(a)
        } else if 0xFF40 <= a && a <= 0xFF4B {
            self.ppu.read(a)
        } else if 0xFF80 <= a {
            self.stack[(a - 0xFF80) as usize]
        } else {
            0
        }
    }

    /// Copies the 160 bytes from `page`00 into OAM.
    fn dma_transfer(&mut self, page: u8)
        requires
            old(self)@.wf(),
        ensures
            final(self)@ == bus_write(old(self)@, 0xFF46, page),
            final(self)@.wf(),
    {
        let mut src: Vec<u8> = Vec::new();
        let base: u16 = page as u16 * 256;
        let mut i: u16 = 0;
        while i < 160
            invariant
                self@ == old(self)@,
                self@.wf(),
                base == page * 256,
                i <= 160,
                src.len() == i,
                forall|k: int| 0 <= k < i ==> src@[k] == bus_read(old(self)@, (page * 256 + k) as u16),
            decreases 160 - i,
        {
            let b = self.read(base.wrapping_add(i));
            proof {
                assert(base.wrapping_add(i) == (page * 256 + i) as u16) by (bit_vector)
                    requires
                        base == page * 256,
                        i < 160,
                ;
            }
            src.push(b);
            i = i + 1;
        }
        self.ppu.write(0xFF46, page);
        let mut j: usize = 0;
        while j < 160
            invariant
                j <= 160,
                src.len() == 160,
                forall|k: int| 0 <= k < 160 ==> src@[k] == bus_read(old(self)@, (page * 256 + k) as u16),
                self@.wf(),
                self.ppu@ == (PpuView {
                    oam: self.ppu@.oam,
                    ..old(self)@.ppu.spec_write(0xFF46, page)
                }),
                forall|k: int| 0 <= k < j ==> self.ppu@.oam[k] == src@[k],
                forall|k: int| j <= k < 160 ==> self.ppu@.oam[k] == old(self)@.ppu.oam[k],
                self.cartridge.state() == old(self).cartridge.state(),
                self.timer == old(self).timer,
                self.interruption == old(self).interruption,
                self.joypad == old(self).joypad,
                self.ram@ == old(self).ram@,
                self.stack@ == old(self).stack@,
                self.sb == old(self).sb,
                self.sc == old(self).sc,
            decreases 160 - j,
        {
            self.ppu.write(0xFE00 + j as u16, src[j]);
            j = j + 1;
        }
        reveal(dma_source);
        assert forall|k: int| 0 <= k < 160 implies self.ppu@.oam[k] == dma_source(old(self)@, page)[k] by {
            assert(src@[k] == bus_read(old(self)@, (page * 256 + k) as u16));
        }
        assert(self.ppu@.oam =~= dma_source(old(self)@, page));
        reveal(bus_write);
        assert(self@ =~= bus_write(old(self)@, 0xFF46, page));
    }

    /// Writes one byte.
    pub fn write(&mut self, address: Address, data: u8)
        requires
            old(self)@.wf(),
        ensures
            final(self)@.wf(),
            final(self)@ == bus_write(old(self)@, address, data),
    {
        let a = address;
        if a < 0x8000 || (0xA000 <= a && a < 0xC000) {
            self.write_cart(a, data);
        } else if (0x8000 <= a && a < 0xA000) || (0xFE00 <= a && a < 0xFEA0) || (0xFF40 <= a
            && a <= 0xFF4B && a != 0xFF46) {
            self.write_ppu(a, data);
        } else if 0xC000 <= a && a < 0xFE00 {
            self.write_wram(a, data);
        } else if 0xFF80 <= a && a < 0xFFFF {
            self.write_hram(a, data);
        } else if a == 0xFF46 {
            self.dma_transfer(data);
        } else {
            self.write_register(a, data);
        }
    }

    fn write_cart(&mut self, a: Address, data: u8)
        requires
            old(self)@.wf(),
            is_cart_address(a),
        ensures
            final(self)@.wf(),
            final(self)@ == bus_write(old(self)@, a, data),
    {
        proof {
            reveal(bus_write);
        }
        self.cartridge.write(a, data);
    }

    fn write_ppu(&mut self, a: Address, data: u8)
        requires
            old(self)@.wf(),
            (0x8000 <= a < 0xA000) || (0xFE00 <= a < 0xFEA0) || (0xFF40 <= a <= 0xFF4B && a
                != 0xFF46),
        ensures
            final(self)@.wf(),
            final(self)@ == bus_write(old(self)@, a, data),
    {
        proof {
            reveal(bus_write);
        }
        self.ppu.write(a, data);
    }

    fn write_wram(&mut self, a: Address, data: u8)
        requires
            old(self)@.wf(),
            is_wram(a as int),
        ensures
            final(self)@.wf(),
            final(self)@ == bus_write(old(self)@, a, data),
    {
        proof {
            reveal(bus_write);
        }
        if a < 0xE000 {
            self.ram.set((a - 0xC000) as usize, data);
        } else {
            self.ram.set((a - 0xE000) as usize, data);
        }
    }

    fn write_hram(&mut self, a: Address, data: u8)
        requires
            old(self)@.wf(),
            is_hram(a as int),
        ensures
            final(self)@.wf(),
            final(self)@ == bus_write(old(self)@, a, data),
    {
        proof {
            reveal(bus_write);
        }
        self.stack.set((a - 0xFF80) as usize, data);
    }

    /// Writes the unused gap, the I/O registers outside the PPU's, and IE.
    fn write_register(&mut self, a: Address, data: u8)
        requires
            old(self)@.wf(),
            (0xFEA0 <= a < 0xFF40) || (0xFF4C <= a < 0xFF80) || a == 0xFFFF,
        ensures
            final(self)@.wf(),
            final(self)@ == bus_write(old(self)@, a, data),
    {
        if a == 0xFF00 {
            self.write_joypad(data);
        } else if a == 0xFF01 || a == 0xFF02 {
            self.write_serial(a, data);
        } else if 0xFF04 <= a && a <= 0xFF07 {
            self.write_timer(a, data);
        } else if a == 0xFF0F || a == 0xFFFF {
            self.write_interrupt(a, data);
        } else {
            proof {
                reveal(bus_write);
            }
        }
    }

    fn write_joypad(&mut self, data: u8)
        requires
            old(self)@.wf(),
        ensures
            final(self)@.wf(),
            final(self)@ == bus_write(old(self)@, 0xFF00, data),
    {
        proof {
            reveal(bus_write);
        }
        self.joypad.write(data);
    }

    fn write_serial(&mut self, a: Address, data: u8)
        requires
            old(self)@.wf(),
            a == 0xFF01 || a == 0xFF02,
        ensures
            final(self)@.wf(),
            final(self)@ == bus_write(old(self)@, a, data),
    {
        proof {
            reveal(bus_write);
        }
        if a == 0xFF01 {
            self.sb = data;
        } else {
            self.sc = data;
        }
    }

    fn write_timer(&mut self, a: Address, data: u8)
        requires
            old(self)@.wf(),
            0xFF04 <= a <= 0xFF07,
        ensures
            final(self)@.wf(),
            final(self)@ == bus_write(old(self)@, a, data),
    {
        proof {
            reveal(bus_write);
        }
        self.timer.write(a, data);
    }

    fn write_interrupt(&mut self, a: Address, data: u8)
        requires
            old(self)@.wf(),
            a == 0xFF0F || a == 0xFFFF,
        ensures
            final(self)@.wf(),
            final(self)@ == bus_write(old(self)@, a, data),
    {
        proof {
            reveal(bus_write);
        }
        self.interruption.write(a, data);
    }

    /// Runs the timer and the PPU for `cycles` T-cycles; returns whether a
    /// frame was completed.
    pub fn advance(&mut self, cycles: u8) -> (frame_ready: bool)
        requires
            old(self)@.wf(),
        ensures
            final(self)@.wf(),
            (final(self)@, frame_ready) == bus_advance(old(self)@, cycles),
    {
        self.timer.tick(cycles, &mut self.interruption);
        self.ppu.tick(cycles, &mut self.interruption)
    }

    /// The highest-priority interrupt that is requested and enabled.
    pub fn pending_interrupt(&self) -> (r: Option<Peripheral>)
        ensures
            r == spec_pending(self.interruption),
    {
        self.interruption.pending()
    }

    /// Clears the request flag of `p`.
    pub fn acknowledge(&mut self, p: Peripheral)
        requires
            old(self)@.wf(),
        ensures
            final(self)@.wf(),
            final(self)@ == (BusView {
                int: Interruption {
                    interrupts: old(self)@.int.interrupts.spec_with(p, false),
                    ..old(self)@.int
                },
                ..old(self)@
            }),
    {
        self.interruption.clear(p);
    }
}

} // verus!

verus! {

/// The storage cell behind a work-RAM, echo or high-RAM address; an echo
/// address and the work-RAM address it mirrors share one cell.
pub open spec fn ram_cell(a: int) -> int {
    if is_wram(a) {
        wram_index(a)
    } else {
        0x10000 + (a - 0xFF80)
    }
}

/// Every write keeps the bus well formed.
pub proof fn lemma_write_wf(m: BusView, a: Address, d: u8)
    requires
        m.wf(),
    ensures
        bus_write(m, a, d).wf(),
{
    reveal(bus_write);
    reveal(dma_source);
}

/// A byte written to work RAM, its echo, or high RAM reads back unchanged.
pub proof fn lemma_ram_read_after_write(m: BusView, a: Address, d: u8)
    requires
        m.wf(),
        is_plain_ram(a as int),
    ensures
        bus_read(bus_write(m, a, d), a) == d,
{
    reveal(bus_write);
    reveal(bus_read);
}

/// A write to one RAM cell leaves every other RAM cell as it was.
pub proof fn lemma_ram_write_other(m: BusView, a: Address, b: Address, d: u8)
    requires
        m.wf(),
        is_plain_ram(a as int),
        is_plain_ram(b as int),
        ram_cell(a as int) != ram_cell(b as int),
    ensures
        bus_read(bus_write(m, a, d), b) == bus_read(m, b),
{
    reveal(bus_write);
    reveal(bus_read);
}

/// Writing any byte to DIV (0xFF04) makes it read back as zero.
pub proof fn lemma_div_write_resets(m: BusView, d: u8)
    requires
        m.wf(),
    ensures
        bus_read(bus_write(m, 0xFF04, d), 0xFF04) == 0,
{
    reveal(bus_write);
    reveal(bus_read);
}

/// A write through the echo region (0xE000-0xFDFF) is seen 0x2000 lower in
/// work RAM, and a write to 0xC000-0xDDFF is seen 0x2000 higher in the echo.
pub proof fn lemma_echo_ram(m: BusView, a: Address, d: u8)
    requires
        m.wf(),
    ensures
        0xE000 <= a <= 0xFDFF ==> bus_read(bus_write(m, a, d), (a - 0x2000) as u16) == d,
        0xC000 <= a <= 0xDDFF ==> bus_read(bus_write(m, a, d), (a + 0x2000) as u16) == d,
{
    reveal(bus_write);
    reveal(bus_read);
}

} // verus!
