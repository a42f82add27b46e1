//! The picture unit: VRAM, OAM, the LCD registers, and a scanline renderer.
use vstd::prelude::*;

use crate::arithmetic::{bit_of, bit_set, pow2};
use crate::interruption::{InterruptFlags, Interruption, Peripheral};
use crate::Address;

verus! {

pub const WIDTH_LCD: usize = 160;

pub const HEIGHT_LCD: usize = 144;

/// Visible lines plus the lines of the vertical blank.
pub const LINES: u8 = 154;

/// T-cycles per scanline.
pub const SCANLINE_CYCLE: u32 = 456;

/// Number of pixels in a frame.
pub const FRAME_PIXELS: usize = 23040;

/// An RGBA pixel.
#[derive(Clone, Copy, Debug, PartialEq, Eq, Structural)]
pub struct PixelData(pub u8, pub u8, pub u8, pub u8);

/// A two-bit colour index of a tile pixel, before any palette.
#[derive(Clone, Copy, Debug, PartialEq, Eq, Structural)]
pub enum Color {
    White,
    LightGray,
    DarkGray,
    Black,
}

pub open spec fn color_of(i: nat) -> Color {
    if i == 0 {
        Color::White
    } else if i == 1 {
        Color::LightGray
    } else if i == 2 {
        Color::DarkGray
    } else {
        Color::Black
    }
}

/// The RGBA value of each of the four shades.
pub open spec fn shade_rgba(shade: nat) -> PixelData {
    if shade == 0 {
        PixelData(255, 255, 255, 0)
    } else if shade == 1 {
        PixelData(170, 170, 170, 0)
    } else if shade == 2 {
        PixelData(85, 85, 85, 0)
    } else {
        PixelData(0, 0, 0, 0)
    }
}

/// The shade a palette register gives colour index `idx`.
pub open spec fn palette_shade(pal: u8, idx: nat) -> nat {
    (pal as nat / pow2(2 * idx)) % 4
}

/// How tile numbers address tile data.
#[derive(Clone, Copy, Debug, PartialEq, Eq, Structural)]
pub enum TileDataSelect {
    /// Unsigned tile numbers from 0x8000.
    Method8000,
    /// Signed tile numbers around 0x9000.
    Method8800,
}

/// The address of tile-number byte for on-screen pixel `rx` of line `ly`.
pub open spec fn spec_tile_number_address(base: int, ly: int, rx: int, scx: int, scy: int) -> int {
    base + (((rx / 8 + scx / 8) % 32) + 32 * (((ly + scy) % 256) / 8)) % 1024
}

/// The address of the low-plane byte of the row of a tile that line `ly`
/// shows.
pub open spec fn spec_tile_data_address(
    tile_number: u8,
    method: TileDataSelect,
    ly: int,
    scy: int,
) -> int {
    (match method {
        TileDataSelect::Method8000 => 0x8000 + tile_number * 16,
        TileDataSelect::Method8800 => if tile_number < 128 {
            0x9000 + tile_number * 16
        } else {
            0x9000 + (tile_number - 256) * 16
        },
    }) + 2 * ((ly + scy) % 8)
}

/// Computes the address of a background tile number.
pub fn tile_number_address(base_address: Address, ly: u16, rx: u16, scx: u16, scy: u16) -> (r:
    Address)
    requires
        base_address <= 0xFC00,
    ensures
        r == spec_tile_number_address(base_address as int, ly as int, rx as int, scx as int, scy as int),
{
    let offset_x = (rx as u32 / 8 + scx as u32 / 8) % 32;
    let offset_y = 32 * (((ly as u32 + scy as u32) % 256) / 8);
    base_address + ((offset_x + offset_y) % 1024) as u16
}

/// Computes the address of the tile row that line `ly` shows.
pub fn tile_number_to_address(tile_number: u8, method: TileDataSelect, ly: u16, scy: u16) -> (r:
    Address)
    ensures
        r == spec_tile_data_address(tile_number, method, ly as int, scy as int),
        0x8000 <= r <= 0x97FE,
{
    let base: u16 = match method {
        TileDataSelect::Method8000 => 0x8000 + tile_number as u16 * 16,
        TileDataSelect::Method8800 => if tile_number < 128 {
            0x9000 + tile_number as u16 * 16
        } else {
            0x8000 + tile_number as u16 * 16
        },
    };
    base + 2 * ((ly as u32 + scy as u32) % 8) as u16
}

/// The colour index of column `c` (0 leftmost) of a tile row.
pub open spec fn pixel_index(low: u8, high: u8, c: int) -> nat {
    (if bit_of(high, (7 - c) as nat) { 2nat } else { 0nat }) + (if bit_of(low, (7 - c) as nat) {
        1nat
    } else {
        0nat
    })
}

/// One row of a tile: its low and high bit planes.
pub struct TileLine {
    pub low: u8,
    pub high: u8,
}

impl TileLine {
    /// The colour index of column `c`, 0 leftmost.
    pub fn color_at(&self, c: u8) -> (r: u8)
        requires
            c < 8,
        ensures
            r == pixel_index(self.low, self.high, c as int),
            r < 4,
    {
        let h: u8 = if bit_set(self.high, 7 - c) {
            2
        } else {
            0
        };
        let l: u8 = if bit_set(self.low, 7 - c) {
            1
        } else {
            0
        };
        h + l
    }

    /// The eight colours of the row, left to right.
    pub fn colors(&self) -> (r: Vec<Color>)
        ensures
            r.len() == 8,
            forall|c: int| 0 <= c < 8 ==> r@[c] == color_of(pixel_index(self.low, self.high, c)),
    {
        let mut r: Vec<Color> = Vec::new();
        let mut c: u8 = 0;
        while c < 8
            invariant
                c <= 8,
                r.len() == c,
                forall|k: int| 0 <= k < c ==> r@[k] == color_of(pixel_index(self.low, self.high, k)),
            decreases 8 - c,
        {
            let i = self.color_at(c);
            let color = if i == 0 {
                Color::White
            } else if i == 1 {
                Color::LightGray
            } else if i == 2 {
                Color::DarkGray
            } else {
                Color::Black
            };
            r.push(color);
            c = c + 1;
        }
        r
    }

    /// The eight colours of the row, left to right, one at a time.
    pub fn into_iter(self) -> std::vec::IntoIter<Color> {
        self.colors().into_iter()
    }
}

/// An OAM entry.
#[derive(Clone, Copy, Debug, PartialEq, Eq, Structural)]
pub struct Sprite {
    /// Y position plus 16.
    pub y_position: u16,
    /// X position plus 8.
    pub x_position: u16,
    pub tile_number: u8,
    /// Bit 7 background priority, bit 6 Y-flip, bit 5 X-flip, bit 4 palette.
    pub flags: u8,
}

pub open spec fn sprite_at(oam: Seq<u8>, i: int) -> Sprite {
    Sprite {
        y_position: oam[4 * i] as u16,
        x_position: oam[4 * i + 1] as u16,
        tile_number: oam[4 * i + 2],
        flags: oam[4 * i + 3],
    }
}

/// Sprite height in pixels, which LCDC bit 2 selects.
pub open spec fn sprite_height(lcdc: u8) -> int {
    if bit_of(lcdc, 2) {
        16
    } else {
        8
    }
}

/// Whether a sprite shows on line `ly`.
pub open spec fn sprite_on_line(s: Sprite, ly: int, h: int) -> bool {
    &&& 0 < s.x_position <= 168
    &&& s.y_position <= ly + 16 < s.y_position + h
}

/// The sprites the OAM scan picks from the first `n` entries: those on the
/// line, in OAM order, at most ten.
pub open spec fn oam_scan_prefix(oam: Seq<u8>, ly: int, h: int, n: nat) -> Seq<Sprite>
    decreases n,
{
    if n == 0 {
        Seq::empty()
    } else {
        let s = oam_scan_prefix(oam, ly, h, (n - 1) as nat);
        let sp = sprite_at(oam, n - 1);
        if s.len() < 10 && sprite_on_line(sp, ly, h) {
            s.push(sp)
        } else {
            s
        }
    }
}

/// The sprites drawn on line `ly`; none when LCDC bit 1 turns sprites off.
pub open spec fn spec_oam_scan(oam: Seq<u8>, ly: int, lcdc: u8) -> Seq<Sprite> {
    if bit_of(lcdc, 1) {
        oam_scan_prefix(oam, ly, sprite_height(lcdc), 40)
    } else {
        Seq::empty()
    }
}

/// Whether a sprite spans screen column `x`.
pub open spec fn sprite_covers(s: Sprite, x: int) -> bool {
    s.x_position <= x + 8 < s.x_position + 8
}

/// The address of the low-plane byte of the sprite row on line `ly`.
pub open spec fn sprite_row_address(s: Sprite, ly: int, h: int) -> int {
    let r = ly + 16 - s.y_position;
    let row = if bit_of(s.flags, 6) {
        h - 1 - r
    } else {
        r
    };
    let tile = if h == 16 {
        (s.tile_number / 2) * 2
    } else {
        s.tile_number as int
    };
    0x8000 + tile * 16 + 2 * row
}

/// The column of the sprite's tile at screen column `x`.
pub open spec fn sprite_column(s: Sprite, x: int) -> int {
    let c = x + 8 - s.x_position;
    if bit_of(s.flags, 5) {
        7 - c
    } else {
        c
    }
}

pub open spec fn vram_at(vram: Seq<u8>, a: int) -> u8 {
    vram[a - 0x8000]
}

pub open spec fn sprite_color_index(vram: Seq<u8>, s: Sprite, ly: int, h: int, x: int) -> nat {
    let a = sprite_row_address(s, ly, h);
    pixel_index(vram_at(vram, a), vram_at(vram, a + 1), sprite_column(s, x))
}

/// The first sprite from position `i` on that spans column `x` with a
/// non-transparent pixel there.
pub open spec fn sprite_hit(
    sprites: Seq<Sprite>,
    i: nat,
    vram: Seq<u8>,
    ly: int,
    h: int,
    x: int,
) -> Option<Sprite>
    decreases sprites.len() - i,
{
    if i >= sprites.len() {
        None
    } else if sprite_covers(sprites[i as int], x) && sprite_color_index(
        vram,
        sprites[i as int],
        ly,
        h,
        x,
    ) != 0 {
        Some(sprites[i as int])
    } else {
        sprite_hit(sprites, i + 1, vram, ly, h, x)
    }
}

/// The LCD registers at 0xFF40-0xFF4B.
#[derive(Clone, Copy, Debug, PartialEq, Eq, Structural)]
pub struct LcdRegisters {
    pub lcdc: u8,
    /// Bits 3-6 of STAT; the mode and coincidence bits are computed on read.
    pub stat: u8,
    pub scy: u8,
    pub scx: u8,
    pub ly: u8,
    pub lyc: u8,
    pub dma: u8,
    pub bgp: u8,
    pub obp0: u8,
    pub obp1: u8,
    pub wy: u8,
    pub wx: u8,
}

pub open spec fn tile_method(lcdc: u8) -> TileDataSelect {
    if bit_of(lcdc, 4) {
        TileDataSelect::Method8000
    } else {
        TileDataSelect::Method8800
    }
}

/// Whether the window covers column `x` of the current line.
pub open spec fn window_covers(r: LcdRegisters, x: int) -> bool {
    bit_of(r.lcdc, 5) && r.ly >= r.wy && x + 7 >= r.wx
}

/// The background or window colour index at column `x` of line LY.
pub open spec fn bg_color_index(r: LcdRegisters, vram: Seq<u8>, x: int) -> nat {
    if !bit_of(r.lcdc, 0) {
        0
    } else if window_covers(r, x) {
        let wxp = x + 7 - r.wx;
        let wyp = r.ly - r.wy;
        let base = if bit_of(r.lcdc, 6) {
            0x9C00
        } else {
            0x9800
        };
        let ta = spec_tile_number_address(base, wyp, wxp, 0, 0);
        let da = spec_tile_data_address(vram_at(vram, ta), tile_method(r.lcdc), wyp, 0);
        pixel_index(vram_at(vram, da), vram_at(vram, da + 1), wxp % 8)
    } else {
        let base = if bit_of(r.lcdc, 3) {
            0x9C00
        } else {
            0x9800
        };
        let ta = spec_tile_number_address(base, r.ly as int, x + r.scx % 8, r.scx as int, r.scy as int);
        let da = spec_tile_data_address(vram_at(vram, ta), tile_method(r.lcdc), r.ly as int, r.scy as int);
        pixel_index(vram_at(vram, da), vram_at(vram, da + 1), (x + r.scx) % 8)
    }
}

/// The pixel at column `x` of line LY after mixing sprites over the
/// background and applying the palettes.
pub open spec fn spec_pixel(r: LcdRegisters, vram: Seq<u8>, oam: Seq<u8>, x: int) -> PixelData {
    let bg = bg_color_index(r, vram, x);
    let h = sprite_height(r.lcdc);
    let hit = sprite_hit(spec_oam_scan(oam, r.ly as int, r.lcdc), 0, vram, r.ly as int, h, x);
    if hit.is_some() && !(bit_of(hit.unwrap().flags, 7) && bg != 0) {
        let s = hit.unwrap();
        let pal = if bit_of(s.flags, 4) {
            r.obp1
        } else {
            r.obp0
        };
        shade_rgba(palette_shade(pal, sprite_color_index(vram, s, r.ly as int, h, x)))
    } else {
        shade_rgba(palette_shade(r.bgp, bg))
    }
}

/// The frame with line LY drawn.
pub open spec fn rendered(frame: Seq<PixelData>, r: LcdRegisters, vram: Seq<u8>, oam: Seq<u8>) -> Seq<
    PixelData,
> {
    Seq::new(
        frame.len(),
        |i: int|
            if r.ly * 160 <= i < r.ly * 160 + 160 {
                spec_pixel(r, vram, oam, i - r.ly * 160)
            } else {
                frame[i]
            },
    )
}

/// Every LCD register at zero.
pub open spec fn zero_registers() -> LcdRegisters {
    LcdRegisters {
        lcdc: 0,
        stat: 0,
        scy: 0,
        scx: 0,
        ly: 0,
        lyc: 0,
        dma: 0,
        bgp: 0,
        obp0: 0,
        obp1: 0,
        wy: 0,
        wx: 0,
    }
}

/// The PPU seen as plain values.
pub struct PpuView {
    pub regs: LcdRegisters,
    pub clock: u32,
    pub vram: Seq<u8>,
    pub oam: Seq<u8>,
    pub frame: Seq<PixelData>,
}

impl PpuView {
    pub open spec fn wf(&self) -> bool {
        &&& self.vram.len() == 0x2000
        &&& self.oam.len() == 160
        &&& self.frame.len() == FRAME_PIXELS
        &&& self.clock < SCANLINE_CYCLE
        &&& self.regs.ly < LINES
        &&& self.regs.stat % 8 == 0
    }

    /// STAT mode bits: 1 in V-Blank, else 2, 3 and 0 across the line.
    pub open spec fn mode(&self) -> u8 {
        if self.regs.ly >= 144 {
            1
        } else if self.clock < 80 {
            2
        } else if self.clock < 252 {
            3
        } else {
            0
        }
    }

    pub open spec fn stat_value(&self) -> u8 {
        (self.regs.stat + (if self.regs.ly == self.regs.lyc { 4u8 } else { 0u8 }) + self.mode()) as u8
    }

    pub open spec fn spec_read(&self, a: Address) -> u8 {
        if 0x8000 <= a < 0xA000 {
            self.vram[a - 0x8000]
        } else if 0xFE00 <= a < 0xFEA0 {
            self.oam[a - 0xFE00]
        } else if a == 0xFF40 {
            self.regs.lcdc
        } else if a == 0xFF41 {
            self.stat_value()
        } else if a == 0xFF42 {
            self.regs.scy
        } else if a == 0xFF43 {
            self.regs.scx
        } else if a == 0xFF44 {
            self.regs.ly
        } else if a == 0xFF45 {
            self.regs.lyc
        } else if a == 0xFF46 {
            self.regs.dma
        } else if a == 0xFF47 {
            self.regs.bgp
        } else if a == 0xFF48 {
            self.regs.obp0
        } else if a == 0xFF49 {
            self.regs.obp1
        } else if a == 0xFF4A {
            self.regs.wy
        } else {
            self.regs.wx
        }
    }

    /// The PPU after a write; LY is read-only, and STAT keeps only bits 3-6.
    pub open spec fn spec_write(self, a: Address, d: u8) -> PpuView {
        let r = self.regs;
        if 0x8000 <= a < 0xA000 {
            PpuView { vram: self.vram.update(a - 0x8000, d), ..self }
        } else if 0xFE00 <= a < 0xFEA0 {
            PpuView { oam: self.oam.update(a - 0xFE00, d), ..self }
        } else {
            PpuView {
                regs: if a == 0xFF40 {
                    LcdRegisters { lcdc: d, ..r }
                } else if a == 0xFF41 {
                    LcdRegisters { stat: ((d / 8) % 16 * 8) as u8, ..r }
                } else if a == 0xFF42 {
                    LcdRegisters { scy: d, ..r }
                } else if a == 0xFF43 {
                    LcdRegisters { scx: d, ..r }
                } else if a == 0xFF44 {
                    r
                } else if a == 0xFF45 {
                    LcdRegisters { lyc: d, ..r }
                } else if a == 0xFF46 {
                    LcdRegisters { dma: d, ..r }
                } else if a == 0xFF47 {
                    LcdRegisters { bgp: d, ..r }
                } else if a == 0xFF48 {
                    LcdRegisters { obp0: d, ..r }
                } else if a == 0xFF49 {
                    LcdRegisters { obp1: d, ..r }
                } else if a == 0xFF4A {
                    LcdRegisters { wy: d, ..r }
                } else {
                    LcdRegisters { wx: d, ..r }
                },
                ..self
            }
        }
    }

    /// Whether `cycle` T-cycles move LY onto LYC while STAT bit 6 enables
    /// the coincidence interrupt.
    pub open spec fn spec_stat_request(self, cycle: u8) -> bool {
        let c = self.clock + cycle;
        let ly1 = self.regs.ly + 1;
        let ly2 = if ly1 == LINES {
            0
        } else {
            ly1
        };
        c >= SCANLINE_CYCLE && ly2 == self.regs.lyc && bit_of(self.regs.stat, 6)
    }

    /// The PPU after `cycle` T-cycles, whether V-Blank began, and whether a
    /// frame is complete.
    pub open spec fn spec_tick(self, cycle: u8) -> (PpuView, bool, bool) {
        let c = self.clock + cycle;
        if c < SCANLINE_CYCLE {
            (PpuView { clock: c as u32, ..self }, false, false)
        } else {
            let frame = if self.regs.ly < 144 {
                rendered(self.frame, self.regs, self.vram, self.oam)
            } else {
                self.frame
            };
            let ly1 = self.regs.ly + 1;
            let ly2 = if ly1 == LINES {
                0u8
            } else {
                ly1 as u8
            };
            (
                PpuView {
                    clock: (c - SCANLINE_CYCLE) as u32,
                    frame,
                    regs: LcdRegisters { ly: ly2, ..self.regs },
                    ..self
                },
                ly1 == 144,
                ly1 == LINES,
            )
        }
    }
}

/// The request flags with V-Blank set when `v` holds.
pub open spec fn vblank_requested(f: InterruptFlags, v: bool) -> InterruptFlags {
    if v {
        f.spec_with(Peripheral::VBlank, true)
    } else {
        f
    }
}

/// The request flags with LCD-STAT set when `v` holds.
pub open spec fn stat_requested(f: InterruptFlags, v: bool) -> InterruptFlags {
    if v {
        f.spec_with(Peripheral::LcdStatus, true)
    } else {
        f
    }
}

/// Whether the PPU answers at `a`.
pub open spec fn is_ppu_address(a: Address) -> bool {
    (0x8000 <= a < 0xA000) || (0xFE00 <= a < 0xFEA0) || (0xFF40 <= a <= 0xFF4B)
}

pub struct PPU {
    pub regs: LcdRegisters,
    /// T-cycles into the current scanline.
    pub clock: u32,
    pub vram: Vec<u8>,
    pub oam: Vec<u8>,
    pub frame_buffer: Vec<PixelData>,
}

fn to_rgba(shade: u8) -> (r: PixelData)
    ensures
        r == shade_rgba(shade as nat),
{
    if shade == 0 {
        PixelData(255, 255, 255, 0)
    } else if shade == 1 {
        PixelData(170, 170, 170, 0)
    } else if shade == 2 {
        PixelData(85, 85, 85, 0)
    } else {
        PixelData(0, 0, 0, 0)
    }
}

fn shade_of(pal: u8, idx: u8) -> (r: u8)
    requires
        idx < 4,
    ensures
        r == palette_shade(pal, idx as nat),
{
    proof {
        reveal_with_fuel(pow2, 7);
    }
    let d: u8 = if idx == 0 {
        1
    } else if idx == 1 {
        4
    } else if idx == 2 {
        16
    } else {
        64
    };
    (pal / d) % 4
}

impl View for PPU {
    type V = PpuView;

    open spec fn view(&self) -> PpuView {
        PpuView {
            regs: self.regs,
            clock: self.clock,
            vram: self.vram@,
            oam: self.oam@,
            frame: self.frame_buffer@,
        }
    }
}

impl PPU {
    /// A PPU with all registers, VRAM and OAM zeroed and a white frame.
    pub fn new() -> (r: Self)
        ensures
            r@.wf(),
            r.regs == zero_registers(),
            r.clock == 0,
            r@.vram == Seq::new(0x2000, |i: int| 0u8),
            r@.oam == Seq::new(160, |i: int| 0u8),
            r@.frame == Seq::new(FRAME_PIXELS as nat, |i: int| PixelData(255, 255, 255, 0)),
    {
        let mut vram: Vec<u8> = Vec::new();
        let mut i: usize = 0;
        while i < 0x2000
            invariant
                i <= 0x2000,
                vram@ == Seq::new(i as nat, |j: int| 0u8),
            decreases 0x2000 - i,
        {
            vram.push(0);
            i = i + 1;
            assert(vram@ =~= Seq::new(i as nat, |j: int| 0u8));
        }
        let mut oam: Vec<u8> = Vec::new();
        let mut i: usize = 0;
        while i < 160
            invariant
                i <= 160,
                oam@ == Seq::new(i as nat, |j: int| 0u8),
            decreases 160 - i,
        {
            oam.push(0);
            i = i + 1;
            assert(oam@ =~= Seq::new(i as nat, |j: int| 0u8));
        }
        let mut frame_buffer: Vec<PixelData> = Vec::new();
        let mut i: usize = 0;
        while i < FRAME_PIXELS
            invariant
                i <= FRAME_PIXELS,
                frame_buffer@ == Seq::new(i as nat, |j: int| PixelData(255, 255, 255, 0)),
            decreases FRAME_PIXELS - i,
        {
            frame_buffer.push(PixelData(255, 255, 255, 0));
            i = i + 1;
            assert(frame_buffer@ =~= Seq::new(i as nat, |j: int| PixelData(255, 255, 255, 0)));
        }
        PPU {
            regs: LcdRegisters {
                lcdc: 0,
                stat: 0,
                scy: 0,
                scx: 0,
                ly: 0,
                lyc: 0,
                dma: 0,
                bgp: 0,
                obp0: 0,
                obp1: 0,
                wy: 0,
                wx: 0,
            },
            clock: 0,
            vram,
            oam,
            frame_buffer,
        }
    }

    /// The frame as drawn so far, row by row.
    pub fn frame_buffer(&self) -> (r: &Vec<PixelData>)
        ensures
            r@ == self@.frame,
    {
        &self.frame_buffer
    }

    fn vram_byte(&self, a: u32) -> (r: u8)
        requires
            self@.wf(),
            0x8000 <= a < 0xA000,
        ensures
            r == vram_at(self@.vram, a as int),
    {
        self.vram[(a - 0x8000) as usize]
    }

    /// Reads VRAM, OAM or an LCD register.
    pub fn read(&self, address: Address) -> (r: u8)
        requires
            self@.wf(),
            is_ppu_address(address),
        ensures
            r == self@.spec_read(address),
    {
        let r = self.regs;
        if 0x8000 <= address && address < 0xA000 {
            self.vram[(address - 0x8000) as usize]
        } else if 0xFE00 <= address && address < 0xFEA0 {
            self.oam[(address - 0xFE00) as usize]
        } else if address == 0xFF40 {
            r.lcdc
        } else if address == 0xFF41 {
            let mode: u8 = if r.ly >= 144 {
                1
            } else if self.clock < 80 {
                2
            } else if self.clock < 252 {
                3
            } else {
                0
            };
            let coincidence: u8 = if r.ly == r.lyc {
                4
            } else {
                0
            };
            r.stat + coincidence + mode
        } else if address == 0xFF42 {
            r.scy
        } else if address == 0xFF43 {
            r.scx
        } else if address == 0xFF44 {
            r.ly
        } else if address == 0xFF45 {
            r.lyc
        } else if address == 0xFF46 {
            r.dma
        } else if address == 0xFF47 {
            r.bgp
        } else if address == 0xFF48 {
            r.obp0
        } else if address == 0xFF49 {
            r.obp1
        } else if address == 0xFF4A {
            r.wy
        } else {
            r.wx
        }
    }

    /// Writes VRAM, OAM or an LCD register.
    pub fn write(&mut self, address: Address, data: u8)
        requires
            old(self)@.wf(),
            is_ppu_address(address),
        ensures
            final(self)@.wf(),
            final(self)@ == old(self)@.spec_write(address, data),
    {
        if 0x8000 <= address && address < 0xA000 {
            self.vram.set((address - 0x8000) as usize, data);
        } else if 0xFE00 <= address && address < 0xFEA0 {
            self.oam.set((address - 0xFE00) as usize, data);
        } else if address == 0xFF40 {
            self.regs.lcdc = data;
        } else if address == 0xFF41 {
            self.regs.stat = (data / 8) % 16 * 8;
        } else if address == 0xFF42 {
            self.regs.scy = data;
        } else if address == 0xFF43 {
            self.regs.scx = data;
        } else if address == 0xFF44 {
        } else if address == 0xFF45 {
            self.regs.lyc = data;
        } else if address == 0xFF46 {
            self.regs.dma = data;
        } else if address == 0xFF47 {
            self.regs.bgp = data;
        } else if address == 0xFF48 {
            self.regs.obp0 = data;
        } else if address == 0xFF49 {
            self.regs.obp1 = data;
        } else if address == 0xFF4A {
            self.regs.wy = data;
        } else {
            self.regs.wx = data;
        }
    }

    /// Picks the sprites of the current line: those on it, in OAM order, at
    /// most ten.
    pub fn oam_scan(&self) -> (r: Vec<Sprite>)
        requires
            self@.wf(),
        ensures
            r@ == spec_oam_scan(self@.oam, self.regs.ly as int, self.regs.lcdc),
    {
        let mut r: Vec<Sprite> = Vec::new();
        if !bit_set(self.regs.lcdc, 1) {
            return r;
        }
        let h: u16 = if bit_set(self.regs.lcdc, 2) {
            16
        } else {
            8
        };
        let ly = self.regs.ly as u16;
        let mut i: usize = 0;
        while i < 40
            invariant
                self@.wf(),
                i <= 40,
                h as int == sprite_height(self.regs.lcdc),
                ly == self.regs.ly,
                r@ == oam_scan_prefix(self@.oam, ly as int, h as int, i as nat),
                r.len() <= 10,
            decreases 40 - i,
        {
            let s = Sprite {
                y_position: self.oam[4 * i] as u16,
                x_position: self.oam[4 * i + 1] as u16,
                tile_number: self.oam[4 * i + 2],
                flags: self.oam[4 * i + 3],
            };
            assert(s == sprite_at(self@.oam, i as int));
            if r.len() < 10 && 0 < s.x_position && s.x_position <= 168 && s.y_position <= ly + 16
                && ly + 16 < s.y_position + h {
                r.push(s);
            }
            i = i + 1;
        }
        r
    }

    fn sprite_color(&self, s: Sprite, h: u16, x: u16) -> (r: u8)
        requires
            self@.wf(),
            self.regs.ly < 144,
            h == 8 || h == 16,
            sprite_on_line(s, self.regs.ly as int, h as int),
            sprite_covers(s, x as int),
        ensures
            r == sprite_color_index(self@.vram, s, self.regs.ly as int, h as int, x as int),
            r < 4,
    {
        let ly = self.regs.ly as u16;
        let rr = ly + 16 - s.y_position;
        let row = if bit_set(s.flags, 6) {
            h - 1 - rr
        } else {
            rr
        };
        let tile: u16 = if h == 16 {
            (s.tile_number as u16 / 2) * 2
        } else {
            s.tile_number as u16
        };
        let a = 0x8000 + tile as u32 * 16 + 2 * row as u32;
        let c = x + 8 - s.x_position;
        let col = if bit_set(s.flags, 5) {
            7 - c
        } else {
            c
        };
        let line = TileLine { low: self.vram_byte(a), high: self.vram_byte(a + 1) };
        line.color_at(col as u8)
    }

    fn bg_color(&self, x: u16) -> (r: u8)
        requires
            self@.wf(),
            self.regs.ly < 144,
            x < 160,
        ensures
            r == bg_color_index(self.regs, self@.vram, x as int),
            r < 4,
    {
        let r = self.regs;
        if !bit_set(r.lcdc, 0) {
            return 0;
        }
        let method = if bit_set(r.lcdc, 4) {
            TileDataSelect::Method8000
        } else {
            TileDataSelect::Method8800
        };
        if bit_set(r.lcdc, 5) && r.ly >= r.wy && x + 7 >= r.wx as u16 {
            let wxp = x + 7 - r.wx as u16;
            let wyp = (r.ly - r.wy) as u16;
            let base: u16 = if bit_set(r.lcdc, 6) {
                0x9C00
            } else {
                0x9800
            };
            let ta = tile_number_address(base, wyp, wxp, 0, 0);
            let tile = self.vram_byte(ta as u32);
            let da = tile_number_to_address(tile, method, wyp, 0);
            let line = TileLine { low: self.vram_byte(da as u32), high: self.vram_byte(da as u32 + 1) };
            line.color_at((wxp % 8) as u8)
        } else {
            let base: u16 = if bit_set(r.lcdc, 3) {
                0x9C00
            } else {
                0x9800
            };
            let ta = tile_number_address(
                base,
                r.ly as u16,
                x + r.scx as u16 % 8,
                r.scx as u16,
                r.scy as u16,
            );
            let tile = self.vram_byte(ta as u32);
            let da = tile_number_to_address(tile, method, r.ly as u16, r.scy as u16);
            let line = TileLine { low: self.vram_byte(da as u32), high: self.vram_byte(da as u32 + 1) };
            line.color_at(((x + r.scx as u16) % 8) as u8)
        }
    }

    fn pixel(&self, sprites: &Vec<Sprite>, x: u16) -> (r: PixelData)
        requires
            self@.wf(),
            self.regs.ly < 144,
            x < 160,
            sprites@ == spec_oam_scan(self@.oam, self.regs.ly as int, self.regs.lcdc),
        ensures
            r == spec_pixel(self.regs, self@.vram, self@.oam, x as int),
    {
        let bg = self.bg_color(x);
        let h: u16 = if bit_set(self.regs.lcdc, 2) {
            16
        } else {
            8
        };
        let ghost hh = h as int;
        let ghost ly = self.regs.ly as int;
        proof {
            lemma_scan_on_line(self@.oam, ly, self.regs.lcdc);
        }
        let mut i: usize = 0;
        while i < sprites.len()
            invariant
                self@.wf(),
                self.regs.ly < 144,
                i <= sprites.len(),
                x < 160,
                bg < 4,
                bg == bg_color_index(self.regs, self@.vram, x as int),
                hh == h as int == sprite_height(self.regs.lcdc),
                ly == self.regs.ly,
                sprites@ == spec_oam_scan(self@.oam, ly, self.regs.lcdc),
                forall|k: int|
                    0 <= k < sprites.len() ==> #[trigger] sprite_on_line(sprites@[k], ly, hh),
                sprite_hit(sprites@, 0, self@.vram, ly, hh, x as int) == sprite_hit(
                    sprites@,
                    i as nat,
                    self@.vram,
                    ly,
                    hh,
                    x as int,
                ),
            decreases sprites.len() - i,
        {
            let s = sprites[i];
            assert(sprite_on_line(sprites@[i as int], ly, hh));
            if s.x_position <= x + 8 && x + 8 < s.x_position + 8 {
                let c = self.sprite_color(s, h, x);
                if c != 0 {
                    let r = self.regs;
                    if bit_set(s.flags, 7) && bg != 0 {
                        return to_rgba(shade_of(r.bgp, bg));
                    }
                    let pal = if bit_set(s.flags, 4) {
                        r.obp1
                    } else {
                        r.obp0
                    };
                    return to_rgba(shade_of(pal, c));
                }
            }
            i = i + 1;
        }
        to_rgba(shade_of(self.regs.bgp, bg))
    }

    fn scan_line(&mut self)
        requires
            old(self)@.wf(),
            old(self).regs.ly < 144,
        ensures
            final(self)@ == (PpuView {
                frame: rendered(old(self)@.frame, old(self).regs, old(self)@.vram, old(self)@.oam),
                ..old(self)@
            }),
    {
        let sprites = self.oam_scan();
        let row = self.regs.ly as usize * WIDTH_LCD;
        let mut x: u16 = 0;
        while x < 160
            invariant
                self@.wf(),
                self.regs == old(self).regs,
                self.clock == old(self).clock,
                self@.vram == old(self)@.vram,
                self@.oam == old(self)@.oam,
                self.regs.ly < 144,
                row == self.regs.ly * 160,
                x <= 160,
                sprites@ == spec_oam_scan(self@.oam, self.regs.ly as int, self.regs.lcdc),
                forall|i: int|
                    0 <= i < FRAME_PIXELS ==> #[trigger] self@.frame[i] == if row <= i < row + x {
                        spec_pixel(self.regs, self@.vram, self@.oam, i - row)
                    } else {
                        old(self)@.frame[i]
                    },
            decreases 160 - x,
        {
            let p = self.pixel(&sprites, x);
            self.frame_buffer.set(row + x as usize, p);
            x = x + 1;
        }
        assert(self@.frame =~= rendered(old(self)@.frame, old(self).regs, old(self)@.vram, old(self)@.oam));
    }

    /// Advances the PPU by `cycle` T-cycles: at the end of each 456-cycle
    /// scanline the line is drawn (when visible) and LY moves on; V-Blank is
    /// requested when LY reaches 144, and LCD-STAT when LY reaches LYC with
    /// STAT bit 6 set. Returns whether a frame was completed, which is when
    /// LY wraps from 153 to 0.
    pub fn tick(&mut self, cycle: u8, ic: &mut Interruption) -> (frame_ready: bool)
        requires
            old(self)@.wf(),
        ensures
            final(self)@.wf(),
            final(self)@ == old(self)@.spec_tick(cycle).0,
            frame_ready == old(self)@.spec_tick(cycle).2,
            final(ic).enables == old(ic).enables,
            final(ic).interrupts == stat_requested(
                vblank_requested(old(ic).interrupts, old(self)@.spec_tick(cycle).1),
                old(self)@.spec_stat_request(cycle),
            ),
    {
        let c = self.clock + cycle as u32;
        if c < SCANLINE_CYCLE {
            self.clock = c;
            return false;
        }
        if self.regs.ly < 144 {
            self.scan_line();
        }
        self.clock = c - SCANLINE_CYCLE;
        let ly1 = self.regs.ly + 1;
        if ly1 == 144 {
            ic.request(Peripheral::VBlank);
        }
        let frame_ready = ly1 == LINES;
        self.regs.ly = if frame_ready {
            0
        } else {
            ly1
        };
        if self.regs.ly == self.regs.lyc && bit_set(self.regs.stat, 6) {
            ic.request(Peripheral::LcdStatus);
        }
        frame_ready
    }
}

/// Every sprite the scan picks is on the line.
proof fn lemma_scan_on_line(oam: Seq<u8>, ly: int, lcdc: u8)
    ensures
        forall|k: int|
            0 <= k < spec_oam_scan(oam, ly, lcdc).len() ==> #[trigger] sprite_on_line(
                spec_oam_scan(oam, ly, lcdc)[k],
                ly,
                sprite_height(lcdc),
            ),
{
    if bit_of(lcdc, 1) {
        lemma_prefix_on_line(oam, ly, sprite_height(lcdc), 40);
    }
}

proof fn lemma_prefix_on_line(oam: Seq<u8>, ly: int, h: int, n: nat)
    ensures
        forall|k: int|
            0 <= k < oam_scan_prefix(oam, ly, h, n).len() ==> #[trigger] sprite_on_line(
                oam_scan_prefix(oam, ly, h, n)[k],
                ly,
                h,
            ),
        oam_scan_prefix(oam, ly, h, n).len() <= 10,
    decreases n,
{
    if n > 0 {
        lemma_prefix_on_line(oam, ly, h, (n - 1) as nat);
    }
}

} // verus!
