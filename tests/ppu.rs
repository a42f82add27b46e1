use rustboy::interruption::Interruption;
use rustboy::ppu::{tile_number_address, tile_number_to_address, Color, TileDataSelect, TileLine, PPU};

#[test]
fn test_tile_number_address() {
    assert_eq!(tile_number_address(0x9800, 0, 0, 0, 0), 0x9800);
    assert_eq!(tile_number_address(0x9800, 1, 1, 0, 0), 0x9800);
    assert_eq!(tile_number_address(0x9800, 8, 1, 0, 0), 0x9820);
    assert_eq!(tile_number_address(0x9800, 20, 2, 0, 0), 0x9840);
    assert_eq!(tile_number_address(0x9800, 144, 0, 0, 0), 0x9A40);
}

#[test]
fn test_tile_data_address_m8800() {
    assert_eq!(
        tile_number_to_address(127, TileDataSelect::Method8800, 0, 0),
        0x97F0,
    );
    assert_eq!(
        tile_number_to_address(0, TileDataSelect::Method8800, 0, 0),
        0x9000
    );
    assert_eq!(
        tile_number_to_address(1, TileDataSelect::Method8800, 0, 0),
        0x9010
    );
    assert_eq!(
        tile_number_to_address(1, TileDataSelect::Method8800, 2, 0),
        0x9014
    );
    assert_eq!(
        tile_number_to_address(32, TileDataSelect::Method8800, 5, 0),
        0x920A
    );
    assert_eq!(
        tile_number_to_address(-1i8 as u8, TileDataSelect::Method8800, 0, 0),
        0x8FF0
    );
    assert_eq!(
        tile_number_to_address(-2i8 as u8, TileDataSelect::Method8800, 0, 0),
        0x8FE0
    );
    assert_eq!(
        tile_number_to_address(-128i8 as u8, TileDataSelect::Method8800, 0, 0),
        0x8800,
    );
}

#[test]
fn test_tile_data_address_m8000() {
    assert_eq!(
        tile_number_to_address(0x00, TileDataSelect::Method8000, 0, 0),
        0x8000
    );
    assert_eq!(
        tile_number_to_address(0x02, TileDataSelect::Method8000, 0, 0),
        0x8020
    );
    assert_eq!(
        tile_number_to_address(0xFF, TileDataSelect::Method8000, 0, 0),
        0x8FF0
    );
}

#[test]
fn test_tile_line() {
    let tl = TileLine {
        low: 0b11001100,
        high: 0b10101010,
    };
    let mut it = tl.into_iter();
    assert_eq!(it.next(), Some(Color::Black));
    assert_eq!(it.next(), Some(Color::LightGray));
    assert_eq!(it.next(), Some(Color::DarkGray));
    assert_eq!(it.next(), Some(Color::White));
    assert_eq!(it.next(), Some(Color::Black));
    assert_eq!(it.next(), Some(Color::LightGray));
    assert_eq!(it.next(), Some(Color::DarkGray));
    assert_eq!(it.next(), Some(Color::White));
    assert_eq!(it.next(), None);
}

#[test]
fn scroll_wraps_tile_map_and_rows() {
    // SCX/8 is added to the tile column and wraps at 32 tiles.
    assert_eq!(tile_number_address(0x9800, 0, 0, 8, 0), 0x9801);
    assert_eq!(tile_number_address(0x9800, 0, 248, 8, 0), 0x9800);
    // SCY is added to LY modulo 256.
    assert_eq!(tile_number_address(0x9C00, 255, 0, 0, 1), 0x9C00);
    assert_eq!(tile_number_to_address(0, TileDataSelect::Method8000, 7, 1), 0x8000);
}

#[test]
fn vblank_and_frame_pacing() {
    let mut ppu = PPU::new();
    let mut ic = Interruption::new();
    let mut frames = 0;
    // 144 scanlines of 456 cycles; ticks of 228 cycles.
    for _ in 0..(144 * 2) {
        if ppu.tick(228, &mut ic) {
            frames += 1;
        }
    }
    assert_eq!(ppu.read(0xFF44), 144);
    assert!(ic.interrupts.v_blank);
    for _ in 0..(10 * 2) {
        if ppu.tick(228, &mut ic) {
            frames += 1;
        }
    }
    assert_eq!(ppu.read(0xFF44), 0);
    assert_eq!(frames, 1);
}

#[test]
fn background_pixel_uses_palette() {
    let mut ppu = PPU::new();
    let mut ic = Interruption::new();
    // Tile 0 row 0: all pixels colour index 3.
    ppu.write(0x8000, 0xFF);
    ppu.write(0x8001, 0xFF);
    // LCD on, BG on, tile data at 0x8000, map at 0x9800 (all tile 0).
    ppu.write(0xFF40, 0x91);
    // Palette: index 3 -> shade 1 (light gray).
    ppu.write(0xFF47, 0b0100_0000);
    ppu.tick(228, &mut ic);
    ppu.tick(228, &mut ic);
    let frame = ppu.frame_buffer();
    assert_eq!(frame[0].0, 170);
    assert_eq!(frame[159].0, 170);
    // Row 1 of the tile is still zero: colour 0 -> shade 0 (white).
    ppu.tick(228, &mut ic);
    ppu.tick(228, &mut ic);
    assert_eq!(ppu.frame_buffer()[160].0, 255);
}

#[test]
fn lyc_coincidence_requests_lcd_stat() {
    let mut ppu = PPU::new();
    let mut ic = Interruption::new();
    ppu.write(0xFF45, 2);
    ppu.tick(228, &mut ic);
    ppu.tick(228, &mut ic);
    assert!(!ic.interrupts.lcd_stat);
    ppu.write(0xFF41, 0x40);
    ppu.tick(228, &mut ic);
    ppu.tick(228, &mut ic);
    assert_eq!(ppu.read(0xFF44), 2);
    assert!(ic.interrupts.lcd_stat);
    // Coincidence flag (bit 2) and mode 2 at the start of the line.
    assert_eq!(ppu.read(0xFF41), 0x40 | 0x04 | 0x02);
}
