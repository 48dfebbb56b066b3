use lameboy::conf::PALETTE;
use lameboy::ppu::{LcdPpuMode, PPU};

const LCDC: u16 = 0xFF40;
const STAT: u16 = 0xFF41;
const LY: u16 = 0xFF44;
const BGP: u16 = 0xFF47;

fn read(p: &PPU, loc: u16) -> u8 {
    p.read(loc).unwrap()
}

/// A PPU with tile 0's first row in raw color 1, the identity palette, and the LCD on with
/// the background drawn from tile data at 0x8000.
fn ppu_with_background() -> PPU {
    let mut p = PPU::new(true);
    p.write(0x8000, 0xFF);
    p.write(0x8001, 0x00);
    p.write(BGP, 0b1110_0100);
    p.write(LCDC, 0x91);
    p
}

#[test]
fn registers_after_new_and_reset() {
    let mut p = PPU::new(true);
    assert_eq!(read(&p, STAT), 0x82);
    assert_eq!(p.lcd_ppu_mode(), LcdPpuMode::M2);
    p.write(0xFF43, 9);
    assert_eq!(read(&p, 0xFF43), 9);
    // Writes to STAT keep bit 7 set and leave the mode at 0.
    p.write(STAT, 0x43);
    assert_eq!(read(&p, STAT), 0xC0);
    p.reset();
    assert_eq!(read(&p, STAT), 0x82);
    assert_eq!(read(&p, 0xFF43), 0);
}

#[test]
fn vram_is_locked_in_mode_3() {
    let mut p = ppu_with_background();
    // Turning the LCD on starts mode 2, four cycles in.
    assert_eq!(p.lcd_ppu_mode(), LcdPpuMode::M2);
    let _ = p.update(76);
    assert_eq!(p.lcd_ppu_mode(), LcdPpuMode::M3);
    assert_eq!(read(&p, 0x8000), 0xFF);
    p.write(0x8002, 0x12);
    assert_eq!(read(&p, 0x8002), 0xFF);
    let _ = p.update(252);
    assert_eq!(p.lcd_ppu_mode(), LcdPpuMode::M0);
    assert_eq!(read(&p, 0x8002), 0x00);
    p.write(0x8002, 0x12);
    assert_eq!(read(&p, 0x8002), 0x12);
}

#[test]
fn turning_the_lcd_off_resets_ly() {
    let mut p = ppu_with_background();
    for _ in 0..3 {
        let _ = p.update(200);
    }
    assert_eq!(read(&p, LY), 1);
    p.write(LCDC, 0x11);
    assert_eq!(read(&p, LY), 0);
    assert_eq!(p.lcd_ppu_mode(), LcdPpuMode::M0);
}

#[test]
fn screen_and_debug_frames() {
    let mut p = ppu_with_background();
    // The end of mode 2 draws line 0.
    let _ = p.update(76);
    p.main_window_id = Some(1);
    p.tile_debug_window_id = Some(2);
    p.background_debug_window_id = Some(3);
    p.window_debug_window_id = Some(4);

    let mut screen = vec![9u8; 160 * 144 * 4];
    p.fill_frame_buffer(1, &mut screen);
    assert_eq!(&screen[0..4], &PALETTE[1]);
    assert_eq!(&screen[159 * 4..160 * 4], &PALETTE[1]);

    let mut tiles = vec![9u8; 16 * 8 * 24 * 8 * 4];
    p.fill_frame_buffer(2, &mut tiles);
    assert_eq!(&tiles[0..4], &PALETTE[1]);
    assert_eq!(&tiles[8 * 4..9 * 4], &PALETTE[0]);

    let mut map = vec![9u8; 256 * 256 * 4];
    p.fill_frame_buffer(3, &mut map);
    assert_eq!(&map[0..4], &PALETTE[1]);
    // The second line of tile 0 is color 0.
    assert_eq!(&map[256 * 4..257 * 4], &PALETTE[0]);

    let mut other = vec![9u8; 8];
    p.fill_frame_buffer(7, &mut other);
    assert_eq!(other, vec![9u8; 8]);

    p.write(LCDC, 0x11);
    p.fill_frame_buffer(1, &mut screen);
    assert!(screen.iter().all(|b| *b == 0));
}

#[test]
fn vblank_interrupt_and_frame_sync() {
    let mut p = PPU::new(false);
    p.write(LCDC, 0x80);
    let mut vblank = false;
    // 144 lines of 456 cycles.
    for _ in 0..(144 * 456 / 4) {
        if p.update(4) & 0b10 != 0 {
            vblank = true;
        }
    }
    assert!(vblank);
    assert_eq!(read(&p, LY), 144);
    assert!(!p.take_frame_sync());
    for _ in 0..(10 * 456 / 4) {
        let _ = p.update(4);
    }
    assert_eq!(read(&p, LY), 0);
    assert!(p.take_frame_sync());
}

#[test]
fn frame_sizes_are_checked_per_window() {
    let mut ppu = PPU::new(true);
    ppu.main_window_id = Some(1);
    ppu.tile_debug_window_id = Some(2);
    assert!(ppu.is_fill_frame_defined(1, 160 * 144 * 4));
    assert!(!ppu.is_fill_frame_defined(1, 160 * 144 * 4 + 4));
    assert!(!ppu.is_fill_frame_defined(2, 16));
    assert!(ppu.is_fill_frame_defined(7, 16));
}
