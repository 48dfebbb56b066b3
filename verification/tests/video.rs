use lameboy::video::{Video, SHADES, VIDEO_RESULT_MASK_STAT_INTERRUPT, VIDEO_RESULT_MASK_VBLANK_INTERRUPT};

const LCDC: u16 = 0xFF40;
const STAT: u16 = 0xFF41;
const SCX: u16 = 0xFF43;
const LY: u16 = 0xFF44;
const LYC: u16 = 0xFF45;

fn read(v: &Video, loc: u16) -> u8 {
    v.read(loc).unwrap()
}

#[test]
fn registers_read_back() {
    let mut v = Video::new(true);
    assert_eq!(read(&v, STAT), 0x80);
    v.write(SCX, 5);
    assert_eq!(read(&v, SCX), 5);
    v.write(STAT, 0x41);
    assert_eq!(read(&v, STAT), 0xC1);
    v.write(0x8123, 0xAB);
    assert_eq!(read(&v, 0x8123), 0xAB);
    v.write(0xFE05, 0xCD);
    assert_eq!(read(&v, 0xFE05), 0xCD);
    v.reset();
    assert_eq!(read(&v, STAT), 0x86);
    assert_eq!(read(&v, LY), 0);
}

#[test]
fn dma_fills_oam() {
    let mut v = Video::new(true);
    let block: Vec<u8> = (0..0xA0u32).map(|i| i as u8).collect();
    v.dma_oam_transfer(block);
    for i in 0..0xA0u16 {
        assert_eq!(read(&v, 0xFE00 + i), i as u8);
    }
}

#[test]
fn lcd_off_does_nothing() {
    let mut v = Video::new(true);
    assert_eq!(v.update(1000), 0);
    assert_eq!(v.stat_counter, 0);
}

#[test]
fn modes_follow_the_line_timing() {
    let mut v = Video::new(true);
    v.write(LCDC, 0x80);
    // Mode 0 lasts 172 cycles, then LY advances and mode 2 starts.
    assert_eq!(v.update(171), 0);
    assert_eq!(read(&v, STAT) & 3, 0);
    assert_eq!(v.update(1), 0);
    assert_eq!(read(&v, LY), 1);
    assert_eq!(read(&v, STAT) & 3, 2);
    assert_eq!(v.update(80), 0);
    assert_eq!(read(&v, STAT) & 3, 3);
    assert_eq!(v.update(204), 0);
    assert_eq!(read(&v, STAT) & 3, 0);
    assert_eq!(v.stat_counter, 0);
}

#[test]
fn vblank_and_next_frame() {
    let mut v = Video::new(false);
    v.write(LCDC, 0x80);
    v.ly = 143;
    let mask = v.update(172);
    assert_eq!(mask, VIDEO_RESULT_MASK_VBLANK_INTERRUPT);
    assert_eq!(read(&v, LY), 144);
    assert_eq!(read(&v, STAT) & 3, 1);
    assert_eq!(v.update(456), 0);
    assert_eq!(read(&v, LY), 145);
    assert!(!v.take_frame_sync());
    assert_eq!(v.update(4560 - 456), 0);
    assert_eq!(read(&v, LY), 0);
    assert_eq!(read(&v, STAT) & 3, 2);
    assert!(v.take_frame_sync());
    assert!(!v.take_frame_sync());
}

#[test]
fn ly_compare_interrupt() {
    let mut v = Video::new(true);
    v.write(LCDC, 0x80);
    v.write(STAT, 0x40);
    v.write(LYC, 1);
    let mask = v.update(172);
    assert_eq!(mask, VIDEO_RESULT_MASK_STAT_INTERRUPT);
    assert_eq!(read(&v, STAT) & 0b100, 0b100);
}

#[test]
fn background_line_and_display_frame() {
    let mut v = Video::new(true);
    // Tile 0, row 0: low bits all set, high bits clear: shade code 1.
    v.write(0x8000, 0xFF);
    v.write(0x8001, 0x00);
    v.write(LCDC, 0x91);
    assert!(v.is_draw_defined(0));
    v.draw_line_to_screen(0);
    let mut frame = vec![0u8; 160 * 144 * 4];
    v.draw_display(&mut frame);
    assert_eq!(&frame[0..4], &SHADES[1]);
    assert_eq!(&frame[159 * 4..160 * 4], &SHADES[1]);
    // Line 1 was not drawn.
    assert_eq!(&frame[160 * 4..161 * 4], &SHADES[0]);
}

#[test]
fn objects_land_32_lines_lower() {
    let mut v = Video::new(true);
    // Object 0: Y 16, X 9, tile 1.
    v.write(0xFE00, 16);
    v.write(0xFE01, 9);
    v.write(0xFE02, 1);
    // Tile 1, row 0: only the leftmost pixel, shade code 3.
    v.write(0x8010, 0x80);
    v.write(0x8011, 0x80);
    v.write(LCDC, 0x82);
    assert!(v.is_draw_defined(0));
    v.draw_line_to_screen(0);
    let mut frame = vec![0u8; 160 * 144 * 4];
    v.draw_display(&mut frame);
    let p = (32 * 160 + 17) * 4;
    assert_eq!(&frame[p..p + 4], &SHADES[3]);
    assert_eq!(&frame[p + 4..p + 8], &SHADES[0]);
    // The last row of the object's Y range is past its tile.
    assert!(!v.is_draw_defined(8));
    // Far down, the object would land below the screen.
    v.write(0xFE00, 136);
    assert!(!v.is_draw_defined(120));
    assert!(v.is_update_defined(1));
}

#[test]
fn debug_tile_sheet() {
    let mut v = Video::new(true);
    v.write(0x8000, 0xFF);
    v.write(0x8001, 0xFF);
    let mut frame = vec![7u8; 16 * 8 * 24 * 8 * 4 + 4];
    v.draw_debug_tiles(&mut frame);
    assert_eq!(&frame[0..4], &SHADES[3]);
    assert_eq!(&frame[7 * 4..8 * 4], &SHADES[3]);
    assert_eq!(&frame[8 * 4..9 * 4], &SHADES[0]);
    // Bytes past the sheet stay.
    let n = frame.len();
    assert_eq!(&frame[n - 4..], &[7, 7, 7, 7]);
}
