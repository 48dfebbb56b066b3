use vstd::prelude::*;

use crate::conf::{
    Error, DISPLAY_WIDTH, MEM_AREA_OAM_END, MEM_AREA_OAM_START, MEM_AREA_VRAM_END,
    MEM_AREA_VRAM_START, MEM_LOC_BGP, MEM_LOC_LCDC, MEM_LOC_LY, MEM_LOC_LYC, MEM_LOC_OBP0,
    MEM_LOC_OBP1, MEM_LOC_SCX, MEM_LOC_SCY, MEM_LOC_STAT, MEM_LOC_WX, MEM_LOC_WY, OAM_RAM_SIZE,
    PALETTE, VRAM_SIZE,
};
use crate::util::{apply_palette, bit, is_bit, pixel_rgb8888_color};

use crate::bits::lemma_small_bits;

verus! {

pub const VIDEO_RESULT_MASK_STAT_INTERRUPT: u8 = 0b1;

pub const VIDEO_RESULT_MASK_VBLANK_INTERRUPT: u8 = 0b10;

/// Bytes of the RGBA display buffer: 160 x 144 pixels of 4 bytes.
pub const DISPLAY_BUFFER_SIZE: usize = 92160;

/// The PPU mode of the STAT register.
#[derive(Clone, Copy, PartialEq, Eq, Structural, Debug)]
pub enum LcdPpuMode {
    M0,
    M1,
    M2,
    M3,
}

#[derive(Clone, Copy, PartialEq, Eq, Structural, Debug)]
pub enum TileMapDisplaySelect {
    Section9800_9BFF,
    Section9C00_9FFF,
}

#[derive(Clone, Copy, PartialEq, Eq, Structural, Debug)]
pub enum BgrWinTileDataSelect {
    Section8800_97FF,
    Section8000_8FFF,
}

#[derive(Clone, Copy, PartialEq, Eq, Structural, Debug)]
pub enum ObjSpriteSize {
    Size8x8,
    Size8x16,
}

/// Bit `n` of `x`.
pub open spec fn bit_of(x: u8, n: u8) -> bool {
    (x >> n) & 1 == 1
}

/// The RGBA color of a raw color through a palette.
pub open spec fn rgba_of(palette: u8, raw: u8) -> [u8; 4] {
    PALETTE[((palette >> ((raw * 2) as u8)) & 3) as int]
}

/// The abstract state of the picture processing unit.
pub struct PpuState {
    pub stat_counter: u64,
    pub prev_m3_len: u64,
    pub lcdc: u8,
    pub stat: u8,
    pub scy: u8,
    pub scx: u8,
    pub ly: u8,
    pub lyc: u8,
    pub bgp: u8,
    pub obp0: u8,
    pub obp1: u8,
    pub wy: u8,
    pub wx: u8,
    pub vram: Seq<u8>,
    pub oam_ram: Seq<u8>,
    pub display: Seq<u8>,
    pub ignore_fps_limiter: bool,
    pub main_window_id: Option<u64>,
    pub tile_debug_window_id: Option<u64>,
    pub background_debug_window_id: Option<u64>,
    pub window_debug_window_id: Option<u64>,
    pub lyc_change_interrupt: bool,
    pub wy_offset: u8,
    pub frame_sync_due: bool,
}

impl PpuState {
    pub open spec fn mode(&self) -> u8 {
        self.stat & 0b11
    }

    pub open spec fn lcd_on(&self) -> bool {
        bit_of(self.lcdc, 7)
    }

    pub open spec fn vram_accessible(&self) -> bool {
        !self.lcd_on() || self.mode() != 3
    }

    pub open spec fn oam_accessible(&self) -> bool {
        !self.lcd_on() || (self.mode() != 2 && self.mode() != 3)
    }

    /// Lines drawn are on screen, and LY stays within the 154 lines of a frame.
    pub open spec fn wf(&self) -> bool {
        &&& self.vram.len() == VRAM_SIZE
        &&& self.oam_ram.len() == OAM_RAM_SIZE
        &&& self.display.len() == DISPLAY_BUFFER_SIZE
        &&& self.prev_m3_len == 252
        &&& (!self.lcd_on() ==> self.ly == 0)
        &&& (self.mode() == 2 || self.mode() == 3 ==> self.ly < 144)
    }

    /// Offset in VRAM of the tile data that the background and window use.
    pub open spec fn tile_data_start(&self) -> int {
        if bit_of(self.lcdc, 4) {
            0
        } else {
            0x0800
        }
    }

    /// Offset in VRAM of the background tile map.
    pub open spec fn bg_map_start(&self) -> int {
        if bit_of(self.lcdc, 3) {
            0x1C00
        } else {
            0x1800
        }
    }

    /// Offset in VRAM of the window tile map.
    pub open spec fn win_map_start(&self) -> int {
        if bit_of(self.lcdc, 6) {
            0x1C00
        } else {
            0x1800
        }
    }

    /// The tile that a map holds at a row and column (signed indexing in the 0x8800 area).
    pub open spec fn tile_at(&self, map_start: int, row: int, col: int) -> int {
        let t = self.vram[map_start + row * 32 + col];
        if self.tile_data_start() == 0x0800 {
            ((t + 128) % 256) as int
        } else {
            t as int
        }
    }

    /// The raw color of a pixel of a background or window tile.
    pub open spec fn tile_pixel(&self, tile_i: int, tile_y: int, tile_x: int) -> u8 {
        let lo = self.vram[self.tile_data_start() + tile_i * 16 + tile_y * 2];
        let hi = self.vram[self.tile_data_start() + tile_i * 16 + tile_y * 2 + 1];
        (((hi >> ((7 - tile_x) as u8)) & 1) << 1u8) | ((lo >> ((7 - tile_x) as u8)) & 1)
    }

    /// The raw background color at column `i` of line `ly`, after scrolling (the map wraps).
    pub open spec fn bg_raw(&self, ly: u8, i: int) -> u8 {
        let y = (ly + self.scy) % 256;
        let x = (self.scx + i) % 256;
        self.tile_pixel(self.tile_at(self.bg_map_start(), y / 8, x / 8), y % 8, x % 8)
    }

    /// The raw window color at a window coordinate.
    pub open spec fn win_raw(&self, y: int, x: int) -> u8 {
        self.tile_pixel(self.tile_at(self.win_map_start(), y / 8, x / 8), y % 8, x % 8)
    }
}

/// The display after line `ly` is filled from the background.
pub open spec fn bg_line(s: PpuState, ly: u8) -> Seq<u8> {
    Seq::new(
        s.display.len(),
        |j: int|
            if j / 640 == ly as int {
                rgba_of(s.bgp, s.bg_raw(ly, (j % 640) / 4))@[j % 4]
            } else {
                s.display[j]
            },
    )
}

/// Whether the window shows on line `ly`.
pub open spec fn win_shown(s: PpuState, ly: u8) -> bool {
    ly >= s.wy && s.wx < 167 && bit_of(s.lcdc, 5)
}

/// The window line drawn on line `ly`.
pub open spec fn win_y(s: PpuState, ly: u8) -> int {
    ly - s.wy - s.wy_offset
}

/// The display after the window is drawn on line `ly`.
pub open spec fn win_line(s: PpuState, ly: u8) -> Seq<u8> {
    if win_shown(s, ly) && 0 <= win_y(s, ly) < 256 {
        Seq::new(
            s.display.len(),
            |j: int|
                if j / 640 == ly as int && 0 <= (j % 640) / 4 - (s.wx - 7) < 256 {
                    rgba_of(s.bgp, s.win_raw(win_y(s, ly), (j % 640) / 4 - (s.wx - 7)))@[j % 4]
                } else {
                    s.display[j]
                },
        )
    } else {
        s.display
    }
}

/// The window line offset after line `ly`: lines where the window is hidden are skipped.
pub open spec fn win_offset_after(s: PpuState, ly: u8) -> u8 {
    if ly >= s.wy && !(s.wx < 167 && bit_of(s.lcdc, 5)) {
        (s.wy_offset + 1) as u8
    } else {
        s.wy_offset
    }
}

/// Object height in lines.
pub open spec fn obj_height(s: PpuState) -> int {
    if bit_of(s.lcdc, 2) {
        16
    } else {
        8
    }
}

/// Whether the pixel at (`x`, `y`) shows the lightest shade.
pub open spec fn pixel_is_zero(buf: Seq<u8>, x: int, y: int) -> bool {
    buf[(y * 160 + x) * 4] == PALETTE[0]@[0]
}

/// The raw color of column `x` (0..8) of object `i` on line `ly`.
pub open spec fn obj_color(s: PpuState, ly: u8, i: int, x: int) -> u8 {
    let ypos = s.oam_ram[i * 4];
    let attr = s.oam_ram[i * 4 + 3];
    let tile_y0 = ly - (ypos - 16);
    let tile_y = if bit_of(attr, 6) {
        obj_height(s) - 1 - tile_y0
    } else {
        tile_y0
    };
    let start = s.oam_ram[i * 4 + 2] * 16;
    let lo = s.vram[start + tile_y * 2];
    let hi = s.vram[start + tile_y * 2 + 1];
    let row_bit = (if bit_of(attr, 5) {
        x
    } else {
        7 - x
    }) as u8;
    (((hi >> row_bit) & 1) << 1u8) | ((lo >> row_bit) & 1)
}

/// Whether object `i` covers line `ly` and is horizontally on screen.
pub open spec fn obj_on_line(s: PpuState, ly: u8, i: int) -> bool {
    let ypos = s.oam_ram[i * 4];
    let xpos = s.oam_ram[i * 4 + 1];
    let tile_y0 = ly - (ypos - 16);
    &&& 0 <= tile_y0 < obj_height(s)
    &&& xpos != 0
    &&& xpos - 8 < 160
}

/// The palette of object `i`.
pub open spec fn obj_palette(s: PpuState, i: int) -> u8 {
    if bit_of(s.oam_ram[i * 4 + 3], 4) {
        s.obp1
    } else {
        s.obp0
    }
}

/// Whether column `x` of object `i` paints its pixel over `buf` on line `ly`.
pub open spec fn obj_paints(s: PpuState, buf: Seq<u8>, ly: u8, i: int, x: int) -> bool {
    let px = s.oam_ram[i * 4 + 1] - 8 + x;
    &&& obj_on_line(s, ly, i)
    &&& 0 <= px < 160
    &&& obj_color(s, ly, i, x) != 0
    &&& (!bit_of(s.oam_ram[i * 4 + 3], 7) || pixel_is_zero(buf, px, ly as int))
}

/// `buf` after columns `0..upto` of object `i` are drawn on line `ly`.
pub open spec fn obj_apply(s: PpuState, buf: Seq<u8>, ly: u8, i: int, upto: int) -> Seq<u8> {
    Seq::new(
        buf.len(),
        |j: int|
            {
                let x = (j % 640) / 4 - (s.oam_ram[i * 4 + 1] - 8);
                if j / 640 == ly as int && 0 <= x < upto && obj_paints(s, buf, ly, i, x) {
                    rgba_of(obj_palette(s, i), obj_color(s, ly, i, x))@[j % 4]
                } else {
                    buf[j]
                }
            },
    )
}

/// `buf` after objects `0..n` are drawn on line `ly`, in order.
pub open spec fn objs_fold(s: PpuState, buf: Seq<u8>, ly: u8, n: nat) -> Seq<u8>
    decreases n,
{
    if n == 0 {
        buf
    } else {
        obj_apply(s, objs_fold(s, buf, ly, (n - 1) as nat), ly, n - 1, 8)
    }
}

/// The picture processing unit: its registers, VRAM, OAM and the RGBA display it draws.
#[derive(Clone)]
pub struct PPU {
    pub stat_counter: u64,
    // Used to know the variable len of an M3 phase, so M0 can be adjusted.
    prev_m3_len: u64,
    pub lcdc: u8,
    pub stat: u8,
    scy: u8,
    scx: u8,
    pub ly: u8,
    pub lyc: u8,
    bgp: u8,
    obp0: u8,
    obp1: u8,
    pub wy: u8,
    pub wx: u8,
    vram: Vec<u8>,
    oam_ram: Vec<u8>,
    display_buffer: Vec<u8>,
    ignore_fps_limiter: bool,
    pub main_window_id: Option<u64>,
    pub tile_debug_window_id: Option<u64>,
    pub background_debug_window_id: Option<u64>,
    pub window_debug_window_id: Option<u64>,
    lyc_change_interrupt: bool,
    wy_offset: u8,
    frame_sync_due: bool,
}

impl View for PPU {
    type V = PpuState;

    closed spec fn view(&self) -> PpuState {
        PpuState {
            stat_counter: self.stat_counter,
            prev_m3_len: self.prev_m3_len,
            lcdc: self.lcdc,
            stat: self.stat,
            scy: self.scy,
            scx: self.scx,
            ly: self.ly,
            lyc: self.lyc,
            bgp: self.bgp,
            obp0: self.obp0,
            obp1: self.obp1,
            wy: self.wy,
            wx: self.wx,
            vram: self.vram@,
            oam_ram: self.oam_ram@,
            display: self.display_buffer@,
            ignore_fps_limiter: self.ignore_fps_limiter,
            main_window_id: self.main_window_id,
            tile_debug_window_id: self.tile_debug_window_id,
            background_debug_window_id: self.background_debug_window_id,
            window_debug_window_id: self.window_debug_window_id,
            lyc_change_interrupt: self.lyc_change_interrupt,
            wy_offset: self.wy_offset,
            frame_sync_due: self.frame_sync_due,
        }
    }
}

/// A vector of `n` zero bytes.
pub(crate) fn zeros(n: usize) -> (r: Vec<u8>)
    ensures
        r@.len() == n,
        forall|i: int| 0 <= i < n ==> r@[i] == 0,
{
    let mut v: Vec<u8> = Vec::new();
    let mut i: usize = 0;
    while i < n
        invariant
            0 <= i <= n,
            v@.len() == i,
            forall|j: int| 0 <= j < i ==> v@[j] == 0,
        decreases n - i,
    {
        v.push(0);
        i += 1;
    }
    v
}

/// Sets every byte of a vector to zero.
fn clear_bytes(v: &mut Vec<u8>)
    ensures
        final(v)@.len() == old(v)@.len(),
        forall|i: int| 0 <= i < final(v)@.len() ==> final(v)@[i] == 0,
{
    let n = v.len();
    let mut i: usize = 0;
    while i < n
        invariant
            0 <= i <= n,
            v@.len() == n,
            forall|j: int| 0 <= j < i ==> v@[j] == 0,
        decreases n - i,
    {
        v.set(i, 0);
        i += 1;
    }
}

/// The state after the STAT mode is set, and whether that mode's STAT interrupt is enabled.
pub open spec fn spec_set_mode(s: PpuState, mode: u8) -> (PpuState, bool) {
    let s1 = PpuState {
        stat: ((s.stat & 0b1111_1100) | mode) as u8,
        wy_offset: if mode == 1 {
            0
        } else {
            s.wy_offset
        },
        ..s
    };
    let enabled = if mode == 0 {
        bit_of(s1.stat, 3)
    } else if mode == 1 {
        bit_of(s1.stat, 4)
    } else if mode == 2 {
        bit_of(s1.stat, 5)
    } else {
        false
    };
    (s1, enabled)
}

/// The state after LY is set, and the interrupt mask with the LY=LYC interrupt added.
pub open spec fn spec_update_ly(s: PpuState, new_ly: u8, mask: u8) -> (PpuState, u8) {
    if new_ly == s.lyc {
        let s1 = PpuState { ly: new_ly, stat: s.stat | 0b0100, ..s };
        (s1, if bit_of(s1.stat, 6) {
            mask | VIDEO_RESULT_MASK_STAT_INTERRUPT
        } else {
            mask
        })
    } else {
        (PpuState { ly: new_ly, stat: s.stat & 0b1111_1011, ..s }, mask)
    }
}

/// The state after line `ly` is drawn: background, window, then objects.
pub open spec fn spec_draw_line(s: PpuState, ly: u8) -> PpuState {
    let s_bg = if bit_of(s.lcdc, 0) {
        PpuState { display: bg_line(s, ly), ..s }
    } else {
        s
    };
    let s_win = if bit_of(s.lcdc, 0) {
        PpuState { display: win_line(s_bg, ly), wy_offset: win_offset_after(s_bg, ly), ..s_bg }
    } else {
        s_bg
    };
    if bit_of(s.lcdc, 1) {
        PpuState { display: objs_fold(s_win, s_win.display, ly, 40), ..s_win }
    } else {
        s_win
    }
}

/// Whether drawing line `ly` is defined: the window line counter must not overflow.
pub open spec fn draw_defined(s: PpuState, ly: u8) -> bool {
    bit_of(s.lcdc, 0) && ly >= s.wy && !(s.wx < 167 && bit_of(s.lcdc, 5)) ==> s.wy_offset < 255
}

/// Mask bit of an interrupt flag.
pub open spec fn mask_if(b: bool) -> u8 {
    if b {
        VIDEO_RESULT_MASK_STAT_INTERRUPT
    } else {
        0
    }
}

/// Mode 2 (OAM search) after the counter moved: past 80 cycles, mode 3 starts and the line is drawn.
pub open spec fn step_m2(s1: PpuState) -> (PpuState, u8) {
    let c = s1.stat_counter;
    if c >= 80 {
        let (s3, i3) = spec_set_mode(PpuState { stat_counter: (c - 80) as u64, ..s1 }, 3);
        (spec_draw_line(s3, s3.ly), mask_if(i3))
    } else {
        (s1, 0u8)
    }
}

/// Mode 3 (pixel transfer) after the counter moved: past 252 cycles, mode 0 starts.
pub open spec fn step_m3(s1: PpuState) -> (PpuState, u8) {
    let c = s1.stat_counter;
    if c >= 252 {
        let (s3, i0) = spec_set_mode(
            PpuState { stat_counter: (c - 252) as u64, prev_m3_len: 252, ..s1 },
            0,
        );
        (s3, mask_if(i0))
    } else {
        (s1, 0u8)
    }
}

/// Mode 0 (horizontal blank) after the counter moved: at its end LY advances, and mode 2 or,
/// past the last visible line, mode 1 with the VBlank interrupt follows.
pub open spec fn step_m0(s1: PpuState) -> (PpuState, u8) {
    let c = s1.stat_counter;
    let m0_len = 87 + 289 - s1.prev_m3_len;
    if c >= m0_len {
        let (s3, m3) = spec_update_ly(
            PpuState { stat_counter: (c - m0_len) as u64, ..s1 },
            (s1.ly + 1) as u8,
            0,
        );
        if s3.ly < 144 {
            let (s4, i2) = spec_set_mode(s3, 2);
            (s4, m3 | mask_if(i2))
        } else {
            let (s4, i1) = spec_set_mode(s3, 1);
            (s4, m3 | mask_if(i1) | VIDEO_RESULT_MASK_VBLANK_INTERRUPT)
        }
    } else {
        (s1, 0u8)
    }
}

/// Mode 1 (vertical blank) after the counter moved: LY follows the counter, and after 4560
/// cycles a new frame starts in mode 2.
pub open spec fn step_m1(s1: PpuState) -> (PpuState, u8) {
    let c = s1.stat_counter;
    if c >= 4560 {
        let (s3, m3) = spec_update_ly(PpuState { stat_counter: (c - 4560) as u64, ..s1 }, 0, 0);
        let (s4, i2) = spec_set_mode(s3, 2);
        (
            PpuState { frame_sync_due: s4.frame_sync_due || !s4.ignore_fps_limiter, ..s4 },
            m3 | mask_if(i2),
        )
    } else {
        spec_update_ly(s1, (144 + c / 456) as u8, 0)
    }
}

/// The step of the current mode.
pub open spec fn spec_step(s1: PpuState) -> (PpuState, u8) {
    if s1.mode() == 2 {
        step_m2(s1)
    } else if s1.mode() == 3 {
        step_m3(s1)
    } else if s1.mode() == 0 {
        step_m0(s1)
    } else {
        step_m1(s1)
    }
}

/// The PPU after `cycles` more cycles, and the interrupt mask it raises.
pub open spec fn spec_update(s: PpuState, cycles: u64) -> (PpuState, u8) {
    if !s.lcd_on() {
        (s, 0)
    } else {
        let s1 = PpuState { stat_counter: (s.stat_counter + cycles) as u64, ..s };
        let (s2, mask) = spec_step(s1);
        if s2.lyc_change_interrupt {
            (PpuState { lyc_change_interrupt: false, ..s2 }, mask | VIDEO_RESULT_MASK_STAT_INTERRUPT)
        } else {
            (s2, mask)
        }
    }
}

/// Whether an update by `cycles` is defined.
pub open spec fn update_defined(s: PpuState, cycles: u64) -> bool {
    &&& s.stat_counter + cycles <= u64::MAX
    &&& (s.lcd_on() && s.mode() == 0 && s.stat_counter + cycles >= 87 + 289 - s.prev_m3_len
        ==> s.ly < 255)
    &&& (s.lcd_on() && s.mode() == 2 && s.stat_counter + cycles >= 80 ==> draw_defined(
        spec_set_mode(s, 3).0,
        s.ly,
    ))
}

/// What a read of a PPU address gives.
pub open spec fn spec_ppu_read(s: PpuState, loc: u16) -> u8 {
    if MEM_AREA_VRAM_START <= loc <= MEM_AREA_VRAM_END {
        if s.vram_accessible() {
            s.vram[loc - MEM_AREA_VRAM_START]
        } else {
            0xFF
        }
    } else if MEM_AREA_OAM_START <= loc <= MEM_AREA_OAM_END {
        if s.oam_accessible() {
            s.oam_ram[loc - MEM_AREA_OAM_START]
        } else {
            0xFF
        }
    } else if loc == MEM_LOC_LCDC {
        s.lcdc
    } else if loc == MEM_LOC_STAT {
        s.stat
    } else if loc == MEM_LOC_SCY {
        s.scy
    } else if loc == MEM_LOC_SCX {
        s.scx
    } else if loc == MEM_LOC_LY {
        s.ly
    } else if loc == MEM_LOC_LYC {
        s.lyc
    } else if loc == MEM_LOC_BGP {
        s.bgp
    } else if loc == MEM_LOC_OBP0 {
        s.obp0
    } else if loc == MEM_LOC_OBP1 {
        s.obp1
    } else if loc == MEM_LOC_WY {
        s.wy
    } else {
        s.wx
    }
}

/// The addresses that the PPU serves: VRAM, OAM and its registers (not DMA).
pub open spec fn ppu_addr(loc: u16) -> bool {
    (MEM_AREA_VRAM_START <= loc <= MEM_AREA_VRAM_END) || (MEM_AREA_OAM_START <= loc
        <= MEM_AREA_OAM_END) || (MEM_LOC_LCDC <= loc <= MEM_LOC_WX && loc != 0xFF46)
}

/// The PPU after a write.
pub open spec fn spec_ppu_write(s: PpuState, loc: u16, byte: u8) -> PpuState {
    if MEM_AREA_VRAM_START <= loc <= MEM_AREA_VRAM_END {
        if s.vram_accessible() {
            PpuState { vram: s.vram.update(loc - MEM_AREA_VRAM_START, byte), ..s }
        } else {
            s
        }
    } else if MEM_AREA_OAM_START <= loc <= MEM_AREA_OAM_END {
        if s.oam_accessible() {
            PpuState { oam_ram: s.oam_ram.update(loc - MEM_AREA_OAM_START, byte), ..s }
        } else {
            s
        }
    } else if loc == MEM_LOC_LCDC {
        let s1 = PpuState { lcdc: byte, ..s };
        if s.lcd_on() && !s1.lcd_on() {
            spec_set_mode(PpuState { stat_counter: 0, ly: 0, ..s1 }, 0).0
        } else if !s.lcd_on() && s1.lcd_on() {
            PpuState { stat_counter: 4, ..spec_set_mode(s1, 2).0 }
        } else {
            s1
        }
    } else if loc == MEM_LOC_STAT {
        PpuState { stat: (byte | 0x80) & 0b1111_1100, ..s }
    } else if loc == MEM_LOC_SCY {
        PpuState { scy: byte, ..s }
    } else if loc == MEM_LOC_SCX {
        PpuState { scx: byte, ..s }
    } else if loc == MEM_LOC_LYC {
        PpuState {
            lyc: byte,
            lyc_change_interrupt: if byte == s.ly {
                true
            } else {
                s.lyc_change_interrupt
            },
            ..s
        }
    } else if loc == MEM_LOC_BGP {
        PpuState { bgp: byte, ..s }
    } else if loc == MEM_LOC_OBP0 {
        PpuState { obp0: byte, ..s }
    } else if loc == MEM_LOC_OBP1 {
        PpuState { obp1: byte, ..s }
    } else if loc == MEM_LOC_WY {
        PpuState { wy: byte, ..s }
    } else {
        PpuState { wx: byte, ..s }
    }
}

/// `buf` with the four bytes of pixel (`x`, `y`) set to `rgba`.
pub open spec fn put_pixel(buf: Seq<u8>, x: int, y: int, rgba: [u8; 4]) -> Seq<u8> {
    let offs = (y * 160 + x) * 4;
    buf.update(offs, rgba@[0]).update(offs + 1, rgba@[1]).update(offs + 2, rgba@[2]).update(
        offs + 3,
        rgba@[3],
    )
}

/// The shade code of pixel `p` of the tile sheet: 16 tiles of 8 x 8 pixels per row of tiles,
/// 128 pixels per line, tiles taken in VRAM order.
pub open spec fn tile_sheet_code(vram: Seq<u8>, p: int) -> u8 {
    let row = p / 128;
    let col = p % 128;
    let base = ((row / 8) * 16 + col / 8) * 16 + (row % 8) * 2;
    let lo = vram[base];
    let hi = vram[base + 1];
    (((hi >> ((7 - col % 8) as u8)) & 1) << 1u8) | ((lo >> ((7 - col % 8) as u8)) & 1)
}

/// Bytes of the tile sheet frame: 16 x 24 tiles of 8 x 8 RGBA pixels.
pub const DEBUG_TILES_FRAME_SIZE: usize = 98304;

/// Bytes of a tile map frame: 256 x 256 RGBA pixels.
pub const DEBUG_MAP_FRAME_SIZE: usize = 262144;

/// The tile sheet frame, through the background palette.
pub open spec fn tiles_frame(s: PpuState, old_frame: Seq<u8>) -> Seq<u8> {
    Seq::new(
        old_frame.len(),
        |k: int|
            if k < DEBUG_TILES_FRAME_SIZE {
                rgba_of(s.bgp, tile_sheet_code(s.vram, k / 4))@[k % 4]
            } else {
                old_frame[k]
            },
    )
}

/// The raw color of pixel `p` of the whole 256 x 256 tile map at `map_start`.
pub open spec fn map_pixel(s: PpuState, map_start: int, p: int) -> u8 {
    let row = p / 256;
    let col = p % 256;
    s.tile_pixel(s.tile_at(map_start, row / 8, col / 8), row % 8, col % 8)
}

/// The frame of the whole tile map at `map_start`, through the background palette.
pub open spec fn map_frame(s: PpuState, map_start: int, old_frame: Seq<u8>) -> Seq<u8> {
    Seq::new(
        old_frame.len(),
        |k: int|
            if k < DEBUG_MAP_FRAME_SIZE {
                rgba_of(s.bgp, map_pixel(s, map_start, k / 4))@[k % 4]
            } else {
                old_frame[k]
            },
    )
}

/// The screen frame: the display while the LCD is on, black otherwise.
pub open spec fn screen_frame(s: PpuState, old_frame: Seq<u8>) -> Seq<u8> {
    if s.lcd_on() {
        s.display
    } else {
        Seq::new(old_frame.len(), |k: int| 0u8)
    }
}

/// Whether a frame fits the window it is asked for.
pub open spec fn fill_frame_defined(s: PpuState, window_id: u64, len: nat) -> bool {
    if s.main_window_id == Some(window_id) {
        len == DISPLAY_BUFFER_SIZE
    } else if s.tile_debug_window_id == Some(window_id) {
        len >= DEBUG_TILES_FRAME_SIZE
    } else if s.background_debug_window_id == Some(window_id) || s.window_debug_window_id == Some(
        window_id,
    ) {
        len >= DEBUG_MAP_FRAME_SIZE
    } else {
        true
    }
}

/// The frame of a window: the screen, the tile sheet, the background map or the window map.
pub open spec fn spec_fill_frame(s: PpuState, window_id: u64, old_frame: Seq<u8>) -> Seq<u8> {
    if s.main_window_id == Some(window_id) {
        screen_frame(s, old_frame)
    } else if s.tile_debug_window_id == Some(window_id) {
        tiles_frame(s, old_frame)
    } else if s.background_debug_window_id == Some(window_id) {
        map_frame(s, s.bg_map_start(), old_frame)
    } else if s.window_debug_window_id == Some(window_id) {
        map_frame(s, s.win_map_start(), old_frame)
    } else {
        old_frame
    }
}

/// Byte `k` belongs to pixel `p` exactly when `4 * p <= k < 4 * p + 4`, as channel `k - 4 * p`.
pub proof fn lemma_channel_index(p: int, k: int)
    requires
        0 <= p,
        0 <= k,
    ensures
        (k / 4 == p) <==> (4 * p <= k < 4 * p + 4),
        k / 4 == p ==> k % 4 == k - 4 * p,
{
    assert((k / 4 == p) <==> (4 * p <= k < 4 * p + 4)) by (nonlinear_arith)
        requires
            0 <= p,
            0 <= k,
    ;
    assert(k / 4 == p ==> k % 4 == k - 4 * p) by (nonlinear_arith)
        requires
            0 <= p,
            0 <= k,
    ;
}

/// Writes the four bytes of pixel `p` of a frame.
pub(crate) fn put_frame_pixel(frame: &mut [u8], p: usize, color: [u8; 4])
    requires
        4 * p + 4 <= old(frame)@.len(),
    ensures
        final(frame)@.len() == old(frame)@.len(),
        forall|k: int|
            0 <= k < final(frame)@.len() ==> #[trigger] final(frame)@[k] == (if k / 4 == p {
                color@[k % 4]
            } else {
                old(frame)@[k]
            }),
{
    let k = 4 * p;
    frame[k] = color[0];
    frame[k + 1] = color[1];
    frame[k + 2] = color[2];
    frame[k + 3] = color[3];
    proof {
        assert forall|j: int| 0 <= j < frame@.len() implies #[trigger] frame@[j] == (if j / 4 == p {
            color@[j % 4]
        } else {
            old(frame)@[j]
        }) by {
            lemma_channel_index(p as int, j);
        }
    }
}


impl PPU {
    pub open spec fn wf(&self) -> bool {
        self@.wf()
    }

    pub fn new(ignore_fps_limiter: bool) -> (r: Self)
        ensures
            r.wf(),
            r@.stat_counter == 0,
            r@.lcdc == 0,
            r@.stat == 0x82,
            r@.ly == 0,
            r@.lyc == 0,
            r@.scy == 0 && r@.scx == 0 && r@.bgp == 0 && r@.obp0 == 0 && r@.obp1 == 0,
            r@.wy == 0 && r@.wx == 0 && r@.wy_offset == 0,
            !r@.lyc_change_interrupt,
            !r@.frame_sync_due,
            r@.ignore_fps_limiter == ignore_fps_limiter,
            r@.main_window_id is None && r@.tile_debug_window_id is None,
            r@.background_debug_window_id is None && r@.window_debug_window_id is None,
            forall|i: int| 0 <= i < VRAM_SIZE ==> r@.vram[i] == 0,
            forall|i: int| 0 <= i < OAM_RAM_SIZE ==> r@.oam_ram[i] == 0,
            forall|i: int| 0 <= i < DISPLAY_BUFFER_SIZE ==> r@.display[i] == 0,
    {
        PPU {
            stat_counter: 0,
            prev_m3_len: 252,
            lcdc: 0,
            stat: 0x82,
            scy: 0,
            scx: 0,
            ly: 0,
            lyc: 0,
            bgp: 0,
            obp0: 0,
            obp1: 0,
            wy: 0,
            wx: 0,
            vram: zeros(VRAM_SIZE),
            oam_ram: zeros(OAM_RAM_SIZE),
            display_buffer: zeros(DISPLAY_BUFFER_SIZE),
            ignore_fps_limiter,
            main_window_id: None,
            tile_debug_window_id: None,
            background_debug_window_id: None,
            window_debug_window_id: None,
            lyc_change_interrupt: false,
            wy_offset: 0,
            frame_sync_due: false,
        }
    }

    /// Back to the power-on registers, with VRAM, OAM and the display cleared.
    pub fn reset(&mut self)
        requires
            old(self).wf(),
        ensures
            final(self).wf(),
            final(self)@.stat_counter == 0,
            final(self)@.lcdc == 0,
            final(self)@.stat == 0x82,
            final(self)@.ly == 0,
            final(self)@.lyc == 0,
            final(self)@.scy == 0 && final(self)@.scx == 0 && final(self)@.bgp == 0,
            final(self)@.obp0 == 0 && final(self)@.obp1 == 0,
            final(self)@.wy == 0 && final(self)@.wx == 0 && final(self)@.wy_offset == 0,
            !final(self)@.lyc_change_interrupt,
            final(self)@.frame_sync_due == old(self)@.frame_sync_due,
            final(self)@.ignore_fps_limiter == old(self)@.ignore_fps_limiter,
            final(self)@.main_window_id == old(self)@.main_window_id,
            final(self)@.tile_debug_window_id == old(self)@.tile_debug_window_id,
            final(self)@.background_debug_window_id == old(self)@.background_debug_window_id,
            final(self)@.window_debug_window_id == old(self)@.window_debug_window_id,
            forall|i: int| 0 <= i < VRAM_SIZE ==> final(self)@.vram[i] == 0,
            forall|i: int| 0 <= i < OAM_RAM_SIZE ==> final(self)@.oam_ram[i] == 0,
            forall|i: int| 0 <= i < DISPLAY_BUFFER_SIZE ==> final(self)@.display[i] == 0,
    {
        self.stat_counter = 0;
        self.lcdc = 0;
        self.stat = 0x82;
        self.prev_m3_len = 252;
        self.scy = 0;
        self.scx = 0;
        self.ly = 0;
        self.lyc = 0;
        self.bgp = 0;
        self.obp0 = 0;
        self.obp1 = 0;
        self.wy = 0;
        self.wx = 0;
        clear_bytes(&mut self.vram);
        clear_bytes(&mut self.oam_ram);
        clear_bytes(&mut self.display_buffer);
        self.lyc_change_interrupt = false;
        self.wy_offset = 0;
        assert(0x82u8 & 0b11u8 == 2u8) by (bit_vector);
    }

    /// Whether a frame ended while the frame rate limiter is on; clears it.
    pub fn take_frame_sync(&mut self) -> (r: bool)
        ensures
            r == old(self)@.frame_sync_due,
            final(self)@ == (PpuState { frame_sync_due: false, ..old(self)@ }),
    {
        let r = self.frame_sync_due;
        self.frame_sync_due = false;
        r
    }

    /// OAM, as stored.
    pub fn oam(&self) -> (r: &Vec<u8>)
        ensures
            r@ == self@.oam_ram,
    {
        &self.oam_ram
    }

    fn is_lcd_display_enabled(&self) -> (r: bool)
        ensures
            r == self@.lcd_on(),
    {
        is_bit(self.lcdc, 7)
    }

    fn window_tile_map_display_section(&self) -> (r: TileMapDisplaySelect)
        ensures
            r == (if bit_of(self@.lcdc, 6) {
                TileMapDisplaySelect::Section9C00_9FFF
            } else {
                TileMapDisplaySelect::Section9800_9BFF
            }),
    {
        if is_bit(self.lcdc, 6) {
            TileMapDisplaySelect::Section9C00_9FFF
        } else {
            TileMapDisplaySelect::Section9800_9BFF
        }
    }

    fn window_tile_map_display_section_start(&self) -> (r: u16)
        ensures
            r - MEM_AREA_VRAM_START == self@.win_map_start(),
    {
        match self.window_tile_map_display_section() {
            TileMapDisplaySelect::Section9800_9BFF => 0x9800,
            TileMapDisplaySelect::Section9C00_9FFF => 0x9C00,
        }
    }

    fn is_window_display_enabled(&self) -> (r: bool)
        ensures
            r == bit_of(self@.lcdc, 5),
    {
        is_bit(self.lcdc, 5)
    }

    fn backround_window_tile_data_section(&self) -> (r: BgrWinTileDataSelect)
        ensures
            r == (if bit_of(self@.lcdc, 4) {
                BgrWinTileDataSelect::Section8000_8FFF
            } else {
                BgrWinTileDataSelect::Section8800_97FF
            }),
    {
        if is_bit(self.lcdc, 4) {
            BgrWinTileDataSelect::Section8000_8FFF
        } else {
            BgrWinTileDataSelect::Section8800_97FF
        }
    }

    fn backround_window_tile_data_section_start(&self) -> (r: u16)
        ensures
            r - MEM_AREA_VRAM_START == self@.tile_data_start(),
    {
        match self.backround_window_tile_data_section() {
            BgrWinTileDataSelect::Section8000_8FFF => 0x8000,
            BgrWinTileDataSelect::Section8800_97FF => 0x8800,
        }
    }

    fn background_tile_map_display_section(&self) -> (r: TileMapDisplaySelect)
        ensures
            r == (if bit_of(self@.lcdc, 3) {
                TileMapDisplaySelect::Section9C00_9FFF
            } else {
                TileMapDisplaySelect::Section9800_9BFF
            }),
    {
        if is_bit(self.lcdc, 3) {
            TileMapDisplaySelect::Section9C00_9FFF
        } else {
            TileMapDisplaySelect::Section9800_9BFF
        }
    }

    fn background_tile_map_display_section_start(&self) -> (r: u16)
        ensures
            r - MEM_AREA_VRAM_START == self@.bg_map_start(),
    {
        match self.background_tile_map_display_section() {
            TileMapDisplaySelect::Section9800_9BFF => 0x9800,
            TileMapDisplaySelect::Section9C00_9FFF => 0x9C00,
        }
    }

    fn obj_sprite_size(&self) -> (r: ObjSpriteSize)
        ensures
            r == (if bit_of(self@.lcdc, 2) {
                ObjSpriteSize::Size8x16
            } else {
                ObjSpriteSize::Size8x8
            }),
    {
        if is_bit(self.lcdc, 2) {
            ObjSpriteSize::Size8x16
        } else {
            ObjSpriteSize::Size8x8
        }
    }

    fn is_obj_sprite_display_enabled(&self) -> (r: bool)
        ensures
            r == bit_of(self@.lcdc, 1),
    {
        is_bit(self.lcdc, 1)
    }

    fn is_background_window_display_priority(&self) -> (r: bool)
        ensures
            r == bit_of(self@.lcdc, 0),
    {
        is_bit(self.lcdc, 0)
    }

    fn is_lyc_coincidence_interrupt_enabled(&self) -> (r: bool)
        ensures
            r == bit_of(self@.stat, 6),
    {
        is_bit(self.stat, 6)
    }

    fn is_mode2_oam_interrupt_enabled(&self) -> (r: bool)
        ensures
            r == bit_of(self@.stat, 5),
    {
        is_bit(self.stat, 5)
    }

    fn is_mode1_vblank_interrupt_enabled(&self) -> (r: bool)
        ensures
            r == bit_of(self@.stat, 4),
    {
        is_bit(self.stat, 4)
    }

    fn is_mode0_hblank_interrupt_enabled(&self) -> (r: bool)
        ensures
            r == bit_of(self@.stat, 3),
    {
        is_bit(self.stat, 3)
    }

    /// The PPU mode of STAT.
    pub fn lcd_ppu_mode(&self) -> (r: LcdPpuMode)
        ensures
            self@.mode() <= 3,
            r == (if self@.mode() == 0 {
                LcdPpuMode::M0
            } else if self@.mode() == 1 {
                LcdPpuMode::M1
            } else if self@.mode() == 2 {
                LcdPpuMode::M2
            } else {
                LcdPpuMode::M3
            }),
    {
        let st = self.stat;
        let m = st & 0b11;
        proof {
            lemma_small_bits(0, 0, st, 0, 0);
        }
        if m == 0b00 {
            LcdPpuMode::M0
        } else if m == 0b01 {
            LcdPpuMode::M1
        } else if m == 0b10 {
            LcdPpuMode::M2
        } else {
            LcdPpuMode::M3
        }
    }

    #[must_use]
    fn set_lcd_stat_ppu_mode(&mut self, mode: u8) -> (r: bool)
        requires
            mode <= 0b11,
        ensures
            (final(self)@, r) == spec_set_mode(old(self)@, mode),
            final(self)@.mode() == mode,
    {
        let st = self.stat;
        self.stat = self.stat & 0b1111_1100;
        self.stat = self.stat | mode;
        proof {
            lemma_small_bits(0, 0, st, mode, 0);
        }

        match self.lcd_ppu_mode() {
            LcdPpuMode::M0 => self.is_mode0_hblank_interrupt_enabled(),
            LcdPpuMode::M1 => {
                self.wy_offset = 0;
                self.is_mode1_vblank_interrupt_enabled()
            },
            LcdPpuMode::M2 => self.is_mode2_oam_interrupt_enabled(),
            _ => false,
        }
    }

    fn update_ly(&mut self, new_ly: u8, interrupt_mask: &mut u8)
        ensures
            final(self)@.mode() == old(self)@.mode(),
            final(self)@.lcd_on() == old(self)@.lcd_on(),
            (final(self)@, *final(interrupt_mask)) == spec_update_ly(
                old(self)@,
                new_ly,
                *old(interrupt_mask),
            ),
    {
        self.ly = new_ly;
        let st = self.stat;
        proof {
            lemma_small_bits(0, 0, st, 0, 0);
        }

        if self.ly == self.lyc {
            self.stat = self.stat | 0b0100;

            if self.is_lyc_coincidence_interrupt_enabled() {
                *interrupt_mask = *interrupt_mask | VIDEO_RESULT_MASK_STAT_INTERRUPT;
            }
        } else {
            self.stat = self.stat & 0b1111_1011;
        }
    }

    fn is_vram_accessible(&self) -> (r: bool)
        ensures
            r == self@.vram_accessible(),
    {
        !self.is_lcd_display_enabled() || self.lcd_ppu_mode() != LcdPpuMode::M3
    }

    fn is_oam_accessible(&self) -> (r: bool)
        ensures
            r == self@.oam_accessible(),
    {
        !self.is_lcd_display_enabled() || (self.lcd_ppu_mode() != LcdPpuMode::M2
            && self.lcd_ppu_mode() != LcdPpuMode::M3)
    }

    /// Reads VRAM, OAM or a register; VRAM and OAM read 0xFF while the PPU uses them.
    pub fn read(&self, loc: u16) -> (r: Result<u8, Error>)
        requires
            self.wf(),
            ppu_addr(loc),
        ensures
            r == Ok::<u8, Error>(spec_ppu_read(self@, loc)),
    {
        let byte = if MEM_AREA_VRAM_START <= loc && loc <= MEM_AREA_VRAM_END {
            if self.is_vram_accessible() {
                self.vram[(loc - MEM_AREA_VRAM_START) as usize]
            } else {
                0xFF
            }
        } else if MEM_AREA_OAM_START <= loc && loc <= MEM_AREA_OAM_END {
            if self.is_oam_accessible() {
                self.oam_ram[(loc - MEM_AREA_OAM_START) as usize]
            } else {
                0xFF
            }
        } else if loc == MEM_LOC_LCDC {
            self.lcdc
        } else if loc == MEM_LOC_STAT {
            self.stat
        } else if loc == MEM_LOC_SCY {
            self.scy
        } else if loc == MEM_LOC_SCX {
            self.scx
        } else if loc == MEM_LOC_LY {
            self.ly
        } else if loc == MEM_LOC_LYC {
            self.lyc
        } else if loc == MEM_LOC_BGP {
            self.bgp
        } else if loc == MEM_LOC_OBP0 {
            self.obp0
        } else if loc == MEM_LOC_OBP1 {
            self.obp1
        } else if loc == MEM_LOC_WY {
            self.wy
        } else {
            self.wx
        };

        Ok(byte)
    }

    /// Writes VRAM, OAM or a register. LY cannot be written.
    pub fn write(&mut self, loc: u16, byte: u8)
        requires
            old(self).wf(),
            ppu_addr(loc),
            loc != MEM_LOC_LY,
        ensures
            final(self).wf(),
            final(self)@ == spec_ppu_write(old(self)@, loc, byte),
    {
        if MEM_AREA_VRAM_START <= loc && loc <= MEM_AREA_VRAM_END {
            if self.is_vram_accessible() {
                self.vram.set((loc - MEM_AREA_VRAM_START) as usize, byte);
            }
        } else if MEM_AREA_OAM_START <= loc && loc <= MEM_AREA_OAM_END {
            if self.is_oam_accessible() {
                self.oam_ram.set((loc - MEM_AREA_OAM_START) as usize, byte);
            }
        } else if loc == MEM_LOC_LCDC {
            let lcdc_on_prev = self.is_lcd_display_enabled();
            self.lcdc = byte;
            let lcdc_on_curr = self.is_lcd_display_enabled();

            if lcdc_on_prev && !lcdc_on_curr {
                self.stat_counter = 0;
                self.ly = 0;
                let _ = self.set_lcd_stat_ppu_mode(0);
            }
            if !lcdc_on_prev && lcdc_on_curr {
                let _ = self.set_lcd_stat_ppu_mode(2);
                self.stat_counter = 4;
            }
        } else if loc == MEM_LOC_STAT {
            // Ignore mode bits.
            self.stat = (byte | 0x80) & !0b11u8;
            assert(!0b11u8 == 0b1111_1100u8) by (bit_vector);
            assert(((byte | 0x80u8) & 0xFCu8) & 3u8 == 0u8) by (bit_vector);
        } else if loc == MEM_LOC_SCY {
            self.scy = byte;
        } else if loc == MEM_LOC_SCX {
            self.scx = byte;
        } else if loc == MEM_LOC_LYC {
            self.lyc = byte;

            if self.lyc == self.ly {
                self.lyc_change_interrupt = true;
            }
        } else if loc == MEM_LOC_BGP {
            self.bgp = byte;
        } else if loc == MEM_LOC_OBP0 {
            self.obp0 = byte;
        } else if loc == MEM_LOC_OBP1 {
            self.obp1 = byte;
        } else if loc == MEM_LOC_WY {
            self.wy = byte;
        } else {
            self.wx = byte;
        }
    }

    /// Copies a block of 0xA0 bytes into OAM.
    pub fn dma_oam_transfer(&mut self, block: Vec<u8>)
        requires
            old(self).wf(),
            block@.len() == 0xA0,
        ensures
            final(self).wf(),
            final(self)@ == (PpuState { oam_ram: block@, ..old(self)@ }),
    {
        let mut i: usize = 0;
        while i < 0xA0
            invariant
                0 <= i <= 0xA0,
                block@.len() == 0xA0,
                self.oam_ram@.len() == 0xA0,
                forall|j: int| 0 <= j < i ==> self.oam_ram@[j] == block@[j],
                self@ == (PpuState { oam_ram: self.oam_ram@, ..old(self)@ }),
            decreases 0xA0 - i,
        {
            self.oam_ram.set(i, block[i]);
            i += 1;
        }
        assert(self.oam_ram@ =~= block@);
    }

    fn set_display_pixel(&mut self, x: usize, y: usize, palette: u8, raw_color: u8)
        requires
            old(self).wf(),
            x < 160,
            y < 144,
            raw_color <= 3,
        ensures
            final(self).wf(),
            final(self)@ == (PpuState {
                display: put_pixel(old(self)@.display, x as int, y as int, rgba_of(palette, raw_color)),
                ..old(self)@
            }),
    {
        let rgb8888 = pixel_rgb8888_color(apply_palette(raw_color, palette));
        let offs = (y * 160 + x) * 4;
        assert((raw_color * 2) as u8 == raw_color * 2);
        self.display_buffer.set(offs, rgb8888[0]);
        self.display_buffer.set(offs + 1, rgb8888[1]);
        self.display_buffer.set(offs + 2, rgb8888[2]);
        self.display_buffer.set(offs + 3, rgb8888[3]);
    }

    fn is_display_pixel_color_zero(&self, x: usize, y: usize) -> (r: bool)
        requires
            self.wf(),
            x < 160,
            y < 144,
        ensures
            r == pixel_is_zero(self@.display, x as int, y as int),
    {
        let offs = (y * 160 + x) * 4;

        // The first byte tells the shades apart.
        self.display_buffer[offs] == PALETTE[0][0]
    }
}

/// The bytes of one pixel, as `put_pixel` sees them.
pub proof fn lemma_put_pixel(buf: Seq<u8>, x: int, y: int, rgba: [u8; 4], j: int)
    requires
        0 <= x < 160,
        0 <= y < 144,
        buf.len() == DISPLAY_BUFFER_SIZE,
        0 <= j < DISPLAY_BUFFER_SIZE,
    ensures
        put_pixel(buf, x, y, rgba).len() == buf.len(),
        put_pixel(buf, x, y, rgba)[j] == (if j / 640 == y && (j % 640) / 4 == x {
            rgba@[j % 4]
        } else {
            buf[j]
        }),
{
    let o = (y * 160 + x) * 4;
    assert(o == y * 640 + 4 * x);
    assert((o <= j < o + 4) <==> (j / 640 == y && (j % 640) / 4 == x)) by (nonlinear_arith)
        requires
            o == y * 640 + 4 * x,
            0 <= x < 160,
            0 <= y,
            0 <= j,
    ;
    if o <= j < o + 4 {
        assert(j % 4 == j - o) by (nonlinear_arith)
            requires
                o == y * 640 + 4 * x,
                o <= j < o + 4,
        ;
    }
}

impl PPU {
    /// The raw color of a pixel of a background or window tile.
    fn tile_color(&self, tile_data_start: usize, tile_i: u8, tile_y: u8, tile_x: u8) -> (r: u8)
        requires
            self.wf(),
            tile_data_start == self@.tile_data_start(),
            tile_y < 8,
            tile_x < 8,
        ensures
            r == self@.tile_pixel(tile_i as int, tile_y as int, tile_x as int),
            r <= 3,
    {
        let base = tile_data_start + tile_i as usize * 16 + tile_y as usize * 2;
        let tile_lo = self.vram[base];
        let tile_hi = self.vram[base + 1];
        let b_hi = bit(tile_hi, 7 - tile_x);
        let b_lo = bit(tile_lo, 7 - tile_x);
        proof {
                lemma_small_bits(b_hi, b_lo, 0, 0, 0);
            }
        (b_hi << 1u8) | b_lo
    }

    /// The tile index a map holds (shifted by 128 in the signed 0x8800 area).
    fn tile_index(&self, tile_data_start: usize, map_start: usize, row: usize, col: usize) -> (r: u8)
        requires
            self.wf(),
            tile_data_start == self@.tile_data_start(),
            map_start == 0x1800 || map_start == 0x1C00,
            row < 32,
            col < 32,
        ensures
            r == self@.tile_at(map_start as int, row as int, col as int),
    {
        let tile_i = self.vram[map_start + row * 32 + col];
        if tile_data_start == 0x0800 {
            tile_i.wrapping_add(128)
        } else {
            tile_i
        }
    }

    // There are 32x32 tiles on the map: 256x256 pixels.
    #[verifier::rlimit(40)]
    fn draw_background_to_screen(&mut self, ly: u8)
        requires
            old(self).wf(),
            ly < 144,
        ensures
            final(self).wf(),
            final(self)@ == (PpuState { display: bg_line(old(self)@, ly), ..old(self)@ }),
    {
        let tile_data_section_start = (self.backround_window_tile_data_section_start()
            - MEM_AREA_VRAM_START) as usize;
        let tile_map_start = (self.background_tile_map_display_section_start()
            - MEM_AREA_VRAM_START) as usize;

        // The background map wraps.
        let actual_ly = ly.wrapping_add(self.scy);

        let tile_row = actual_ly / 8;
        let tile_y = actual_ly % 8;
        let ghost s0 = self@;

        let mut i: u32 = 0;
        while i < DISPLAY_WIDTH
            invariant
                s0 == old(self)@,
                s0.wf(),
                self.wf(),
                ly < 144,
                0 <= i <= 160,
                tile_data_section_start == s0.tile_data_start(),
                tile_map_start == s0.bg_map_start(),
                actual_ly == (ly + s0.scy) % 256,
                tile_row == actual_ly / 8,
                tile_y == actual_ly % 8,
                self@ == (PpuState { display: self@.display, ..s0 }),
                self@.display == Seq::new(
                    s0.display.len(),
                    |j: int|
                        if j / 640 == ly as int && (j % 640) / 4 < i {
                            rgba_of(s0.bgp, s0.bg_raw(ly, (j % 640) / 4))@[j % 4]
                        } else {
                            s0.display[j]
                        },
                ),
            decreases 160 - i,
        {
            let actual_x = self.scx.wrapping_add(i as u8);
            let tile_col = actual_x / 8;
            let tile_x = actual_x % 8;
            let tile_i = self.tile_index(
                tile_data_section_start,
                tile_map_start,
                tile_row as usize,
                tile_col as usize,
            );
            let color = self.tile_color(tile_data_section_start, tile_i, tile_y, tile_x);
            assert(color == s0.bg_raw(ly, i as int));
            let ghost before = self@.display;
            self.set_display_pixel(i as usize, ly as usize, self.bgp, color);
            proof {
                assert forall|j: int| 0 <= j < DISPLAY_BUFFER_SIZE implies self@.display[j] == (
                if j / 640 == ly as int && (j % 640) / 4 < i + 1 {
                    rgba_of(s0.bgp, s0.bg_raw(ly, (j % 640) / 4))@[j % 4]
                } else {
                    s0.display[j]
                }) by {
                    lemma_put_pixel(before, i as int, ly as int, rgba_of(s0.bgp, color), j);
                }
                assert(self@.display =~= Seq::new(
                    s0.display.len(),
                    |j: int|
                        if j / 640 == ly as int && (j % 640) / 4 < i + 1 {
                            rgba_of(s0.bgp, s0.bg_raw(ly, (j % 640) / 4))@[j % 4]
                        } else {
                            s0.display[j]
                        },
                ));
            }
            i += 1;
        }
        proof {
            assert(self@.display =~= bg_line(s0, ly));
        }
    }
}

impl PPU {
    fn draw_window_to_screen(&mut self, ly: u8)
        requires
            old(self).wf(),
            ly < 144,
            ly >= old(self)@.wy && !(old(self)@.wx < 167 && bit_of(old(self)@.lcdc, 5))
                ==> old(self)@.wy_offset < 255,
        ensures
            final(self).wf(),
            final(self)@ == (PpuState {
                display: win_line(old(self)@, ly),
                wy_offset: win_offset_after(old(self)@, ly),
                ..old(self)@
            }),
    {
        if ly < self.wy {
            return;
        }
        if self.wx >= DISPLAY_WIDTH as u8 + 7 || !self.is_window_display_enabled() {
            // A hidden window resumes where it left off when it shows again.
            self.wy_offset = self.wy_offset + 1;
            return;
        }

        let tile_data_section_start = (self.backround_window_tile_data_section_start()
            - MEM_AREA_VRAM_START) as usize;
        let tile_map_start = (self.window_tile_map_display_section_start() - MEM_AREA_VRAM_START)
            as usize;

        let actual_ly: i16 = ly as i16 - self.wy as i16 - self.wy_offset as i16;
        if actual_ly < 0 || actual_ly >= 0x100 {
            return;
        }

        let tile_row = (actual_ly / 8) as usize;
        let tile_y = (actual_ly % 8) as u8;
        let ghost s0 = self@;
        let wx = self.wx;

        let mut i: u32 = 0;
        while i < DISPLAY_WIDTH
            invariant
                s0 == old(self)@,
                s0.wf(),
                self.wf(),
                ly < 144,
                wx == s0.wx,
                wx < 167,
                win_shown(s0, ly),
                0 <= win_y(s0, ly) < 256,
                0 <= i <= 160,
                tile_data_section_start == s0.tile_data_start(),
                tile_map_start == s0.win_map_start(),
                tile_row == win_y(s0, ly) / 8,
                tile_y == win_y(s0, ly) % 8,
                self@ == (PpuState { display: self@.display, ..s0 }),
                self@.display == Seq::new(
                    s0.display.len(),
                    |j: int|
                        if j / 640 == ly as int && (j % 640) / 4 < i && 0 <= (j % 640) / 4 - (s0.wx
                            - 7) < 256 {
                            rgba_of(s0.bgp, s0.win_raw(win_y(s0, ly), (j % 640) / 4 - (s0.wx - 7)))@[j
                                % 4]
                        } else {
                            s0.display[j]
                        },
                ),
            decreases 160 - i,
        {
            let actual_x: i16 = i as i16 - (wx as i16 - 7);
            let ghost before = self@.display;
            if actual_x >= 0 && actual_x < 0x100 {
                let tile_col = (actual_x / 8) as usize;
                let tile_x = (actual_x % 8) as u8;
                let tile_i = self.tile_index(tile_data_section_start, tile_map_start, tile_row, tile_col);
                let color = self.tile_color(tile_data_section_start, tile_i, tile_y, tile_x);
                self.set_display_pixel(i as usize, ly as usize, self.bgp, color);
                proof {
                    assert forall|j: int| 0 <= j < DISPLAY_BUFFER_SIZE implies #[trigger] self@.display[j]
                        == (if j / 640 == ly as int && (j % 640) / 4 < i + 1 && 0 <= (j % 640) / 4 - (
                    s0.wx - 7) < 256 {
                        rgba_of(s0.bgp, s0.win_raw(win_y(s0, ly), (j % 640) / 4 - (s0.wx - 7)))@[j % 4]
                    } else {
                        s0.display[j]
                    }) by {
                        lemma_put_pixel(before, i as int, ly as int, rgba_of(s0.bgp, color), j);
                    }
                }
            }
            proof {
                assert(self@.display =~= Seq::new(
                    s0.display.len(),
                    |j: int|
                        if j / 640 == ly as int && (j % 640) / 4 < i + 1 && 0 <= (j % 640) / 4 - (s0.wx
                            - 7) < 256 {
                            rgba_of(s0.bgp, s0.win_raw(win_y(s0, ly), (j % 640) / 4 - (s0.wx - 7)))@[j
                                % 4]
                        } else {
                            s0.display[j]
                        },
                ));
            }
            i += 1;
        }
        proof {
            assert(self@.display =~= win_line(s0, ly));
        }
    }
}

impl PPU {
    fn draw_objects_to_screen(&mut self, ly: u8)
        requires
            old(self).wf(),
            ly < 144,
        ensures
            final(self).wf(),
            final(self)@ == (PpuState {
                display: objs_fold(old(self)@, old(self)@.display, ly, 40),
                ..old(self)@
            }),
    {
        // Object attributes reside in the object attribute memory (OAM) at $FE00-FE9F.
        // In 8x16 mode (LCDC bit 2 = 1), every 2 tiles form an object.
        let tile_height: i16 = match self.obj_sprite_size() {
            ObjSpriteSize::Size8x8 => 8,
            ObjSpriteSize::Size8x16 => 16,
        };
        let ghost s0 = self@;

        let mut i: usize = 0;
        while i < 40
            invariant
                s0 == old(self)@,
                s0.wf(),
                self.wf(),
                ly < 144,
                0 <= i <= 40,
                tile_height == obj_height(s0),
                self@ == (PpuState { display: self@.display, ..s0 }),
                self@.display == objs_fold(s0, s0.display, ly, i as nat),
            decreases 40 - i,
        {
            let ghost buf0 = self@.display;
            let byte_y_pos = self.oam_ram[(i * 4) + 0] as i16;
            let mut tile_y: i16 = ly as i16 - (byte_y_pos - 16);
            let byte_x_pos = self.oam_ram[(i * 4) + 1] as i16;
            if tile_y < 0 || tile_y >= tile_height || byte_x_pos == 0 || byte_x_pos - 8
                >= DISPLAY_WIDTH as i16 {
                // Not on this line, or horizontally out of screen.
                assert(!obj_on_line(s0, ly, i as int));
                assert(obj_apply(s0, buf0, ly, i as int, 8) =~= buf0);
            } else {
                let byte_tile_index = self.oam_ram[(i * 4) + 2] as usize;
                let byte_attr_and_flags = self.oam_ram[(i * 4) + 3];

                let priority = is_bit(byte_attr_and_flags, 7);
                let y_flip = is_bit(byte_attr_and_flags, 6);
                let x_flip = is_bit(byte_attr_and_flags, 5);
                // DMG palette: 0 = OBP0, 1 = OBP1.
                let palette = if is_bit(byte_attr_and_flags, 4) {
                    self.obp1
                } else {
                    self.obp0
                };

                if y_flip {
                    tile_y = tile_height - 1 - tile_y;
                }

                // Not emulated: the limit of 10 objects per line.
                // Not emulated: the longer mode 3 that objects cause.
                let tile_start_addr = byte_tile_index * 8 * 2;

                let row_lo = self.vram[tile_start_addr + (tile_y as usize * 2) + 0];
                let row_hi = self.vram[tile_start_addr + (tile_y as usize * 2) + 1];
                let mut x: u8 = 0;
                while x < 8
                    invariant
                        s0 == old(self)@,
                        s0.wf(),
                        self.wf(),
                        ly < 144,
                        0 <= i < 40,
                        0 <= x <= 8,
                        obj_on_line(s0, ly, i as int),
                        byte_x_pos == s0.oam_ram[i * 4 + 1],
                        priority == bit_of(s0.oam_ram[i * 4 + 3], 7),
                        x_flip == bit_of(s0.oam_ram[i * 4 + 3], 5),
                        palette == obj_palette(s0, i as int),
                        row_lo == s0.vram[s0.oam_ram[i * 4 + 2] * 16 + (if bit_of(s0.oam_ram[i * 4 + 3], 6) {
                            obj_height(s0) - 1 - (ly - (s0.oam_ram[i * 4] - 16))
                        } else {
                            ly - (s0.oam_ram[i * 4] - 16)
                        }) * 2],
                        row_hi == s0.vram[s0.oam_ram[i * 4 + 2] * 16 + (if bit_of(s0.oam_ram[i * 4 + 3], 6) {
                            obj_height(s0) - 1 - (ly - (s0.oam_ram[i * 4] - 16))
                        } else {
                            ly - (s0.oam_ram[i * 4] - 16)
                        }) * 2 + 1],
                        buf0 == objs_fold(s0, s0.display, ly, i as nat),
                        buf0.len() == DISPLAY_BUFFER_SIZE,
                        self@ == (PpuState { display: self@.display, ..s0 }),
                        self@.display == obj_apply(s0, buf0, ly, i as int, x as int),
                    decreases 8 - x,
                {
                    let row_bit = if x_flip {
                        x
                    } else {
                        7 - x
                    };
                    let b_hi = bit(row_hi, row_bit);
                    let b_lo = bit(row_lo, row_bit);
                    proof {
                lemma_small_bits(b_hi, b_lo, 0, 0, 0);
            }
                    let color = (b_hi << 1u8) | b_lo;
                    assert(color == obj_color(s0, ly, i as int, x as int));

                    let physical_x: i16 = byte_x_pos - 8 + x as i16;
                    let ghost before = self@.display;
                    if physical_x >= 0 && physical_x < DISPLAY_WIDTH as i16 && color != 0 {
                        let paint = !priority || self.is_display_pixel_color_zero(
                            physical_x as usize,
                            ly as usize,
                        );
                        proof {
                            // Columns drawn so far are other pixels: this one still holds buf0's value.
                            let o = (ly * 160 + physical_x) * 4;
                            assert(o / 640 == ly as int && (o % 640) / 4 == physical_x) by (
                            nonlinear_arith)
                                requires
                                    o == (ly * 160 + physical_x) * 4,
                                    0 <= physical_x < 160,
                                    0 <= ly,
                            ;
                            assert(before[o] == buf0[o]);
                            assert(paint == (!bit_of(s0.oam_ram[i * 4 + 3], 7) || pixel_is_zero(
                                buf0,
                                physical_x as int,
                                ly as int,
                            )));
                        }
                        if paint {
                            self.set_display_pixel(physical_x as usize, ly as usize, palette, color);
                            proof {
                                assert forall|j: int| 0 <= j < DISPLAY_BUFFER_SIZE implies #[trigger] self@.display[j]
                                    == obj_apply(s0, buf0, ly, i as int, x + 1)[j] by {
                                    lemma_put_pixel(
                                        before,
                                        physical_x as int,
                                        ly as int,
                                        rgba_of(palette, color),
                                        j,
                                    );
                                }
                            }
                        }
                    }
                    proof {
                        assert(self@.display =~= obj_apply(s0, buf0, ly, i as int, x + 1));
                    }
                    x += 1;
                }
            }
            i += 1;
        }
    }

    pub fn draw_line_to_screen(&mut self, ly: u8)
        requires
            old(self).wf(),
            ly < 144,
            draw_defined(old(self)@, ly),
        ensures
            final(self).wf(),
            final(self)@ == spec_draw_line(old(self)@, ly),
    {
        if self.is_background_window_display_priority() {
            self.draw_background_to_screen(ly);
            self.draw_window_to_screen(ly);
        }

        if self.is_obj_sprite_display_enabled() {
            self.draw_objects_to_screen(ly);
        }
    }
}

impl PPU {
    /// Advances the PPU by `cpu_cycles` and gives back the interrupt mask it raises.
    #[must_use]
    pub fn update(&mut self, cpu_cycles: u64) -> (r: u8)
        requires
            old(self).wf(),
            update_defined(old(self)@, cpu_cycles),
        ensures
            final(self).wf(),
            (final(self)@, r) == spec_update(old(self)@, cpu_cycles),
    {
        if !self.is_lcd_display_enabled() {
            return 0;
        }

        self.stat_counter = self.stat_counter + cpu_cycles;

        // Mode 2  2_____2_____2_____2_____2_____2___________________2____
        // Mode 3  _33____33____33____33____33____33__________________3___
        // Mode 0  ___000___000___000___000___000___000________________000
        // Mode 1  ____________________________________11111111111111_____
        let mut interrupt_mask: u8 = match self.lcd_ppu_mode() {
            LcdPpuMode::M2 => self.update_m2(),
            LcdPpuMode::M3 => self.update_m3(),
            LcdPpuMode::M0 => self.update_m0(),
            LcdPpuMode::M1 => self.update_m1(),
        };

        if self.lyc_change_interrupt {
            self.lyc_change_interrupt = false;
            interrupt_mask = interrupt_mask | VIDEO_RESULT_MASK_STAT_INTERRUPT;
        }

        interrupt_mask
    }

    /// Searching for OBJs which overlap this line.
    fn update_m2(&mut self) -> (r: u8)
        requires
            old(self).wf(),
            old(self)@.lcd_on(),
            old(self)@.mode() == 2,
            old(self)@.stat_counter >= 80 ==> draw_defined(
                spec_set_mode(old(self)@, 3).0,
                old(self)@.ly,
            ),
        ensures
            final(self).wf(),
            (final(self)@, r) == step_m2(old(self)@),
    {
        let mut interrupt_mask: u8 = 0;
        if self.stat_counter >= 80 {
            self.stat_counter = self.stat_counter - 80;
            // Mode to 3.
            if self.set_lcd_stat_ppu_mode(3) {
                interrupt_mask = VIDEO_RESULT_MASK_STAT_INTERRUPT;
            }
            self.draw_line_to_screen(self.ly);
        }
        interrupt_mask
    }

    /// Sending pixels to the LCD.
    fn update_m3(&mut self) -> (r: u8)
        requires
            old(self).wf(),
            old(self)@.lcd_on(),
            old(self)@.mode() == 3,
        ensures
            final(self).wf(),
            (final(self)@, r) == step_m3(old(self)@),
    {
        let mut interrupt_mask: u8 = 0;
        // Todo: 172 to 289 dots, depending on object count
        let m3_len: u64 = 252;
        if self.stat_counter >= m3_len {
            self.stat_counter = self.stat_counter - m3_len;

            self.prev_m3_len = m3_len;

            // Mode to 0.
            if self.set_lcd_stat_ppu_mode(0) {
                interrupt_mask = VIDEO_RESULT_MASK_STAT_INTERRUPT;
            }
        }
        interrupt_mask
    }

    /// Waiting until the end of the scanline.
    fn update_m0(&mut self) -> (r: u8)
        requires
            old(self).wf(),
            old(self)@.lcd_on(),
            old(self)@.mode() == 0,
            old(self)@.stat_counter >= 87 + 289 - old(self)@.prev_m3_len ==> old(self)@.ly < 255,
        ensures
            final(self).wf(),
            (final(self)@, r) == step_m0(old(self)@),
    {
        let mut interrupt_mask: u8 = 0;
        // Todo: 87 to 204 dots (I assume depending on object count, reverse (vs M3))
        let m0_len: u64 = 87 + 289 - self.prev_m3_len;

        if self.stat_counter >= m0_len {
            self.stat_counter = self.stat_counter - m0_len;

            // Increase LY.
            self.update_ly(self.ly + 1, &mut interrupt_mask);
            let ghost m = interrupt_mask;
            proof {
                lemma_small_bits(0, 0, 0, 0, m);
            }

            if self.ly < 144 {
                // Mode to 2.
                if self.set_lcd_stat_ppu_mode(2) {
                    interrupt_mask = interrupt_mask | VIDEO_RESULT_MASK_STAT_INTERRUPT;
                }
            } else {
                // Mode to 1.
                if self.set_lcd_stat_ppu_mode(1) {
                    interrupt_mask = interrupt_mask | VIDEO_RESULT_MASK_STAT_INTERRUPT;
                }
                interrupt_mask = interrupt_mask | VIDEO_RESULT_MASK_VBLANK_INTERRUPT;
            }
        }
        interrupt_mask
    }

    /// Waiting until the next frame.
    fn update_m1(&mut self) -> (r: u8)
        requires
            old(self).wf(),
            old(self)@.lcd_on(),
            old(self)@.mode() == 1,
        ensures
            final(self).wf(),
            (final(self)@, r) == step_m1(old(self)@),
    {
        let mut interrupt_mask: u8 = 0;
        if self.stat_counter >= 4560 {
            self.stat_counter = self.stat_counter - 4560;

            self.update_ly(0, &mut interrupt_mask);
            let ghost m = interrupt_mask;
            proof {
                lemma_small_bits(0, 0, 0, 0, m);
            }

            // Mode to 2.
            if self.set_lcd_stat_ppu_mode(2) {
                interrupt_mask = interrupt_mask | VIDEO_RESULT_MASK_STAT_INTERRUPT;
            }

            self.ensure_fps();
        } else {
            assert(self.stat_counter / 456 < 10);
            self.update_ly(144 + (self.stat_counter / 456) as u8, &mut interrupt_mask);
        }
        interrupt_mask
    }

    /// Whether `update(cpu_cycles)` is defined: the cycle counter does not overflow, LY does not
    /// pass 255, and the window line counter does not overflow while a line is drawn.
    pub fn is_update_defined(&self, cpu_cycles: u64) -> (r: bool)
        requires
            self.wf(),
        ensures
            r == update_defined(self@, cpu_cycles),
    {
        if self.stat_counter > u64::MAX - cpu_cycles {
            return false;
        }
        let c = self.stat_counter + cpu_cycles;
        if !self.is_lcd_display_enabled() {
            return true;
        }
        let mode = self.stat & 0b11;
        if mode == 0 && c >= 87 + 289 - self.prev_m3_len {
            self.ly < 255
        } else if mode == 2 && c >= 80 {
            let lcdc = self.lcdc;
            let shows_window_line = is_bit(lcdc, 0) && self.ly >= self.wy && !(self.wx < 167
                && is_bit(lcdc, 5));
            !shows_window_line || self.wy_offset < 255
        } else {
            true
        }
    }

    /// A frame ended: unless the limiter is off, ask whoever runs the loop to wait for the frame time.
    fn ensure_fps(&mut self)
        ensures
            final(self)@ == (PpuState {
                frame_sync_due: old(self)@.frame_sync_due || !old(self)@.ignore_fps_limiter,
                ..old(self)@
            }),
    {
        if self.ignore_fps_limiter {
            return;
        }
        self.frame_sync_due = true;
    }
}

impl PPU {
    /// The RGBA color of a raw color through the background palette.
    fn bg_rgba(&self, raw_color: u8) -> (r: [u8; 4])
        requires
            raw_color <= 3,
        ensures
            r == rgba_of(self@.bgp, raw_color),
    {
        assert((raw_color * 2) as u8 == raw_color * 2);
        pixel_rgb8888_color(apply_palette(raw_color, self.bgp))
    }

    /// Whether a frame of `len` bytes fits the window `window_id`.
    pub fn is_fill_frame_defined(&self, window_id: u64, len: usize) -> (r: bool)
        ensures
            r == fill_frame_defined(self@, window_id, len as nat),
    {
        if self.main_window_id == Some(window_id) {
            len == DISPLAY_BUFFER_SIZE
        } else if self.tile_debug_window_id == Some(window_id) {
            len >= DEBUG_TILES_FRAME_SIZE
        } else if self.background_debug_window_id == Some(window_id)
            || self.window_debug_window_id == Some(window_id) {
            len >= DEBUG_MAP_FRAME_SIZE
        } else {
            true
        }
    }

    /// Fills the frame of a window: the screen, or one of the debug views.
    pub fn fill_frame_buffer(&self, window_id: u64, frame: &mut [u8])
        requires
            self.wf(),
            fill_frame_defined(self@, window_id, old(frame)@.len()),
        ensures
            final(frame)@ == spec_fill_frame(self@, window_id, old(frame)@),
    {
        if self.main_window_id == Some(window_id) {
            self.transfer_display_to_screen_buffer(frame);
        } else if self.tile_debug_window_id == Some(window_id) {
            self.draw_debug_tiles(frame);
        } else if self.background_debug_window_id == Some(window_id) {
            self.draw_debug_background(frame);
        } else if self.window_debug_window_id == Some(window_id) {
            self.draw_debug_window(frame);
        }
    }

    /// Draws all 384 tiles of VRAM through the background palette: 16 tiles wide, 24 tall.
    pub fn draw_debug_tiles(&self, frame: &mut [u8])
        requires
            self.wf(),
            old(frame)@.len() >= DEBUG_TILES_FRAME_SIZE,
        ensures
            final(frame)@ == tiles_frame(self@, old(frame)@),
    {
        let ghost f0 = frame@;
        let mut p: usize = 0;
        while p < DEBUG_TILES_FRAME_SIZE / 4
            invariant
                self.wf(),
                f0 == old(frame)@,
                f0.len() >= DEBUG_TILES_FRAME_SIZE,
                0 <= p <= DEBUG_TILES_FRAME_SIZE / 4,
                frame@.len() == f0.len(),
                forall|k: int|
                    0 <= k < f0.len() ==> #[trigger] frame@[k] == (if k < 4 * p {
                        rgba_of(self@.bgp, tile_sheet_code(self@.vram, k / 4))@[k % 4]
                    } else {
                        f0[k]
                    }),
            decreases DEBUG_TILES_FRAME_SIZE / 4 - p,
        {
            let row = p / 128;
            let col = p % 128;
            // 8x8 pixel with 2bpp = 16 bytes per tile.
            let vram_pos = ((row / 8) * 16 + col / 8) * 16 + (row % 8) * 2;
            let byte1 = self.vram[vram_pos];
            let byte2 = self.vram[vram_pos + 1];
            let sprite_x = (col % 8) as u8;
            let b_hi = bit(byte2, 7 - sprite_x);
            let b_lo = bit(byte1, 7 - sprite_x);
            proof {
                lemma_small_bits(b_hi, b_lo, 0, 0, 0);
            }
            let raw = (b_hi << 1u8) | b_lo;
            assert(raw == tile_sheet_code(self@.vram, p as int));
            let pixel_color = self.bg_rgba(raw);
            let ghost before = frame@;
            put_frame_pixel(frame, p, pixel_color);
            proof {
                assert forall|k: int| 0 <= k < f0.len() implies #[trigger] frame@[k] == (if k < 4 * (
                p + 1) {
                    rgba_of(self@.bgp, tile_sheet_code(self@.vram, k / 4))@[k % 4]
                } else {
                    f0[k]
                }) by {
                    lemma_channel_index(p as int, k);
                    assert(before[k] == before[k]);
                }
            }
            p += 1;
        }
        assert(frame@ =~= tiles_frame(self@, f0));
    }

    /// Draws the whole background tile map: 256 x 256 pixels.
    pub fn draw_debug_background(&self, frame: &mut [u8])
        requires
            self.wf(),
            old(frame)@.len() >= DEBUG_MAP_FRAME_SIZE,
        ensures
            final(frame)@ == map_frame(self@, self@.bg_map_start(), old(frame)@),
    {
        let start = self.background_tile_map_display_section_start();
        self.draw_debug_window_or_background(frame, (start - MEM_AREA_VRAM_START) as usize);
    }

    /// Draws the whole window tile map: 256 x 256 pixels.
    pub fn draw_debug_window(&self, frame: &mut [u8])
        requires
            self.wf(),
            old(frame)@.len() >= DEBUG_MAP_FRAME_SIZE,
        ensures
            final(frame)@ == map_frame(self@, self@.win_map_start(), old(frame)@),
    {
        let start = self.window_tile_map_display_section_start();
        self.draw_debug_window_or_background(frame, (start - MEM_AREA_VRAM_START) as usize);
    }

    /// Draws the whole 32 x 32 tile map that starts at VRAM offset `tile_map_start`.
    #[verifier::rlimit(30)]
    pub fn draw_debug_window_or_background(&self, frame: &mut [u8], tile_map_start: usize)
        requires
            self.wf(),
            old(frame)@.len() >= DEBUG_MAP_FRAME_SIZE,
            tile_map_start + 1024 <= VRAM_SIZE,
        ensures
            final(frame)@ == map_frame(self@, tile_map_start as int, old(frame)@),
    {
        let tile_data_section_start = (self.backround_window_tile_data_section_start()
            - MEM_AREA_VRAM_START) as usize;
        let ghost f0 = frame@;
        let mut p: usize = 0;
        while p < DEBUG_MAP_FRAME_SIZE / 4
            invariant
                self.wf(),
                f0 == old(frame)@,
                f0.len() >= DEBUG_MAP_FRAME_SIZE,
                tile_map_start + 1024 <= VRAM_SIZE,
                tile_data_section_start == self@.tile_data_start(),
                0 <= p <= DEBUG_MAP_FRAME_SIZE / 4,
                frame@.len() == f0.len(),
                forall|k: int|
                    0 <= k < f0.len() ==> #[trigger] frame@[k] == (if k < 4 * p {
                        rgba_of(self@.bgp, map_pixel(self@, tile_map_start as int, k / 4))@[k % 4]
                    } else {
                        f0[k]
                    }),
            decreases DEBUG_MAP_FRAME_SIZE / 4 - p,
        {
            let row = p / 256;
            let col = p % 256;
            let tile_data_i = (row / 8) * 32 + col / 8;
            let tile_i = if tile_data_section_start == 0x0800 {
                self.vram[tile_map_start + tile_data_i].wrapping_add(128)
            } else {
                self.vram[tile_map_start + tile_data_i]
            };
            let raw = self.tile_color(
                tile_data_section_start,
                tile_i,
                (row % 8) as u8,
                (col % 8) as u8,
            );
            assert(raw == map_pixel(self@, tile_map_start as int, p as int));
            let pixel_color = self.bg_rgba(raw);
            let ghost before = frame@;
            put_frame_pixel(frame, p, pixel_color);
            proof {
                assert forall|k: int| 0 <= k < f0.len() implies #[trigger] frame@[k] == (if k < 4 * (
                p + 1) {
                    rgba_of(self@.bgp, map_pixel(self@, tile_map_start as int, k / 4))@[k % 4]
                } else {
                    f0[k]
                }) by {
                    lemma_channel_index(p as int, k);
                    assert(before[k] == before[k]);
                }
            }
            p += 1;
        }
        assert(frame@ =~= map_frame(self@, tile_map_start as int, f0));
    }

    /// Copies the display into a screen sized frame, or blacks it out while the LCD is off.
    pub fn transfer_display_to_screen_buffer(&self, frame: &mut [u8])
        requires
            self.wf(),
            old(frame)@.len() == DISPLAY_BUFFER_SIZE,
        ensures
            final(frame)@ == screen_frame(self@, old(frame)@),
    {
        let lcd_on = self.is_lcd_display_enabled();
        let mut k: usize = 0;
        while k < frame.len()
            invariant
                self.wf(),
                lcd_on == self@.lcd_on(),
                frame@.len() == DISPLAY_BUFFER_SIZE,
                0 <= k <= DISPLAY_BUFFER_SIZE,
                forall|j: int|
                    0 <= j < k ==> #[trigger] frame@[j] == (if lcd_on {
                        self@.display[j]
                    } else {
                        0u8
                    }),
            decreases DISPLAY_BUFFER_SIZE - k,
        {
            if lcd_on {
                frame[k] = self.display_buffer[k];
            } else {
                frame[k] = 0;
            }
            k += 1;
        }
        assert(frame@ =~= screen_frame(self@, old(frame)@));
    }
}

/// A byte written to VRAM or OAM while the PPU lets the CPU in is what a read there gives.
pub proof fn lemma_ppu_memory_write_then_read(s: PpuState, loc: u16, byte: u8)
    requires
        s.wf(),
        (MEM_AREA_VRAM_START <= loc <= MEM_AREA_VRAM_END && s.vram_accessible()) || (
        MEM_AREA_OAM_START <= loc <= MEM_AREA_OAM_END && s.oam_accessible()),
    ensures
        spec_ppu_read(spec_ppu_write(s, loc, byte), loc) == byte,
{
}

/// The scroll, LY compare, palette and window registers read back what was written.
pub proof fn lemma_ppu_register_write_then_read(s: PpuState, loc: u16, byte: u8)
    requires
        loc == MEM_LOC_SCY || loc == MEM_LOC_SCX || loc == MEM_LOC_LYC || loc == MEM_LOC_BGP
            || loc == MEM_LOC_OBP0 || loc == MEM_LOC_OBP1 || loc == MEM_LOC_WY || loc
            == MEM_LOC_WX,
    ensures
        spec_ppu_read(spec_ppu_write(s, loc, byte), loc) == byte,
{
}


/// Pixel `x` (0 the leftmost) of a row of a background or window tile takes bit 7 - x of the
/// row's two bytes: the second byte gives bit 1 of the raw color, the first byte bit 0.
pub proof fn lemma_tile_pixel_bits(s: PpuState, tile_i: int, tile_y: int, x: u8)
    requires
        x < 8,
    ensures
        ({
            let lo = s.vram[s.tile_data_start() + tile_i * 16 + tile_y * 2];
            let hi = s.vram[s.tile_data_start() + tile_i * 16 + tile_y * 2 + 1];
            s.tile_pixel(tile_i, tile_y, x as int) == (if hi & (0x80u8 >> x) != 0 {
                2int
            } else {
                0int
            }) + (if lo & (0x80u8 >> x) != 0 {
                1int
            } else {
                0int
            })
        }),
{
    let lo = s.vram[s.tile_data_start() + tile_i * 16 + tile_y * 2];
    let hi = s.vram[s.tile_data_start() + tile_i * 16 + tile_y * 2 + 1];
    let sh = (7 - x) as u8;
    assert(((((hi >> sh) & 1) << 1u8) | ((lo >> sh) & 1)) == (if hi & (0x80u8 >> x) != 0 {
        2u8
    } else {
        0u8
    }) + (if lo & (0x80u8 >> x) != 0 {
        1u8
    } else {
        0u8
    })) by (bit_vector)
        requires
            x < 8,
            sh == 7 - x,
    ;
}


/// Column `x` (0 the leftmost) of an object takes bit 7 - x of its row's two bytes, or bit x
/// when the object is flipped horizontally (attribute bit 5); its row counts from the top, or
/// from the bottom when it is flipped vertically (attribute bit 6). The second byte gives bit 1
/// of the raw color, the first byte bit 0.
pub proof fn lemma_obj_color_bits(s: PpuState, ly: u8, i: int, x: u8)
    requires
        x < 8,
    ensures
        ({
            let attr = s.oam_ram[i * 4 + 3];
            let row0 = ly - (s.oam_ram[i * 4] - 16);
            let row = if attr & 0x40 != 0 {
                obj_height(s) - 1 - row0
            } else {
                row0
            };
            let start = s.oam_ram[i * 4 + 2] * 16;
            let lo = s.vram[start + row * 2];
            let hi = s.vram[start + row * 2 + 1];
            let mask: u8 = if attr & 0x20 != 0 {
                1u8 << x
            } else {
                0x80u8 >> x
            };
            obj_color(s, ly, i, x as int) == (if hi & mask != 0 {
                2int
            } else {
                0int
            }) + (if lo & mask != 0 {
                1int
            } else {
                0int
            })
        }),
{
    let attr = s.oam_ram[i * 4 + 3];
    let row0 = ly - (s.oam_ram[i * 4] - 16);
    let row = if attr & 0x40 != 0 {
        obj_height(s) - 1 - row0
    } else {
        row0
    };
    let start = s.oam_ram[i * 4 + 2] * 16;
    let lo = s.vram[start + row * 2];
    let hi = s.vram[start + row * 2 + 1];
    let sh = (7 - x) as u8;
    assert((((attr >> 6u8) & 1 == 1) == (attr & 0x40 != 0)) && (((attr >> 5u8) & 1 == 1) == (
    attr & 0x20 != 0)) && (((((hi >> sh) & 1) << 1u8) | ((lo >> sh) & 1)) == (if hi & (0x80u8
        >> x) != 0 {
        2u8
    } else {
        0u8
    }) + (if lo & (0x80u8 >> x) != 0 {
        1u8
    } else {
        0u8
    })) && (((((hi >> x) & 1) << 1u8) | ((lo >> x) & 1)) == (if hi & (1u8 << x) != 0 {
        2u8
    } else {
        0u8
    }) + (if lo & (1u8 << x) != 0 {
        1u8
    } else {
        0u8
    }))) by (bit_vector)
        requires
            x < 8,
            sh == 7 - x,
    ;
}

} // verus!
