use vstd::prelude::*;

use crate::conf::{
    Error, DISPLAY_PIXELS_COUNT, MEM_AREA_OAM_END, MEM_AREA_OAM_START, MEM_AREA_VRAM_END,
    MEM_AREA_VRAM_START, MEM_LOC_BGP, MEM_LOC_LCDC, MEM_LOC_LY, MEM_LOC_LYC, MEM_LOC_OBP0,
    MEM_LOC_OBP1, MEM_LOC_SCX, MEM_LOC_SCY, MEM_LOC_STAT, MEM_LOC_WX, MEM_LOC_WY, OAM_RAM_SIZE,
    VRAM_SIZE,
};
use crate::ppu::{
    bit_of, lemma_channel_index, DEBUG_TILES_FRAME_SIZE, ppu_addr, put_frame_pixel, tile_sheet_code, zeros, LcdPpuMode,
};
use crate::util::{bit, is_bit};

use crate::bits::lemma_small_bits;

verus! {

pub const VIDEO_RESULT_MASK_STAT_INTERRUPT: u8 = 0b1;

pub const VIDEO_RESULT_MASK_VBLANK_INTERRUPT: u8 = 0b10;

/// RGBA color of each shade code of this unit, lightest first.
pub const SHADES: [[u8; 4]; 4] = [
    [0x10u8, 0xf0u8, 0x80u8, 0xffu8],
    [0x10u8, 0xa0u8, 0x50u8, 0xffu8],
    [0x10u8, 0x80u8, 0x40u8, 0xffu8],
    [0x10u8, 0x40u8, 0x20u8, 0xffu8],
];

/// Bytes of the RGBA frame that `draw_display` fills.
pub const DISPLAY_FRAME_SIZE: usize = 92160;

/// The abstract state of the video unit. The display holds one shade code (0 to 3) per pixel.
pub struct VideoState {
    pub stat_counter: u64,
    pub prev_m3_len: u64,
    pub lcdc: u8,
    pub stat: u8,
    pub scy: u8,
    pub scx: u8,
    pub ly: u8,
    pub lyc: u8,
    pub bgp: u8,
    pub obp0: u8,
    pub obp1: u8,
    pub wy: u8,
    pub wx: u8,
    pub vram: Seq<u8>,
    pub oam_ram: Seq<u8>,
    pub display: Seq<u8>,
    pub ignore_fps_limiter: bool,
    pub frame_sync_due: bool,
}

impl VideoState {
    pub open spec fn mode(&self) -> u8 {
        self.stat & 0b11
    }

    pub open spec fn lcd_on(&self) -> bool {
        bit_of(self.lcdc, 7)
    }

    /// Memory has its sizes, the display holds shade codes, and mode 3 lasts 204 cycles.
    pub open spec fn wf(&self) -> bool {
        &&& self.vram.len() == VRAM_SIZE
        &&& self.oam_ram.len() == OAM_RAM_SIZE
        &&& self.display.len() == DISPLAY_PIXELS_COUNT
        &&& forall|i: int| 0 <= i < DISPLAY_PIXELS_COUNT ==> #[trigger] self.display[i] <= 3
        &&& self.prev_m3_len == 204
    }

    /// Offset in VRAM of the tile data of the background and the window (unsigned indexing).
    pub open spec fn tile_data_start(&self) -> int {
        if bit_of(self.lcdc, 4) {
            0
        } else {
            0x0800
        }
    }

    /// Offset in VRAM of the background tile map.
    pub open spec fn bg_map_start(&self) -> int {
        if bit_of(self.lcdc, 3) {
            0x1C00
        } else {
            0x1800
        }
    }

    /// Offset in VRAM of the window tile map.
    pub open spec fn win_map_start(&self) -> int {
        if bit_of(self.lcdc, 6) {
            0x1C00
        } else {
            0x1800
        }
    }

    /// The shade code at column `i` of line `ly` of a tile map, after scrolling (the map wraps).
    pub open spec fn layer_pixel(&self, map_start: int, ly: u8, i: int) -> u8 {
        let y = (ly + self.scy) % 256;
        let x = (self.scx + i) % 256;
        let t = self.vram[map_start + (y / 8) * 32 + x / 8];
        let lo = self.vram[self.tile_data_start() + t * 16 + (y % 8) * 2];
        let hi = self.vram[self.tile_data_start() + t * 16 + (y % 8) * 2 + 1];
        (((hi >> ((7 - x % 8) as u8)) & 1) << 1u8) | ((lo >> ((7 - x % 8) as u8)) & 1)
    }

    /// Object height in lines.
    pub open spec fn obj_height(&self) -> int {
        if bit_of(self.lcdc, 2) {
            16
        } else {
            8
        }
    }

    /// Whether object `i` is drawn for line `ly`: its Y range reaches `ly` (both ends
    /// included) and its X position is within 9..=168.
    pub open spec fn obj_hit(&self, ly: u8, i: int) -> bool {
        let ypos = self.oam_ram[i * 4];
        let xpos = self.oam_ram[i * 4 + 1];
        &&& ypos - 16 <= ly <= ypos - 16 + self.obj_height()
        &&& 8 < xpos <= 168
    }

    /// The row of object `i`'s tile that line `ly` crosses.
    pub open spec fn obj_row(&self, ly: u8, i: int) -> int {
        ly - (self.oam_ram[i * 4] - 16)
    }

    /// The shade code of column `x` (0..8) of object `i` for line `ly`.
    pub open spec fn obj_color(&self, ly: u8, i: int, x: int) -> u8 {
        let start = self.oam_ram[i * 4 + 2] * self.obj_height() * 2;
        let lo = self.vram[start + self.obj_row(ly, i) * 2];
        let hi = self.vram[start + self.obj_row(ly, i) * 2 + 1];
        (((hi >> ((7 - x) as u8)) & 1) << 1u8) | ((lo >> ((7 - x) as u8)) & 1)
    }

    /// Drawing object `i` for line `ly` is defined: the crossed row is within the tile, and
    /// pixels that fall on screen columns land on a screen line. Objects are drawn 32 lines
    /// below `ly`.
    pub open spec fn obj_draw_defined(&self, ly: u8, i: int) -> bool {
        self.obj_hit(ly, i) ==> {
            &&& self.obj_row(ly, i) < self.obj_height()
            &&& (self.oam_ram[i * 4 + 1] < 152 ==> ly + 32 < 144)
        }
    }
}

/// The display after line `ly` is filled from the tile map at `map_start`.
pub open spec fn layer_line(s: VideoState, map_start: int, ly: u8) -> Seq<u8> {
    Seq::new(
        s.display.len(),
        |j: int|
            if j / 160 == ly as int {
                s.layer_pixel(map_start, ly, j % 160)
            } else {
                s.display[j]
            },
    )
}

/// `buf` after columns `0..upto` of object `i` are drawn for line `ly`.
pub open spec fn obj_apply(s: VideoState, buf: Seq<u8>, ly: u8, i: int, upto: int) -> Seq<u8> {
    Seq::new(
        buf.len(),
        |j: int|
            {
                let x = j % 160 - (s.oam_ram[i * 4 + 1] + 8);
                if s.obj_hit(ly, i) && j / 160 == ly + 32 && 0 <= x < upto {
                    s.obj_color(ly, i, x)
                } else {
                    buf[j]
                }
            },
    )
}

/// `buf` after objects `0..n` are drawn for line `ly`, in order.
pub open spec fn objs_fold(s: VideoState, buf: Seq<u8>, ly: u8, n: nat) -> Seq<u8>
    decreases n,
{
    if n == 0 {
        buf
    } else {
        obj_apply(s, objs_fold(s, buf, ly, (n - 1) as nat), ly, n - 1, 8)
    }
}

/// The state after line `ly` is drawn: background, objects, then window.
pub open spec fn spec_draw_line(s: VideoState, ly: u8) -> VideoState {
    let s_bg = if bit_of(s.lcdc, 0) {
        VideoState { display: layer_line(s, s.bg_map_start(), ly), ..s }
    } else {
        s
    };
    let s_obj = if bit_of(s.lcdc, 1) {
        VideoState { display: objs_fold(s_bg, s_bg.display, ly, 40), ..s_bg }
    } else {
        s_bg
    };
    if bit_of(s.lcdc, 5) {
        VideoState { display: layer_line(s_obj, s_obj.win_map_start(), ly), ..s_obj }
    } else {
        s_obj
    }
}

/// Whether drawing line `ly` is defined: a background or window line must be on screen, and
/// each object drawn must be drawable.
pub open spec fn draw_defined(s: VideoState, ly: u8) -> bool {
    &&& (bit_of(s.lcdc, 0) || bit_of(s.lcdc, 5) ==> ly < 144)
    &&& (bit_of(s.lcdc, 1) ==> forall|i: int| 0 <= i < 40 ==> #[trigger] s.obj_draw_defined(ly, i))
}

/// The state after the STAT mode is set, and whether that mode's STAT interrupt is enabled.
pub open spec fn spec_set_mode(s: VideoState, mode: u8) -> (VideoState, bool) {
    let s1 = VideoState { stat: ((s.stat & 0b1111_1100) | mode) as u8, ..s };
    let enabled = if mode == 0 {
        bit_of(s1.stat, 3)
    } else if mode == 1 {
        bit_of(s1.stat, 4)
    } else if mode == 2 {
        bit_of(s1.stat, 5)
    } else {
        false
    };
    (s1, enabled)
}

/// The state after LY is set, and the interrupt mask with the LY=LYC interrupt added.
pub open spec fn spec_update_ly(s: VideoState, new_ly: u8, mask: u8) -> (VideoState, u8) {
    if new_ly == s.lyc {
        let s1 = VideoState { ly: new_ly, stat: s.stat | 0b0100, ..s };
        (s1, if bit_of(s1.stat, 6) {
            mask | VIDEO_RESULT_MASK_STAT_INTERRUPT
        } else {
            mask
        })
    } else {
        (VideoState { ly: new_ly, stat: s.stat & 0b1111_1011, ..s }, mask)
    }
}

/// Mask bit of an interrupt flag.
pub open spec fn mask_if(b: bool) -> u8 {
    if b {
        VIDEO_RESULT_MASK_STAT_INTERRUPT
    } else {
        0
    }
}

/// Mode 2 (OAM search) after the counter moved: past 80 cycles, mode 3 starts.
pub open spec fn step_m2(s1: VideoState) -> (VideoState, u8) {
    let c = s1.stat_counter;
    if c >= 80 {
        let (s3, i3) = spec_set_mode(VideoState { stat_counter: (c - 80) as u64, ..s1 }, 3);
        (s3, mask_if(i3))
    } else {
        (s1, 0u8)
    }
}

/// Mode 3 (pixel transfer) after the counter moved: past 204 cycles the line is drawn and
/// mode 0 starts.
pub open spec fn step_m3(s1: VideoState) -> (VideoState, u8) {
    let c = s1.stat_counter;
    if c >= 204 {
        let s2 = spec_draw_line(
            VideoState { stat_counter: (c - 204) as u64, prev_m3_len: 204, ..s1 },
            s1.ly,
        );
        let (s3, i0) = spec_set_mode(s2, 0);
        (s3, mask_if(i0))
    } else {
        (s1, 0u8)
    }
}

/// Mode 0 (horizontal blank) after the counter moved: at its end LY advances, and mode 2 or,
/// past the last visible line, mode 1 with the VBlank interrupt follows.
pub open spec fn step_m0(s1: VideoState) -> (VideoState, u8) {
    let c = s1.stat_counter;
    let m0_len = 87 + 289 - s1.prev_m3_len;
    if c >= m0_len {
        let (s3, m3) = spec_update_ly(
            VideoState { stat_counter: (c - m0_len) as u64, ..s1 },
            (s1.ly + 1) as u8,
            0,
        );
        if s3.ly < 144 {
            let (s4, i2) = spec_set_mode(s3, 2);
            (s4, m3 | mask_if(i2))
        } else {
            let (s4, i1) = spec_set_mode(s3, 1);
            (s4, m3 | mask_if(i1) | VIDEO_RESULT_MASK_VBLANK_INTERRUPT)
        }
    } else {
        (s1, 0u8)
    }
}

/// Mode 1 (vertical blank) after the counter moved: LY follows the counter, and after 4560
/// cycles a new frame starts in mode 2.
pub open spec fn step_m1(s1: VideoState) -> (VideoState, u8) {
    let c = s1.stat_counter;
    if c >= 4560 {
        let (s3, m3) = spec_update_ly(VideoState { stat_counter: (c - 4560) as u64, ..s1 }, 0, 0);
        let (s4, i2) = spec_set_mode(s3, 2);
        (
            VideoState { frame_sync_due: s4.frame_sync_due || !s4.ignore_fps_limiter, ..s4 },
            m3 | mask_if(i2),
        )
    } else {
        spec_update_ly(s1, (144 + c / 456) as u8, 0)
    }
}

/// The step of the current mode.
pub open spec fn spec_step(s1: VideoState) -> (VideoState, u8) {
    if s1.mode() == 2 {
        step_m2(s1)
    } else if s1.mode() == 3 {
        step_m3(s1)
    } else if s1.mode() == 0 {
        step_m0(s1)
    } else {
        step_m1(s1)
    }
}

/// The video unit after `cycles` more cycles, and the interrupt mask it raises.
pub open spec fn spec_update(s: VideoState, cycles: u64) -> (VideoState, u8) {
    if !s.lcd_on() {
        (s, 0)
    } else {
        spec_step(VideoState { stat_counter: (s.stat_counter + cycles) as u64, ..s })
    }
}

/// Whether an update by `cycles` is defined: the counter does not overflow, LY does not pass
/// 255, and a line that mode 3 draws is drawable.
pub open spec fn update_defined(s: VideoState, cycles: u64) -> bool {
    let c = s.stat_counter + cycles;
    s.lcd_on() ==> {
        &&& c <= u64::MAX
        &&& (s.mode() == 0 && c >= 87 + 289 - s.prev_m3_len ==> s.ly < 255)
        &&& (s.mode() == 3 && c >= 204 ==> draw_defined(s, s.ly))
    }
}

/// What a read of a video address gives.
pub open spec fn spec_video_read(s: VideoState, loc: u16) -> u8 {
    if MEM_AREA_VRAM_START <= loc <= MEM_AREA_VRAM_END {
        s.vram[loc - MEM_AREA_VRAM_START]
    } else if MEM_AREA_OAM_START <= loc <= MEM_AREA_OAM_END {
        s.oam_ram[loc - MEM_AREA_OAM_START]
    } else if loc == MEM_LOC_LCDC {
        s.lcdc
    } else if loc == MEM_LOC_STAT {
        s.stat
    } else if loc == MEM_LOC_SCY {
        s.scy
    } else if loc == MEM_LOC_SCX {
        s.scx
    } else if loc == MEM_LOC_LY {
        s.ly
    } else if loc == MEM_LOC_LYC {
        s.lyc
    } else if loc == MEM_LOC_BGP {
        s.bgp
    } else if loc == MEM_LOC_OBP0 {
        s.obp0
    } else if loc == MEM_LOC_OBP1 {
        s.obp1
    } else if loc == MEM_LOC_WY {
        s.wy
    } else {
        s.wx
    }
}

/// Whether a write is accepted: LY is read-only, and STAT takes no interrupt selection bits
/// 3 to 5.
pub open spec fn write_defined(loc: u16, byte: u8) -> bool {
    &&& ppu_addr(loc)
    &&& loc != MEM_LOC_LY
    &&& (loc == MEM_LOC_STAT ==> byte & 0b0011_1000 == 0)
}

/// The video unit after a write.
pub open spec fn spec_video_write(s: VideoState, loc: u16, byte: u8) -> VideoState {
    if MEM_AREA_VRAM_START <= loc <= MEM_AREA_VRAM_END {
        VideoState { vram: s.vram.update(loc - MEM_AREA_VRAM_START, byte), ..s }
    } else if MEM_AREA_OAM_START <= loc <= MEM_AREA_OAM_END {
        VideoState { oam_ram: s.oam_ram.update(loc - MEM_AREA_OAM_START, byte), ..s }
    } else if loc == MEM_LOC_LCDC {
        VideoState { lcdc: byte, ..s }
    } else if loc == MEM_LOC_STAT {
        VideoState { stat: byte | 0x80, ..s }
    } else if loc == MEM_LOC_SCY {
        VideoState { scy: byte, ..s }
    } else if loc == MEM_LOC_SCX {
        VideoState { scx: byte, ..s }
    } else if loc == MEM_LOC_LYC {
        VideoState { lyc: byte, ..s }
    } else if loc == MEM_LOC_BGP {
        VideoState { bgp: byte, ..s }
    } else if loc == MEM_LOC_OBP0 {
        VideoState { obp0: byte, ..s }
    } else if loc == MEM_LOC_OBP1 {
        VideoState { obp1: byte, ..s }
    } else if loc == MEM_LOC_WY {
        VideoState { wy: byte, ..s }
    } else {
        VideoState { wx: byte, ..s }
    }
}

/// The tile sheet frame: byte `k` is channel `k % 4` of the color of pixel `k / 4`.
pub open spec fn debug_tiles_frame(vram: Seq<u8>, old_frame: Seq<u8>) -> Seq<u8> {
    Seq::new(
        old_frame.len(),
        |k: int|
            if k < DEBUG_TILES_FRAME_SIZE {
                SHADES[tile_sheet_code(vram, k / 4) as int]@[k % 4]
            } else {
                old_frame[k]
            },
    )
}

/// The display frame: byte `k` is channel `k % 4` of the color of display pixel `k / 4`.
pub open spec fn display_frame(display: Seq<u8>, old_frame: Seq<u8>) -> Seq<u8> {
    Seq::new(
        old_frame.len(),
        |k: int|
            if k < DISPLAY_FRAME_SIZE {
                SHADES[display[k / 4] as int]@[k % 4]
            } else {
                old_frame[k]
            },
    )
}

/// The first video unit: registers, VRAM, OAM and a display with a shade code per pixel.
pub struct Video {
    pub stat_counter: u64,
    // Used to know the variable len of an M3 phase, so M0 can be adjusted.
    prev_m3_len: u64,
    lcdc: u8,
    stat: u8,
    scy: u8,
    scx: u8,
    pub ly: u8,
    lyc: u8,
    bgp: u8,
    obp0: u8,
    obp1: u8,
    wy: u8,
    wx: u8,
    vram: Vec<u8>,
    oam_ram: Vec<u8>,
    display_buffer: Vec<u8>,
    ignore_fps_limiter: bool,
    frame_sync_due: bool,
}

impl View for Video {
    type V = VideoState;

    closed spec fn view(&self) -> VideoState {
        VideoState {
            stat_counter: self.stat_counter,
            prev_m3_len: self.prev_m3_len,
            lcdc: self.lcdc,
            stat: self.stat,
            scy: self.scy,
            scx: self.scx,
            ly: self.ly,
            lyc: self.lyc,
            bgp: self.bgp,
            obp0: self.obp0,
            obp1: self.obp1,
            wy: self.wy,
            wx: self.wx,
            vram: self.vram@,
            oam_ram: self.oam_ram@,
            display: self.display_buffer@,
            ignore_fps_limiter: self.ignore_fps_limiter,
            frame_sync_due: self.frame_sync_due,
        }
    }
}

/// `j` is pixel (`x`, `y`) of a 160 pixel wide buffer exactly when it is `y * 160 + x`.
pub proof fn lemma_pixel_index(y: int, x: int, j: int)
    requires
        0 <= x < 160,
        0 <= y,
        0 <= j,
    ensures
        (j == y * 160 + x) <==> (j / 160 == y && j % 160 == x),
{
    assert((j == y * 160 + x) <==> (j / 160 == y && j % 160 == x)) by (nonlinear_arith)
        requires
            0 <= x < 160,
            0 <= y,
            0 <= j,
    ;
}

/// Whether a line is drawable depends on LCDC and OAM alone.
pub proof fn lemma_draw_defined_same(s: VideoState, t: VideoState, ly: u8)
    requires
        s.lcdc == t.lcdc,
        s.oam_ram == t.oam_ram,
    ensures
        draw_defined(s, ly) == draw_defined(t, ly),
{
    assert forall|k: int|
        #![trigger s.obj_draw_defined(ly, k)]
        #![trigger t.obj_draw_defined(ly, k)]
        s.obj_draw_defined(ly, k) == t.obj_draw_defined(ly, k) by {}
}

impl Video {
    pub open spec fn wf(&self) -> bool {
        self@.wf()
    }

    pub fn new(ignore_fps_limiter: bool) -> (r: Self)
        ensures
            r.wf(),
            r@.stat_counter == 0,
            r@.lcdc == 0,
            r@.stat == 0x80,
            r@.ly == 0 && r@.lyc == 0,
            r@.scy == 0 && r@.scx == 0 && r@.bgp == 0 && r@.obp0 == 0 && r@.obp1 == 0,
            r@.wy == 0 && r@.wx == 0,
            !r@.frame_sync_due,
            r@.ignore_fps_limiter == ignore_fps_limiter,
            forall|i: int| 0 <= i < VRAM_SIZE ==> r@.vram[i] == 0,
            forall|i: int| 0 <= i < OAM_RAM_SIZE ==> r@.oam_ram[i] == 0,
            forall|i: int| 0 <= i < DISPLAY_PIXELS_COUNT ==> r@.display[i] == 0,
    {
        Video {
            stat_counter: 0,
            prev_m3_len: 204,
            lcdc: 0,
            stat: 0x80,
            scy: 0,
            scx: 0,
            ly: 0,
            lyc: 0,
            bgp: 0,
            obp0: 0,
            obp1: 0,
            wy: 0,
            wx: 0,
            vram: zeros(VRAM_SIZE),
            oam_ram: zeros(OAM_RAM_SIZE),
            display_buffer: zeros(DISPLAY_PIXELS_COUNT),
            ignore_fps_limiter,
            frame_sync_due: false,
        }
    }

    /// Sets STAT to mode 2 with the LY=LYC flag (bit 7 reads as set) and LY to 0.
    pub fn reset(&mut self)
        ensures
            final(self)@ == (VideoState { stat: 0b1000_0110, ly: 0, ..old(self)@ }),
    {
        // Bit-2: LYC == LY (Read-only): Set when LY contains the same value as LYC.
        self.stat = 0b1000_0110;
        self.ly = 0;
    }

    /// Whether a frame ended while the frame rate limiter is on; clears it. Whoever runs the
    /// loop then waits for the rest of the frame time.
    pub fn take_frame_sync(&mut self) -> (r: bool)
        ensures
            r == old(self)@.frame_sync_due,
            final(self)@ == (VideoState { frame_sync_due: false, ..old(self)@ }),
    {
        let r = self.frame_sync_due;
        self.frame_sync_due = false;
        r
    }

    fn is_lcd_display_enabled(&self) -> (r: bool)
        ensures
            r == self@.lcd_on(),
    {
        is_bit(self.lcdc, 7)
    }

    fn window_tile_map_display_section_start(&self) -> (r: u16)
        ensures
            r - MEM_AREA_VRAM_START == self@.win_map_start(),
    {
        if is_bit(self.lcdc, 6) {
            0x9C00
        } else {
            0x9800
        }
    }

    fn is_window_display_enabled(&self) -> (r: bool)
        ensures
            r == bit_of(self@.lcdc, 5),
    {
        is_bit(self.lcdc, 5)
    }

    fn backround_window_tile_data_section_start(&self) -> (r: u16)
        ensures
            r - MEM_AREA_VRAM_START == self@.tile_data_start(),
    {
        if is_bit(self.lcdc, 4) {
            0x8000
        } else {
            0x8800
        }
    }

    fn background_tile_map_display_section_start(&self) -> (r: u16)
        ensures
            r - MEM_AREA_VRAM_START == self@.bg_map_start(),
    {
        if is_bit(self.lcdc, 3) {
            0x9C00
        } else {
            0x9800
        }
    }

    fn obj_tile_height(&self) -> (r: i16)
        ensures
            r == self@.obj_height(),
    {
        if is_bit(self.lcdc, 2) {
            16
        } else {
            8
        }
    }

    fn is_obj_sprite_display_enabled(&self) -> (r: bool)
        ensures
            r == bit_of(self@.lcdc, 1),
    {
        is_bit(self.lcdc, 1)
    }

    fn is_background_window_display_priority(&self) -> (r: bool)
        ensures
            r == bit_of(self@.lcdc, 0),
    {
        is_bit(self.lcdc, 0)
    }

    /// The PPU mode of STAT.
    fn lcd_ppu_mode(&self) -> (r: LcdPpuMode)
        ensures
            self@.mode() <= 3,
            r == (if self@.mode() == 0 {
                LcdPpuMode::M0
            } else if self@.mode() == 1 {
                LcdPpuMode::M1
            } else if self@.mode() == 2 {
                LcdPpuMode::M2
            } else {
                LcdPpuMode::M3
            }),
    {
        let st = self.stat;
        let m = st & 0b11;
        proof {
            lemma_small_bits(0, 0, st, 0, 0);
        }
        if m == 0b00 {
            LcdPpuMode::M0
        } else if m == 0b01 {
            LcdPpuMode::M1
        } else if m == 0b10 {
            LcdPpuMode::M2
        } else {
            LcdPpuMode::M3
        }
    }

    #[must_use]
    fn set_lcd_stat_ppu_mode(&mut self, mode: u8) -> (r: bool)
        requires
            mode <= 0b11,
        ensures
            (final(self)@, r) == spec_set_mode(old(self)@, mode),
            final(self)@.mode() == mode,
    {
        let st = self.stat;
        self.stat = self.stat & 0b1111_1100;
        self.stat = self.stat | mode;
        proof {
            lemma_small_bits(0, 0, st, mode, 0);
        }

        match self.lcd_ppu_mode() {
            LcdPpuMode::M0 => is_bit(self.stat, 3),
            LcdPpuMode::M1 => is_bit(self.stat, 4),
            LcdPpuMode::M2 => is_bit(self.stat, 5),
            _ => false,
        }
    }

    fn update_ly(&mut self, new_ly: u8, interrupt_mask: &mut u8)
        ensures
            final(self)@.mode() == old(self)@.mode(),
            (final(self)@, *final(interrupt_mask)) == spec_update_ly(
                old(self)@,
                new_ly,
                *old(interrupt_mask),
            ),
    {
        self.ly = new_ly;
        let st = self.stat;
        proof {
            lemma_small_bits(0, 0, st, 0, 0);
        }

        if self.ly == self.lyc {
            self.stat = self.stat | 0b0100;

            if is_bit(self.stat, 6) {
                *interrupt_mask = *interrupt_mask | VIDEO_RESULT_MASK_STAT_INTERRUPT;
            }
        } else {
            self.stat = self.stat & 0b1111_1011;
        }
    }

    /// Reads VRAM, OAM or a register.
    pub fn read(&self, loc: u16) -> (r: Result<u8, Error>)
        requires
            self.wf(),
            ppu_addr(loc),
        ensures
            r == Ok::<u8, Error>(spec_video_read(self@, loc)),
    {
        let byte = if MEM_AREA_VRAM_START <= loc && loc <= MEM_AREA_VRAM_END {
            self.vram[(loc - MEM_AREA_VRAM_START) as usize]
        } else if MEM_AREA_OAM_START <= loc && loc <= MEM_AREA_OAM_END {
            self.oam_ram[(loc - MEM_AREA_OAM_START) as usize]
        } else if loc == MEM_LOC_LCDC {
            self.lcdc
        } else if loc == MEM_LOC_STAT {
            self.stat
        } else if loc == MEM_LOC_SCY {
            self.scy
        } else if loc == MEM_LOC_SCX {
            self.scx
        } else if loc == MEM_LOC_LY {
            self.ly
        } else if loc == MEM_LOC_LYC {
            self.lyc
        } else if loc == MEM_LOC_BGP {
            self.bgp
        } else if loc == MEM_LOC_OBP0 {
            self.obp0
        } else if loc == MEM_LOC_OBP1 {
            self.obp1
        } else if loc == MEM_LOC_WY {
            self.wy
        } else {
            self.wx
        };
        Ok(byte)
    }

    /// Writes VRAM, OAM or a register. LY is read-only, and STAT takes no interrupt selection.
    pub fn write(&mut self, loc: u16, byte: u8)
        requires
            old(self).wf(),
            write_defined(loc, byte),
        ensures
            final(self).wf(),
            final(self)@ == spec_video_write(old(self)@, loc, byte),
    {
        if MEM_AREA_VRAM_START <= loc && loc <= MEM_AREA_VRAM_END {
            self.vram.set((loc - MEM_AREA_VRAM_START) as usize, byte);
        } else if MEM_AREA_OAM_START <= loc && loc <= MEM_AREA_OAM_END {
            self.oam_ram.set((loc - MEM_AREA_OAM_START) as usize, byte);
        } else if loc == MEM_LOC_LCDC {
            self.lcdc = byte;
        } else if loc == MEM_LOC_STAT {
            // Bits 3 to 5 select STAT interrupts on mode changes; they are not handled.
            self.stat = byte | 0x80;
        } else if loc == MEM_LOC_SCY {
            self.scy = byte;
        } else if loc == MEM_LOC_SCX {
            self.scx = byte;
        } else if loc == MEM_LOC_LYC {
            self.lyc = byte;
        } else if loc == MEM_LOC_BGP {
            self.bgp = byte;
        } else if loc == MEM_LOC_OBP0 {
            self.obp0 = byte;
        } else if loc == MEM_LOC_OBP1 {
            self.obp1 = byte;
        } else if loc == MEM_LOC_WY {
            self.wy = byte;
        } else {
            self.wx = byte;
        }
    }

    /// Copies a 160 byte block into OAM.
    pub fn dma_oam_transfer(&mut self, block: Vec<u8>)
        requires
            old(self).wf(),
            block@.len() == 0xA0,
        ensures
            final(self).wf(),
            final(self)@ == (VideoState { oam_ram: block@, ..old(self)@ }),
    {
        let mut i: usize = 0;
        while i < 0xA0
            invariant
                old(self).wf(),
                block@.len() == 0xA0,
                0 <= i <= 0xA0,
                self@ == (VideoState { oam_ram: self@.oam_ram, ..old(self)@ }),
                self@.oam_ram.len() == 0xA0,
                forall|j: int| 0 <= j < i ==> self@.oam_ram[j] == block@[j],
            decreases 0xA0 - i,
        {
            self.oam_ram.set(i, block[i]);
            i += 1;
        }
        assert(self.oam_ram@ =~= block@);
    }
}

impl Video {
    /// The shade code of a pixel of a background or window tile.
    #[verifier::spinoff_prover]
    #[verifier::rlimit(40)]
    fn tile_color(&self, tile_data_start: usize, map_start: usize, ly: u8, i: u32) -> (r: u8)
        requires
            self.wf(),
            tile_data_start == self@.tile_data_start(),
            map_start == 0x1800 || map_start == 0x1C00,
            i < 160,
        ensures
            r == self@.layer_pixel(map_start as int, ly, i as int),
            r <= 3,
    {
        let ghost s = self@;
        let ghost y = (ly + s.scy) % 256;
        let ghost x = (s.scx + i) % 256;
        // There are 32x32 tiles on the map: 256x256 pixels.
        let actual_ly = ly.wrapping_add(self.scy);
        assert(actual_ly == y);
        let tile_row = actual_ly / 8;
        let tile_y = actual_ly % 8;
        let actual_x = self.scx.wrapping_add(i as u8);
        assert(actual_x == x);
        let tile_col = actual_x / 8;
        let tile_x = actual_x % 8;
        let tile_data_i = tile_row as usize * 32 + tile_col as usize;
        assert(tile_data_i == (y / 8) * 32 + x / 8);
        let tile_i = self.vram[map_start + tile_data_i];
        let base = tile_data_start + tile_i as usize * 16 + tile_y as usize * 2;
        assert(base == s.tile_data_start() + tile_i * 16 + (y % 8) * 2);
        let tile_lo = self.vram[base];
        let tile_hi = self.vram[base + 1];
        let b_hi = bit(tile_hi, 7 - tile_x);
        let b_lo = bit(tile_lo, 7 - tile_x);
        proof {
                lemma_small_bits(b_hi, b_lo, 0, 0, 0);
            }
        (b_hi << 1u8) | b_lo
    }

    /// Fills line `ly` of the display from the tile map at `tile_map_start`, scrolled.
    #[verifier::rlimit(30)]
    fn draw_background_or_window_to_screen(&mut self, ly: u8, tile_map_start: u16)
        requires
            old(self).wf(),
            ly < 144,
            tile_map_start == 0x9800 || tile_map_start == 0x9C00,
        ensures
            final(self).wf(),
            final(self)@ == (VideoState {
                display: layer_line(old(self)@, tile_map_start - MEM_AREA_VRAM_START, ly),
                ..old(self)@
            }),
    {
        let tile_data_section_start = (self.backround_window_tile_data_section_start()
            - MEM_AREA_VRAM_START) as usize;
        let map_start = (tile_map_start - MEM_AREA_VRAM_START) as usize;
        let ghost s0 = self@;
        let row: usize = ly as usize * 160;

        let mut i: u32 = 0;
        while i < 160
            invariant
                s0 == old(self)@,
                s0.wf(),
                self.wf(),
                ly < 144,
                row == ly * 160,
                0 <= i <= 160,
                tile_data_section_start == s0.tile_data_start(),
                map_start == tile_map_start - MEM_AREA_VRAM_START,
                map_start == 0x1800 || map_start == 0x1C00,
                self@ == (VideoState { display: self@.display, ..s0 }),
                self@.display == Seq::new(
                    s0.display.len(),
                    |j: int|
                        if j / 160 == ly as int && j % 160 < i {
                            s0.layer_pixel(map_start as int, ly, j % 160)
                        } else {
                            s0.display[j]
                        },
                ),
            decreases 160 - i,
        {
            let color = self.tile_color(tile_data_section_start, map_start, ly, i);
            let ghost before = self@.display;
            self.display_buffer.set(row + i as usize, color);
            proof {
                assert forall|j: int| 0 <= j < DISPLAY_PIXELS_COUNT implies self@.display[j] == (
                if j / 160 == ly as int && j % 160 < i + 1 {
                    s0.layer_pixel(map_start as int, ly, j % 160)
                } else {
                    s0.display[j]
                }) by {
                    lemma_pixel_index(ly as int, i as int, j);
                }
                assert(self@.display =~= Seq::new(
                    s0.display.len(),
                    |j: int|
                        if j / 160 == ly as int && j % 160 < i + 1 {
                            s0.layer_pixel(map_start as int, ly, j % 160)
                        } else {
                            s0.display[j]
                        },
                ));
            }
            i += 1;
        }
        proof {
            assert(self@.display =~= layer_line(s0, map_start as int, ly));
        }
    }
}

impl Video {
    /// Draws the objects that reach line `ly`, 32 lines below it, without transparency.
    #[verifier::rlimit(40)]
    fn draw_objects_to_screen(&mut self, ly: u8)
        requires
            old(self).wf(),
            forall|i: int| 0 <= i < 40 ==> #[trigger] old(self)@.obj_draw_defined(ly, i),
        ensures
            final(self).wf(),
            final(self)@ == (VideoState {
                display: objs_fold(old(self)@, old(self)@.display, ly, 40),
                ..old(self)@
            }),
    {
        // Object attributes reside in the object attribute memory (OAM) at $FE00-FE9F.
        // In 8x16 mode (LCDC bit 2 = 1), the memory area at $8000-$8FFF is still read as
        // a series of 8x8 tiles, where every 2 tiles form an object.
        let tile_height: i16 = self.obj_tile_height();
        let ghost s0 = self@;

        let mut i: usize = 0;
        while i < 40
            invariant
                s0 == old(self)@,
                s0.wf(),
                self.wf(),
                forall|k: int| 0 <= k < 40 ==> #[trigger] s0.obj_draw_defined(ly, k),
                0 <= i <= 40,
                tile_height == s0.obj_height(),
                self@ == (VideoState { display: self@.display, ..s0 }),
                self@.display == objs_fold(s0, s0.display, ly, i as nat),
            decreases 40 - i,
        {
            let ghost buf0 = self@.display;
            let byte_y_pos = self.oam_ram[i * 4] as i16;
            let byte_x_pos = self.oam_ram[i * 4 + 1] as i16;
            if byte_y_pos - 16 + tile_height < ly as i16 || byte_y_pos - 16 > ly as i16
                || byte_x_pos - 8 <= 0 || byte_x_pos - 8 > 160 {
                // Not on this line, or horizontally out of screen.
                assert(!s0.obj_hit(ly, i as int));
                assert(obj_apply(s0, buf0, ly, i as int, 8) =~= buf0);
            } else {
                assert(s0.obj_hit(ly, i as int));
                assert(s0.obj_draw_defined(ly, i as int));
                let byte_tile_index = self.oam_ram[i * 4 + 2];
                let tile_start_addr = byte_tile_index as usize * tile_height as usize * 2;
                let y: i16 = ly as i16 - (byte_y_pos - 16);

                let row_lo = self.vram[tile_start_addr + y as usize * 2];
                let row_hi = self.vram[tile_start_addr + y as usize * 2 + 1];
                let mut x: u8 = 0;
                while x < 8
                    invariant
                        s0 == old(self)@,
                        s0.wf(),
                        self.wf(),
                        0 <= i < 40,
                        0 <= x <= 8,
                        s0.obj_hit(ly, i as int),
                        s0.obj_draw_defined(ly, i as int),
                        byte_x_pos == s0.oam_ram[i * 4 + 1],
                        byte_y_pos == s0.oam_ram[i * 4],
                        y == s0.obj_row(ly, i as int),
                        row_lo == s0.vram[s0.oam_ram[i * 4 + 2] * s0.obj_height() * 2
                            + s0.obj_row(ly, i as int) * 2],
                        row_hi == s0.vram[s0.oam_ram[i * 4 + 2] * s0.obj_height() * 2
                            + s0.obj_row(ly, i as int) * 2 + 1],
                        buf0 == objs_fold(s0, s0.display, ly, i as nat),
                        buf0.len() == DISPLAY_PIXELS_COUNT,
                        self@ == (VideoState { display: self@.display, ..s0 }),
                        self@.display == obj_apply(s0, buf0, ly, i as int, x as int),
                    decreases 8 - x,
                {
                    let b_hi = bit(row_hi, 7 - x);
                    let b_lo = bit(row_lo, 7 - x);
                    proof {
                lemma_small_bits(b_hi, b_lo, 0, 0, 0);
            }
                    let color = (b_hi << 1u8) | b_lo;
                    assert(color == s0.obj_color(ly, i as int, x as int));

                    let physical_x: i16 = byte_x_pos + 8 + x as i16;
                    let ghost before = self@.display;
                    if physical_x >= 0 && physical_x < 160 {
                        let physical_y: i16 = byte_y_pos + 16 + y;
                        assert(physical_y == ly + 32);
                        self.display_buffer.set(
                            physical_y as usize * 160 + physical_x as usize,
                            color,
                        );
                        proof {
                            assert forall|j: int| 0 <= j < DISPLAY_PIXELS_COUNT implies #[trigger] self@.display[j]
                                == obj_apply(s0, buf0, ly, i as int, x + 1)[j] by {
                                lemma_pixel_index(physical_y as int, physical_x as int, j);
                            }
                        }
                    }
                    proof {
                        assert(self@.display =~= obj_apply(s0, buf0, ly, i as int, x + 1));
                    }
                    x += 1;
                }
            }
            i += 1;
        }
    }

    /// Draws line `ly`: the background, the objects, then the window, as LCDC enables them.
    pub fn draw_line_to_screen(&mut self, ly: u8)
        requires
            old(self).wf(),
            draw_defined(old(self)@, ly),
        ensures
            final(self).wf(),
            final(self)@ == spec_draw_line(old(self)@, ly),
    {
        if self.is_background_window_display_priority() {
            let start = self.background_tile_map_display_section_start();
            self.draw_background_or_window_to_screen(ly, start);
        }

        if self.is_obj_sprite_display_enabled() {
            proof {
                assert forall|k: int| 0 <= k < 40 implies #[trigger] self@.obj_draw_defined(ly, k) by {
                    assert(old(self)@.obj_draw_defined(ly, k));
                }
            }
            self.draw_objects_to_screen(ly);
        }

        if self.is_window_display_enabled() {
            let start = self.window_tile_map_display_section_start();
            self.draw_background_or_window_to_screen(ly, start);
        }
    }
}

impl Video {
    /// Advances the video unit by `cpu_cycles` and gives back the interrupt mask it raises.
    #[must_use]
    pub fn update(&mut self, cpu_cycles: u64) -> (r: u8)
        requires
            old(self).wf(),
            update_defined(old(self)@, cpu_cycles),
        ensures
            final(self).wf(),
            (final(self)@, r) == spec_update(old(self)@, cpu_cycles),
    {
        if !self.is_lcd_display_enabled() {
            return 0;
        }

        self.stat_counter = self.stat_counter + cpu_cycles;
        proof {
            lemma_draw_defined_same(old(self)@, self@, self@.ly);
        }

        // Mode 2  2_____2_____2_____2_____2_____2___________________2____
        // Mode 3  _33____33____33____33____33____33__________________3___
        // Mode 0  ___000___000___000___000___000___000________________000
        // Mode 1  ____________________________________11111111111111_____
        match self.lcd_ppu_mode() {
            LcdPpuMode::M2 => self.update_m2(),
            LcdPpuMode::M3 => self.update_m3(),
            LcdPpuMode::M0 => self.update_m0(),
            LcdPpuMode::M1 => self.update_m1(),
        }
    }

    /// Searching for OBJs which overlap this line.
    fn update_m2(&mut self) -> (r: u8)
        requires
            old(self).wf(),
            old(self)@.mode() == 2,
        ensures
            final(self).wf(),
            (final(self)@, r) == step_m2(old(self)@),
    {
        let mut interrupt_mask: u8 = 0;
        if self.stat_counter >= 80 {
            self.stat_counter = self.stat_counter - 80;
            // Mode to 3.
            if self.set_lcd_stat_ppu_mode(3) {
                interrupt_mask = VIDEO_RESULT_MASK_STAT_INTERRUPT;
            }
        }
        interrupt_mask
    }

    /// Sending pixels to the LCD.
    fn update_m3(&mut self) -> (r: u8)
        requires
            old(self).wf(),
            old(self)@.mode() == 3,
            old(self)@.stat_counter >= 204 ==> draw_defined(old(self)@, old(self)@.ly),
        ensures
            final(self).wf(),
            (final(self)@, r) == step_m3(old(self)@),
    {
        let mut interrupt_mask: u8 = 0;
        // Todo: 172 to 289 dots, depending on object count
        let m3_len: u64 = 204;
        if self.stat_counter >= m3_len {
            self.stat_counter = self.stat_counter - m3_len;

            self.prev_m3_len = m3_len;
            proof {
                lemma_draw_defined_same(old(self)@, self@, self@.ly);
            }

            self.draw_line_to_screen(self.ly);

            // Mode to 0.
            if self.set_lcd_stat_ppu_mode(0) {
                interrupt_mask = VIDEO_RESULT_MASK_STAT_INTERRUPT;
            }
        }
        interrupt_mask
    }

    /// Waiting until the end of the scanline.
    fn update_m0(&mut self) -> (r: u8)
        requires
            old(self).wf(),
            old(self)@.mode() == 0,
            old(self)@.stat_counter >= 87 + 289 - old(self)@.prev_m3_len ==> old(self)@.ly < 255,
        ensures
            final(self).wf(),
            (final(self)@, r) == step_m0(old(self)@),
    {
        let mut interrupt_mask: u8 = 0;
        // Todo: 87 to 204 dots (I assume depending on object count, reverse (vs M3))
        let m0_len: u64 = 87 + 289 - self.prev_m3_len;

        if self.stat_counter >= m0_len {
            self.stat_counter = self.stat_counter - m0_len;

            // Increase LY.
            self.update_ly(self.ly + 1, &mut interrupt_mask);
            let ghost m = interrupt_mask;
            proof {
                lemma_small_bits(0, 0, 0, 0, m);
            }

            if self.ly < 144 {
                // Mode to 2.
                if self.set_lcd_stat_ppu_mode(2) {
                    interrupt_mask = interrupt_mask | VIDEO_RESULT_MASK_STAT_INTERRUPT;
                }
            } else {
                // Mode to 1.
                if self.set_lcd_stat_ppu_mode(1) {
                    interrupt_mask = interrupt_mask | VIDEO_RESULT_MASK_STAT_INTERRUPT;
                }
                interrupt_mask = interrupt_mask | VIDEO_RESULT_MASK_VBLANK_INTERRUPT;
            }
        }
        interrupt_mask
    }

    /// Waiting until the next frame.
    fn update_m1(&mut self) -> (r: u8)
        requires
            old(self).wf(),
            old(self)@.mode() == 1,
        ensures
            final(self).wf(),
            (final(self)@, r) == step_m1(old(self)@),
    {
        let mut interrupt_mask: u8 = 0;
        if self.stat_counter >= 4560 {
            self.stat_counter = self.stat_counter - 4560;

            self.update_ly(0, &mut interrupt_mask);
            let ghost m = interrupt_mask;
            proof {
                lemma_small_bits(0, 0, 0, 0, m);
            }

            // Mode to 2.
            if self.set_lcd_stat_ppu_mode(2) {
                interrupt_mask = interrupt_mask | VIDEO_RESULT_MASK_STAT_INTERRUPT;
            }

            self.ensure_fps();
        } else {
            assert(self.stat_counter / 456 < 10);
            self.update_ly(144 + (self.stat_counter / 456) as u8, &mut interrupt_mask);
        }
        interrupt_mask
    }

    /// Whether drawing object `i` for line `ly` is defined.
    fn is_obj_draw_defined(&self, ly: u8, i: usize) -> (r: bool)
        requires
            self.wf(),
            i < 40,
        ensures
            r == self@.obj_draw_defined(ly, i as int),
    {
        let tile_height = self.obj_tile_height();
        let byte_y_pos = self.oam_ram[i * 4] as i16;
        let byte_x_pos = self.oam_ram[i * 4 + 1] as i16;
        if byte_y_pos - 16 + tile_height < ly as i16 || byte_y_pos - 16 > ly as i16
            || byte_x_pos - 8 <= 0 || byte_x_pos - 8 > 160 {
            true
        } else {
            let y: i16 = ly as i16 - (byte_y_pos - 16);
            y < tile_height && (byte_x_pos >= 152 || (ly as u16) + 32 < 144)
        }
    }

    /// Whether drawing line `ly` is defined.
    pub fn is_draw_defined(&self, ly: u8) -> (r: bool)
        requires
            self.wf(),
        ensures
            r == draw_defined(self@, ly),
    {
        if (self.is_background_window_display_priority() || self.is_window_display_enabled())
            && ly >= 144 {
            return false;
        }
        if !self.is_obj_sprite_display_enabled() {
            return true;
        }
        let mut i: usize = 0;
        while i < 40
            invariant
                self.wf(),
                0 <= i <= 40,
                bit_of(self@.lcdc, 1),
                bit_of(self@.lcdc, 0) || bit_of(self@.lcdc, 5) ==> ly < 144,
                forall|k: int| 0 <= k < i ==> #[trigger] self@.obj_draw_defined(ly, k),
            decreases 40 - i,
        {
            if !self.is_obj_draw_defined(ly, i) {
                return false;
            }
            i += 1;
        }
        true
    }

    /// Whether `update(cpu_cycles)` is defined.
    pub fn is_update_defined(&self, cpu_cycles: u64) -> (r: bool)
        requires
            self.wf(),
        ensures
            r == update_defined(self@, cpu_cycles),
    {
        if !self.is_lcd_display_enabled() {
            return true;
        }
        if self.stat_counter > u64::MAX - cpu_cycles {
            return false;
        }
        let c = self.stat_counter + cpu_cycles;
        let mode = self.stat & 0b11;
        if mode == 0 && c >= 87 + 289 - self.prev_m3_len {
            self.ly < 255
        } else if mode == 3 && c >= 204 {
            self.is_draw_defined(self.ly)
        } else {
            true
        }
    }

    /// A frame ended: unless the limiter is off, ask whoever runs the loop to wait for the
    /// frame time.
    fn ensure_fps(&mut self)
        ensures
            final(self)@ == (VideoState {
                frame_sync_due: old(self)@.frame_sync_due || !old(self)@.ignore_fps_limiter,
                ..old(self)@
            }),
    {
        if self.ignore_fps_limiter {
            return;
        }
        self.frame_sync_due = true;
    }
}

impl Video {
    /// The RGBA color of a shade code.
    fn pixel_color(&self, code: u8) -> (r: [u8; 4])
        requires
            code <= 3,
        ensures
            r == SHADES[code as int],
    {
        match code {
            0b11 => [0x10, 0x40, 0x20, 0xff],
            0b10 => [0x10, 0x80, 0x40, 0xff],
            0b01 => [0x10, 0xa0, 0x50, 0xff],
            _ => [0x10, 0xf0, 0x80, 0xff],
        }
    }

    /// Draws all 384 tiles of VRAM into an RGBA frame 128 pixels wide (16 tiles) and 192
    /// pixels tall (24 tiles), tiles in VRAM order.
    pub fn draw_debug_tiles(&self, frame: &mut [u8])
        requires
            self.wf(),
            old(frame)@.len() >= DEBUG_TILES_FRAME_SIZE,
        ensures
            final(frame)@ == debug_tiles_frame(self@.vram, old(frame)@),
    {
        let ghost f0 = frame@;
        let mut p: usize = 0;
        while p < DEBUG_TILES_FRAME_SIZE / 4
            invariant
                self.wf(),
                f0 == old(frame)@,
                f0.len() >= DEBUG_TILES_FRAME_SIZE,
                0 <= p <= DEBUG_TILES_FRAME_SIZE / 4,
                frame@.len() == f0.len(),
                forall|k: int|
                    0 <= k < f0.len() ==> #[trigger] frame@[k] == (if k < 4 * p {
                        SHADES[tile_sheet_code(self@.vram, k / 4) as int]@[k % 4]
                    } else {
                        f0[k]
                    }),
            decreases DEBUG_TILES_FRAME_SIZE / 4 - p,
        {
            let row = p / 128;
            let col = p % 128;
            // 8x8 pixel with 2bpp = 16 bytes per tile.
            let vram_pos = ((row / 8) * 16 + col / 8) * 16 + (row % 8) * 2;
            let byte1 = self.vram[vram_pos];
            let byte2 = self.vram[vram_pos + 1];
            let sprite_x = (col % 8) as u8;
            let b_hi = bit(byte2, 7 - sprite_x);
            let b_lo = bit(byte1, 7 - sprite_x);
            proof {
                lemma_small_bits(b_hi, b_lo, 0, 0, 0);
            }
            let gb_pixel_color = (b_hi << 1u8) | b_lo;
            assert(gb_pixel_color == tile_sheet_code(self@.vram, p as int));
            let pixel_color = self.pixel_color(gb_pixel_color);
            let ghost before = frame@;
            put_frame_pixel(frame, p, pixel_color);
            proof {
                assert forall|k: int| 0 <= k < f0.len() implies #[trigger] frame@[k] == (if k < 4 * (
                p + 1) {
                    SHADES[tile_sheet_code(self@.vram, k / 4) as int]@[k % 4]
                } else {
                    f0[k]
                }) by {
                    lemma_channel_index(p as int, k);
                    assert(before[k] == before[k]);
                }
            }
            p += 1;
        }
        assert(frame@ =~= debug_tiles_frame(self@.vram, f0));
    }

    /// Draws the display into an RGBA frame of 160 x 144 pixels.
    pub fn draw_display(&self, frame: &mut [u8])
        requires
            self.wf(),
            old(frame)@.len() >= DISPLAY_FRAME_SIZE,
        ensures
            final(frame)@ == display_frame(self@.display, old(frame)@),
    {
        let ghost f0 = frame@;
        let mut p: usize = 0;
        while p < DISPLAY_PIXELS_COUNT
            invariant
                self.wf(),
                f0 == old(frame)@,
                f0.len() >= DISPLAY_FRAME_SIZE,
                0 <= p <= DISPLAY_PIXELS_COUNT,
                frame@.len() == f0.len(),
                forall|k: int|
                    0 <= k < f0.len() ==> #[trigger] frame@[k] == (if k < 4 * p {
                        SHADES[self@.display[k / 4] as int]@[k % 4]
                    } else {
                        f0[k]
                    }),
            decreases DISPLAY_PIXELS_COUNT - p,
        {
            let pixel_color = self.pixel_color(self.display_buffer[p]);
            let ghost before = frame@;
            put_frame_pixel(frame, p, pixel_color);
            proof {
                assert forall|k: int| 0 <= k < f0.len() implies #[trigger] frame@[k] == (if k < 4 * (
                p + 1) {
                    SHADES[self@.display[k / 4] as int]@[k % 4]
                } else {
                    f0[k]
                }) by {
                    lemma_channel_index(p as int, k);
                    assert(before[k] == before[k]);
                }
            }
            p += 1;
        }
        assert(frame@ =~= display_frame(self@.display, f0));
    }
}

/// Every address the video unit takes a write at reads back what was written; STAT reads its
/// unused bit 7 as set.
pub proof fn lemma_video_write_then_read(s: VideoState, loc: u16, byte: u8)
    requires
        s.wf(),
        write_defined(loc, byte),
    ensures
        spec_video_read(spec_video_write(s, loc, byte), loc) == (if loc == MEM_LOC_STAT {
            byte | 0x80
        } else {
            byte
        }),
{
}

} // verus!
