use vstd::prelude::*;

verus! {

pub const DISPLAY_WIDTH: u32 = 160;
pub const DISPLAY_HEIGHT: u32 = 144;
pub const DISPLAY_PIXELS_COUNT: usize = 23040;

pub const FPS: u32 = 60;
pub const SECOND_IN_MICROSECOND: u32 = 1_000_000;
pub const ONE_FRAME_IN_MICROSECONDS: u32 = 16666;

pub const CYCLE_PER_MCYCLE: u8 = 4;

/// Cycles per second.
pub const CPU_HZ: u32 = 4194304;

/// Cycles between two increments of the DIV register (16384 Hz).
pub const DIV_REG_UPDATE_PER_MCYCLE: u32 = 256;

/// 16 KiB ROM bank 00: from cartridge, usually a fixed bank.
pub const MEM_AREA_ROM_BANK_0_START: u16 = 0x0000;
pub const MEM_AREA_ROM_BANK_0_END: u16 = 0x3FFF;

/// 16 KiB ROM Bank 01~NN: from cartridge, switchable bank via mapper (if any).
pub const MEM_AREA_ROM_BANK_N_START: u16 = 0x4000;
pub const MEM_AREA_ROM_BANK_N_END: u16 = 0x7FFF;

/// 8 KiB PPU RAM (VRAM).
pub const MEM_AREA_VRAM_START: u16 = 0x8000;
pub const MEM_AREA_VRAM_END: u16 = 0x9FFF;

/// 8 KiB External RAM: from cartridge, switchable bank if any.
pub const MEM_AREA_EXTERNAL_START: u16 = 0xA000;
pub const MEM_AREA_EXTERNAL_END: u16 = 0xBFFF;

/// 4 KiB Work RAM (WRAM).
pub const MEM_AREA_WRAM_START: u16 = 0xC000;
pub const MEM_AREA_WRAM_END: u16 = 0xDFFF;

/// Mirror of C000~DDFF (ECHO RAM): use of this area is prohibited.
pub const MEM_AREA_ECHO_END: u16 = 0xFDFF;

/// Sprite attribute table (OAM).
pub const MEM_AREA_OAM_START: u16 = 0xFE00;
pub const MEM_AREA_OAM_END: u16 = 0xFE9F;

/// Not usable.
pub const MEM_AREA_PROHIBITED_START: u16 = 0xFEA0;
pub const MEM_AREA_PROHIBITED_END: u16 = 0xFEFF;

/// I/O Registers.
pub const MEM_AREA_IO_START: u16 = 0xFF00;
pub const MEM_AREA_IO_END: u16 = 0xFF7F;

/// High RAM (HRAM).
pub const MEM_AREA_HRAM_START: u16 = 0xFF80;
pub const MEM_AREA_HRAM_END: u16 = 0xFFFE;

pub const MEM_LOC_P1: u16 = 0xFF00;
pub const MEM_LOC_SB: u16 = 0xFF01;
pub const MEM_LOC_SC: u16 = 0xFF02;
pub const MEM_LOC_DIV: u16 = 0xFF04;
pub const MEM_LOC_TIMA: u16 = 0xFF05;
pub const MEM_LOC_TMA: u16 = 0xFF06;
pub const MEM_LOC_TAC: u16 = 0xFF07;
pub const MEM_LOC_IF: u16 = 0xFF0F;

pub const MEM_LOC_NR10: u16 = 0xFF10;
pub const MEM_LOC_NR11: u16 = 0xFF11;
pub const MEM_LOC_NR12: u16 = 0xFF12;
pub const MEM_LOC_NR13: u16 = 0xFF13;
pub const MEM_LOC_NR14: u16 = 0xFF14;
pub const MEM_LOC_NR21: u16 = 0xFF16;
pub const MEM_LOC_NR22: u16 = 0xFF17;
pub const MEM_LOC_NR23: u16 = 0xFF18;
pub const MEM_LOC_NR24: u16 = 0xFF19;
pub const MEM_LOC_NR30: u16 = 0xFF1A;
pub const MEM_LOC_NR31: u16 = 0xFF1B;
pub const MEM_LOC_NR32: u16 = 0xFF1C;
pub const MEM_LOC_NR33: u16 = 0xFF1D;
pub const MEM_LOC_NR34: u16 = 0xFF1E;
pub const MEM_LOC_NR41: u16 = 0xFF20;
pub const MEM_LOC_NR42: u16 = 0xFF21;
pub const MEM_LOC_NR43: u16 = 0xFF22;
pub const MEM_LOC_NR44: u16 = 0xFF23;
pub const MEM_LOC_NR50: u16 = 0xFF24;
pub const MEM_LOC_NR51: u16 = 0xFF25;
pub const MEM_LOC_NR52: u16 = 0xFF26;
pub const MEM_LOC_WAVE_PATTERN_START: u16 = 0xFF30;
pub const MEM_LOC_WAVE_PATTERN_END: u16 = 0xFF3F;

pub const MEM_LOC_LCDC: u16 = 0xFF40;
pub const MEM_LOC_STAT: u16 = 0xFF41;
pub const MEM_LOC_SCY: u16 = 0xFF42;
pub const MEM_LOC_SCX: u16 = 0xFF43;
pub const MEM_LOC_LY: u16 = 0xFF44;
pub const MEM_LOC_LYC: u16 = 0xFF45;
pub const MEM_LOC_DMA: u16 = 0xFF46;
pub const MEM_LOC_BGP: u16 = 0xFF47;
pub const MEM_LOC_OBP0: u16 = 0xFF48;
pub const MEM_LOC_OBP1: u16 = 0xFF49;
pub const MEM_LOC_WY: u16 = 0xFF4A;
pub const MEM_LOC_WX: u16 = 0xFF4B;
pub const MEM_LOC_KEY1: u16 = 0xFF4D;
pub const MEM_LOC_VBK: u16 = 0xFF4F;
pub const MEM_LOC_BOOT_LOCK_REG: u16 = 0xFF50;
pub const MEM_LOC_HDMA1: u16 = 0xFF51;
pub const MEM_LOC_HDMA2: u16 = 0xFF52;
pub const MEM_LOC_HDMA3: u16 = 0xFF53;
pub const MEM_LOC_HDMA4: u16 = 0xFF54;
pub const MEM_LOC_HDMA5: u16 = 0xFF55;
pub const MEM_LOC_RP: u16 = 0xFF56;
pub const MEM_LOC_BCPS: u16 = 0xFF68;
pub const MEM_LOC_BCPD: u16 = 0xFF69;
pub const MEM_LOC_OCPS: u16 = 0xFF6A;
pub const MEM_LOC_OCPD: u16 = 0xFF6B;
pub const MEM_LOC_SVBK: u16 = 0xFF70;

pub const MEM_LOC_IE: u16 = 0xFFFF;

pub const BIOS_SIZE: usize = 0x100;

/// From the start of VRAM to the end of OAM.
pub const VRAM_SIZE: usize = 0x7EA0;
pub const WRAM_SIZE: usize = 0x2000;
pub const OAM_RAM_SIZE: usize = 0xA0;

/// Errors that the emulated machine reports instead of going on.
#[derive(Debug, Clone, Copy, PartialEq, Eq, Structural)]
pub enum Error {
    /// A read from an address that no component serves.
    UnimplementedRead(u16),
    /// A write to an address that no component serves.
    UnimplementedWrite(u16),
    /// A switchable ROM bank read that the controller refused.
    CartridgeBankRead,
    /// A cartridge RAM read while RAM access is disabled.
    CartridgeRamRead,
    /// An address outside of the cartridge.
    CartridgeAddr(u16),
    /// A P1 write that selects both button groups: never produced, kept for completeness.
    InvalidP1(u8),
    /// A write into the switchable ROM bank area.
    RomBankNWrite,
    /// A write into echo RAM.
    EchoWrite,
    /// A read from the prohibited area.
    ProhibitedRead(u16),
    /// The boot lock register only takes 1 (which unmaps the boot ROM) or 0 (which does nothing).
    BootLockValue(u8),
    /// Emulation cannot go on: the program reached an unsupported register (its address is
    /// given), an invalid opcode, a jump offset of -128 or an address that wraps around.
    Unsupported(u16),
}

} // verus!

verus! {

/// Cycles between two TIMA increments, indexed by the two low bits of TAC.
pub const TIMA_UPDATE_PER_MCYCLE: [u32; 4] = [1024u32, 16u32, 64u32, 256u32];

/// RGBA color of each of the four GameBoy shades, lightest first. No two shades share a
/// red, green or blue value, so one component tells them apart.
pub const PALETTE: [[u8; 4]; 4] = [
    [0xe0u8, 0xf8u8, 0xd0u8, 0xffu8],
    [0x88u8, 0xc0u8, 0x70u8, 0xffu8],
    [0x34u8, 0x68u8, 0x56u8, 0xffu8],
    [0x08u8, 0x18u8, 0x20u8, 0xffu8],
];

} // verus!

verus! {

/// Machine cycles of each opcode (the conditional ones when they branch).
pub const OPCODE_MCYCLE: [u8; 256] = [
    1, 3, 2, 2, 1, 1, 2, 1, 5, 2, 2, 2, 1, 1, 2, 1,
    1, 3, 2, 2, 1, 1, 2, 1, 3, 2, 2, 2, 1, 1, 2, 1,
    3, 3, 2, 2, 1, 1, 2, 1, 3, 2, 2, 2, 1, 1, 2, 1,
    3, 3, 2, 2, 3, 3, 3, 1, 3, 2, 2, 2, 1, 1, 2, 1,
    1, 1, 1, 1, 1, 1, 2, 1, 1, 1, 1, 1, 1, 1, 2, 1,
    1, 1, 1, 1, 1, 1, 2, 1, 1, 1, 1, 1, 1, 1, 2, 1,
    1, 1, 1, 1, 1, 1, 2, 1, 1, 1, 1, 1, 1, 1, 2, 1,
    2, 2, 2, 2, 2, 2, 1, 2, 1, 1, 1, 1, 1, 1, 2, 1,
    1, 1, 1, 1, 1, 1, 2, 1, 1, 1, 1, 1, 1, 1, 2, 1,
    1, 1, 1, 1, 1, 1, 2, 1, 1, 1, 1, 1, 1, 1, 2, 1,
    1, 1, 1, 1, 1, 1, 2, 1, 1, 1, 1, 1, 1, 1, 2, 1,
    1, 1, 1, 1, 1, 1, 2, 1, 1, 1, 1, 1, 1, 1, 2, 1,
    5, 3, 4, 4, 6, 4, 2, 4, 5, 4, 4, 1, 6, 6, 2, 4,
    5, 3, 4, 0, 6, 4, 2, 4, 5, 4, 4, 0, 6, 0, 2, 4,
    3, 3, 2, 0, 0, 4, 2, 4, 4, 1, 4, 0, 0, 0, 2, 4,
    3, 3, 2, 1, 0, 4, 2, 4, 3, 2, 4, 1, 0, 0, 2, 4,
];

/// Machine cycles of the conditional opcodes when they do not branch.
pub const OPCODE_MCYCLE_ALT: [u8; 256] = [
    0, 0, 0, 0, 0, 0, 0, 0, 0, 0, 0, 0, 0, 0, 0, 0,
    0, 0, 0, 0, 0, 0, 0, 0, 0, 0, 0, 0, 0, 0, 0, 0,
    2, 0, 0, 0, 0, 0, 0, 0, 2, 0, 0, 0, 0, 0, 0, 0,
    2, 0, 0, 0, 0, 0, 0, 0, 2, 0, 0, 0, 0, 0, 0, 0,
    0, 0, 0, 0, 0, 0, 0, 0, 0, 0, 0, 0, 0, 0, 0, 0,
    0, 0, 0, 0, 0, 0, 0, 0, 0, 0, 0, 0, 0, 0, 0, 0,
    0, 0, 0, 0, 0, 0, 0, 0, 0, 0, 0, 0, 0, 0, 0, 0,
    0, 0, 0, 0, 0, 0, 0, 0, 0, 0, 0, 0, 0, 0, 0, 0,
    0, 0, 0, 0, 0, 0, 0, 0, 0, 0, 0, 0, 0, 0, 0, 0,
    0, 0, 0, 0, 0, 0, 0, 0, 0, 0, 0, 0, 0, 0, 0, 0,
    0, 0, 0, 0, 0, 0, 0, 0, 0, 0, 0, 0, 0, 0, 0, 0,
    0, 0, 0, 0, 0, 0, 0, 0, 0, 0, 0, 0, 0, 0, 0, 0,
    2, 0, 3, 0, 3, 0, 0, 0, 2, 0, 3, 0, 3, 0, 0, 0,
    2, 0, 3, 0, 3, 0, 0, 0, 2, 0, 3, 0, 3, 0, 0, 0,
    0, 0, 0, 0, 0, 0, 0, 0, 0, 0, 0, 0, 0, 0, 0, 0,
    0, 0, 0, 0, 0, 0, 0, 0, 0, 0, 0, 0, 0, 0, 0, 0,
];

/// Machine cycles of the opcodes after the 0xCB prefix.
pub const OPCODE_MCYCLE_PREFIX: [u8; 256] = [
    2, 2, 2, 2, 2, 2, 4, 2, 2, 2, 2, 2, 2, 2, 4, 2,
    2, 2, 2, 2, 2, 2, 4, 2, 2, 2, 2, 2, 2, 2, 4, 2,
    2, 2, 2, 2, 2, 2, 4, 2, 2, 2, 2, 2, 2, 2, 4, 2,
    2, 2, 2, 2, 2, 2, 4, 2, 2, 2, 2, 2, 2, 2, 4, 2,
    2, 2, 2, 2, 2, 2, 4, 2, 2, 2, 2, 2, 2, 2, 4, 2,
    2, 2, 2, 2, 2, 2, 4, 2, 2, 2, 2, 2, 2, 2, 4, 2,
    2, 2, 2, 2, 2, 2, 4, 2, 2, 2, 2, 2, 2, 2, 4, 2,
    2, 2, 2, 2, 2, 2, 4, 2, 2, 2, 2, 2, 2, 2, 4, 2,
    2, 2, 2, 2, 2, 2, 4, 2, 2, 2, 2, 2, 2, 2, 4, 2,
    2, 2, 2, 2, 2, 2, 4, 2, 2, 2, 2, 2, 2, 2, 4, 2,
    2, 2, 2, 2, 2, 2, 4, 2, 2, 2, 2, 2, 2, 2, 4, 2,
    2, 2, 2, 2, 2, 2, 4, 2, 2, 2, 2, 2, 2, 2, 4, 2,
    2, 2, 2, 2, 2, 2, 4, 2, 2, 2, 2, 2, 2, 2, 4, 2,
    2, 2, 2, 2, 2, 2, 4, 2, 2, 2, 2, 2, 2, 2, 4, 2,
    2, 2, 2, 2, 2, 2, 4, 2, 2, 2, 2, 2, 2, 2, 4, 2,
    2, 2, 2, 2, 2, 2, 4, 2, 2, 2, 2, 2, 2, 2, 4, 2,
];

} // verus!
