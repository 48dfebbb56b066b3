//! A DMG GameBoy emulator core: CPU registers and ALU, cartridge banking,
//! memory bus, timer, joypad, video, sound registers, the debugger prompt,
//! the keyboard mapping and the instruction interpreter.
pub mod conf;
pub mod bits;
pub mod util;
pub mod cpu;
pub mod cartridge;
pub mod mmu;
pub mod mem;
pub mod timer;
pub mod joypad;
pub mod serial;
pub mod debugger;
pub mod ppu;
pub mod video;
pub mod apu;
pub mod sound;
pub mod vm;
pub mod instr;
pub mod input;
