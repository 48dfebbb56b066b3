# lameboy

A GameBoy DMG emulator whose core is verified with Verus.

- `src/` is the emulator core, each function with its contract:
  - `cpu`, `instr`: registers, ALU, and the whole instruction set as a function from machine
    state to machine state; `vm`: the machine, one step at a time, with interrupts, delayed
    commands, the memory map and the I/O registers.
  - `cartridge`, `mmu`, `mem`: ROM-only and MBC1 cartridges, boot ROM, work and high RAM.
  - `ppu`, `video`: the picture processing unit, its line drawing and debug views.
  - `apu`, `sound`: the sound registers and what each channel is to play.
  - `timer`, `joypad`, `serial`, `input`, `debugger`, `util`, `bits`, `conf`.
- `app/` is the program: command line, files, windows, keyboard and sound through SDL, the
  debugger prompt on the terminal, and the frame pacing.
- `tests/` runs the library on concrete values.

Keyboard: arrows, `Z`/`X` (Start/Select), `N`/`M` (A/B), `B` to break, `I` for the debug
log, `1`/`2`/`3` for the tile, background and window views, `Esc` to quit. The boot ROM is
read from `assets/dmg_boot.bin`.
