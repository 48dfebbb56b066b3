use vstd::prelude::*;

use crate::apu::{apu_write_defined, Apu};
use crate::cartridge::Cartridge;
use crate::conf::{
    Error, BIOS_SIZE, CYCLE_PER_MCYCLE, MEM_AREA_ECHO_END, MEM_AREA_EXTERNAL_END, MEM_AREA_HRAM_END, MEM_AREA_IO_END,
    MEM_AREA_OAM_END, MEM_AREA_PROHIBITED_END, MEM_AREA_ROM_BANK_0_END,
    MEM_AREA_ROM_BANK_N_END, MEM_AREA_VRAM_END, MEM_AREA_WRAM_END, MEM_LOC_BOOT_LOCK_REG,
    MEM_LOC_DIV, MEM_LOC_DMA, MEM_LOC_IF, MEM_LOC_KEY1, MEM_LOC_LCDC, MEM_LOC_LY, MEM_LOC_NR10,
    MEM_LOC_NR52, MEM_LOC_P1, MEM_LOC_SB, MEM_LOC_SC, MEM_LOC_TAC, MEM_LOC_TIMA, MEM_LOC_TMA,
    MEM_LOC_WX, MEM_AREA_HRAM_START, MEM_AREA_WRAM_START, WRAM_SIZE,
};
use crate::bits::{lemma_u16, lemma_u8, lemma_word_of};
use crate::cpu::Cpu;
use crate::instr::{spec_exec_op, spec_tick, with_cpu};
use crate::debugger::{Debugger, DebuggerState};
use crate::joypad::{p1_of, selector_of, Joypad, JoypadState};
use crate::mmu::{Mmu, MmuState};
use crate::ppu::{
    bit_of, spec_ppu_read, spec_ppu_write, spec_update, update_defined, PpuState, PPU,
    VIDEO_RESULT_MASK_STAT_INTERRUPT, VIDEO_RESULT_MASK_VBLANK_INTERRUPT,
};
use crate::serial::Serial;
use crate::timer::{Timer, TimerState};
use crate::util::{is_bit, SizedQueue};

verus! {

/// A change of the interrupt master enable flag that takes effect later.
#[derive(Clone, Copy, PartialEq, Eq, Structural, Debug)]
pub enum DelayedOp {
    MasterInterruptEnable,
    MasterInterruptDisable,
}

/// A delayed operation and the number of steps left before it applies.
#[derive(Clone, Copy, PartialEq, Eq, Structural, Debug)]
pub struct DelayedCommand {
    pub cycle_delay: usize,
    pub op: DelayedOp,
}

impl DelayedCommand {
    pub fn new(cycle_delay: usize, op: DelayedOp) -> (r: DelayedCommand)
        ensures
            r == (DelayedCommand { cycle_delay, op }),
    {
        DelayedCommand { cycle_delay, op }
    }

    pub fn dec(&mut self)
        requires
            old(self).cycle_delay > 0,
        ensures
            *final(self) == (DelayedCommand {
                cycle_delay: (old(self).cycle_delay - 1) as usize,
                ..*old(self)
            }),
    {
        self.cycle_delay -= 1;
    }

    pub fn is_ready(&self) -> (r: bool)
        ensures
            r == (self.cycle_delay == 0),
    {
        self.cycle_delay == 0
    }
}

/// Whether the CPU runs.
#[derive(Clone, Copy, PartialEq, Eq, Structural, Debug)]
pub enum State {
    Running,
    // Power down CPU until an interrupt occurs. Use this when ever possible to reduce energy consumption.
    Halt,
    // Halt CPU & LCD display until button pressed.
    Stop,
}

/// The five interrupt sources, highest priority first.
#[derive(Clone, Copy, PartialEq, Eq, Structural, Debug)]
pub enum Interrupt {
    VBlank,
    LCD,
    Timer,
    Serial,
    Joypad,
}

impl Interrupt {
    pub open spec fn spec_addr(&self) -> u16 {
        match self {
            Interrupt::VBlank => 0x40,
            Interrupt::LCD => 0x48,
            Interrupt::Timer => 0x50,
            Interrupt::Serial => 0x58,
            Interrupt::Joypad => 0x60,
        }
    }

    pub open spec fn spec_bit(&self) -> u8 {
        match self {
            Interrupt::VBlank => 0,
            Interrupt::LCD => 1,
            Interrupt::Timer => 2,
            Interrupt::Serial => 3,
            Interrupt::Joypad => 4,
        }
    }

    /// The address of the interrupt's handler.
    pub fn addr(&self) -> (r: u16)
        ensures
            r == self.spec_addr(),
    {
        match self {
            Interrupt::VBlank => 0x40,
            Interrupt::LCD => 0x48,
            Interrupt::Timer => 0x50,
            Interrupt::Serial => 0x58,
            Interrupt::Joypad => 0x60,
        }
    }

    /// The interrupt's bit in IE and IF.
    pub fn bit(&self) -> (r: u8)
        ensures
            r == self.spec_bit(),
    {
        match self {
            Interrupt::VBlank => 0,
            Interrupt::LCD => 1,
            Interrupt::Timer => 2,
            Interrupt::Serial => 3,
            Interrupt::Joypad => 4,
        }
    }
}

/// The whole machine as contracts see it.
pub struct VmState {
    pub cpu: Cpu,
    pub mmu: MmuState,
    pub ppu: PpuState,
    pub timer: TimerState,
    pub apu: Apu,
    pub joypad: JoypadState,
    pub debugger: DebuggerState,
    pub ime: bool,
    pub ie: u8,
    pub iflag: u8,
    pub state: State,
    pub counter: u64,
    pub delayed_cmds: Seq<DelayedCommand>,
    pub op_history: Seq<(u16, u8)>,
    pub deep_op_history: Seq<(u64, u16, u8)>,
}

/// The outcome `o` of a step is what `after` and `r` show; where `o` is `None` the step cannot
/// be emulated, and the result says so.
pub open spec fn outcome<T>(o: Option<(VmState, Result<T, Error>)>, after: VmState, r: Result<T, Error>) -> bool {
    match o {
        Some((s, v)) => after == s && r == v,
        None => r matches Err(Error::Unsupported(_)),
    }
}

/// The outcome of a read.
pub open spec fn read_outcome(o: Option<Result<u8, Error>>, r: Result<u8, Error>) -> bool {
    match o {
        Some(v) => r == v,
        None => r matches Err(Error::Unsupported(_)),
    }
}

/// Runs `f` on the state and value that `o` leaves, passing errors and faults on.
pub open spec fn then<A, B>(
    o: Option<(VmState, Result<A, Error>)>,
    f: spec_fn(VmState, A) -> Option<(VmState, Result<B, Error>)>,
) -> Option<(VmState, Result<B, Error>)> {
    match o {
        None => None,
        Some((s, Err(e))) => Some((s, Err(e))),
        Some((s, Ok(a))) => f(s, a),
    }
}

/// What a read of an I/O register gives; `None` for the registers that are not emulated.
#[verifier::opaque]
pub open spec fn io_read(s: VmState, loc: u16) -> Option<Result<u8, Error>> {
    if loc == MEM_LOC_P1 {
        Some(Ok(p1_of(s.joypad.selector, s.joypad.buttons)))
    } else if loc == MEM_LOC_DIV {
        Some(Ok(s.timer.div))
    } else if loc == MEM_LOC_TIMA {
        Some(Ok(s.timer.tima))
    } else if loc == MEM_LOC_TMA {
        Some(Ok(s.timer.tma))
    } else if loc == MEM_LOC_TAC {
        Some(Ok(s.timer.tac))
    } else if loc == MEM_LOC_IF {
        Some(Ok(s.iflag))
    } else if MEM_LOC_NR10 <= loc <= MEM_LOC_NR52 {
        Some(s.apu.spec_read(loc))
    } else if MEM_LOC_LCDC <= loc <= MEM_LOC_WX && loc != MEM_LOC_DMA {
        Some(Ok(spec_ppu_read(s.ppu, loc)))
    } else if loc == MEM_LOC_KEY1 {
        // KEY1 (CGB mode only): prepare speed switch, ignored.
        Some(Ok(0xFF))
    } else if loc == MEM_LOC_BOOT_LOCK_REG {
        Some(Ok(s.mmu.boot_lock))
    } else {
        None
    }
}

/// What a read of the address space gives.
#[verifier::opaque]
pub open spec fn vm_read(s: VmState, loc: u16) -> Option<Result<u8, Error>> {
    if loc <= MEM_AREA_ROM_BANK_N_END || (MEM_AREA_VRAM_END < loc <= MEM_AREA_ECHO_END) {
        if s.mmu.read_defined(loc) {
            Some(s.mmu.spec_read(loc))
        } else {
            None
        }
    } else if loc <= MEM_AREA_VRAM_END || (MEM_AREA_ECHO_END < loc <= MEM_AREA_OAM_END) {
        Some(Ok(spec_ppu_read(s.ppu, loc)))
    } else if loc <= MEM_AREA_PROHIBITED_END {
        Some(Err(Error::ProhibitedRead(loc)))
    } else if loc <= MEM_AREA_IO_END {
        io_read(s, loc)
    } else if loc <= MEM_AREA_HRAM_END {
        Some(s.mmu.spec_read(loc))
    } else {
        Some(Ok(s.ie))
    }
}

/// A write through the memory map.
pub open spec fn mmu_write(s: VmState, loc: u16, byte: u8) -> Option<(VmState, Result<(), Error>)> {
    if s.mmu.write_defined(loc) {
        let (m, r) = s.mmu.after_write(loc, byte);
        Some((VmState { mmu: m, ..s }, r))
    } else {
        None
    }
}

/// Whether each of the 160 bytes from `addr` reads without an error.
pub open spec fn dma_readable(s: VmState, addr: u16) -> bool {
    forall|i: int| 0 <= i < 0xA0 ==> #[trigger] vm_read(s, (addr + i) as u16) matches Some(Ok(_))
}

/// The 160 bytes from `addr`.
pub open spec fn dma_block(s: VmState, addr: u16) -> Seq<u8> {
    Seq::new(0xA0, |i: int| vm_read(s, (addr + i) as u16)->Some_0->Ok_0)
}

/// A write of an I/O register.
#[verifier::opaque]
pub open spec fn io_write(s: VmState, loc: u16, byte: u8) -> Option<(VmState, Result<(), Error>)> {
    if loc == MEM_LOC_P1 {
        Some((VmState { joypad: JoypadState { selector: selector_of(byte), ..s.joypad }, ..s }, Ok(())))
    } else if loc == MEM_LOC_SB || loc == MEM_LOC_SC {
        Some((s, Ok(())))
    } else if loc == MEM_LOC_DIV {
        // Any write clears DIV.
        Some((VmState { timer: s.timer.after_set_div(), ..s }, Ok(())))
    } else if loc == MEM_LOC_TIMA {
        Some((VmState { timer: TimerState { tima: byte, ..s.timer }, ..s }, Ok(())))
    } else if loc == MEM_LOC_TMA {
        Some((VmState { timer: TimerState { tma: byte, ..s.timer }, ..s }, Ok(())))
    } else if loc == MEM_LOC_TAC {
        Some((VmState { timer: s.timer.after_set_tac(byte), ..s }, Ok(())))
    } else if loc == MEM_LOC_IF {
        Some((VmState { iflag: byte | 0xE0, ..s }, Ok(())))
    } else if MEM_LOC_NR10 <= loc <= MEM_LOC_NR52 {
        if apu_write_defined(loc) {
            Some((VmState { apu: s.apu.after_write(loc, byte), ..s }, Ok(())))
        } else {
            None
        }
    } else if MEM_LOC_LCDC <= loc <= MEM_LOC_WX {
        if loc == MEM_LOC_DMA {
            let addr = (byte as u16 * 256) as u16;
            if byte <= 0xDF && dma_readable(s, addr) {
                Some((VmState { ppu: PpuState { oam_ram: dma_block(s, addr), ..s.ppu }, ..s }, Ok(())))
            } else {
                None
            }
        } else if loc == MEM_LOC_LY {
            None
        } else {
            Some((VmState { ppu: spec_ppu_write(s.ppu, loc, byte), ..s }, Ok(())))
        }
    } else if loc == MEM_LOC_BOOT_LOCK_REG {
        // The boot ROM can only be unmapped, until the next reset: 1 unmaps it, 0 does nothing.
        if byte == 0b1 {
            Some((VmState { mmu: MmuState { boot_lock: byte, ..s.mmu }, ..s }, Ok(())))
        } else if byte == 0b0 {
            Some((s, Ok(())))
        } else {
            Some((s, Err(Error::BootLockValue(byte))))
        }
    } else if loc == 0xFF4D || loc == 0xFF4F || (0xFF51 <= loc <= 0xFF56) || (0xFF68 <= loc
        <= 0xFF6B) || loc == 0xFF70 {
        // KEY1, VBK, HDMA1-5, RP, BCPS, BCPD, OCPS, OCPD, SVBK: not emulated.
        None
    } else {
        // Other I/O addresses take no write.
        Some((s, Ok(())))
    }
}

/// A write to the address space.
#[verifier::opaque]
pub open spec fn vm_write(s: VmState, loc: u16, byte: u8) -> Option<(VmState, Result<(), Error>)> {
    if loc <= MEM_AREA_ROM_BANK_0_END {
        mmu_write(s, loc, byte)
    } else if loc <= MEM_AREA_ROM_BANK_N_END {
        Some((s, Err(Error::RomBankNWrite)))
    } else if loc <= MEM_AREA_VRAM_END || (MEM_AREA_ECHO_END < loc <= MEM_AREA_OAM_END) {
        Some((VmState { ppu: spec_ppu_write(s.ppu, loc, byte), ..s }, Ok(())))
    } else if loc <= MEM_AREA_WRAM_END {
        mmu_write(s, loc, byte)
    } else if loc <= MEM_AREA_ECHO_END {
        Some((s, Err(Error::EchoWrite)))
    } else if loc <= MEM_AREA_PROHIBITED_END {
        // Writes to the prohibited area are ignored.
        Some((s, Ok(())))
    } else if loc <= MEM_AREA_IO_END {
        io_write(s, loc, byte)
    } else if loc <= MEM_AREA_HRAM_END {
        mmu_write(s, loc, byte)
    } else if byte & 0b1110_0000 == 0 {
        Some((VmState { ie: byte, ..s }, Ok(())))
    } else {
        None
    }
}

/// A little endian word written at `loc` and `loc + 1`.
pub open spec fn vm_write_u16(s: VmState, loc: u16, w: u16) -> Option<(VmState, Result<(), Error>)> {
    if loc == 0xFFFF {
        None
    } else {
        then(
            vm_write(s, loc, (w % 256) as u8),
            |s1: VmState, u: ()| vm_write(s1, (loc + 1) as u16, (w / 256) as u8),
        )
    }
}

/// A little endian word read at `loc` and `loc + 1`.
pub open spec fn vm_read_u16(s: VmState, loc: u16) -> Option<Result<u16, Error>> {
    if loc == 0xFFFF {
        None
    } else {
        match vm_read(s, loc) {
            None => None,
            Some(Err(e)) => Some(Err(e)),
            Some(Ok(lo)) => match vm_read(s, (loc + 1) as u16) {
                None => None,
                Some(Err(e)) => Some(Err(e)),
                Some(Ok(hi)) => Some(Ok((hi * 256 + lo) as u16)),
            },
        }
    }
}

/// PUSH: SP goes down by two, then the word is written there.
pub open spec fn vm_push(s: VmState, w: u16) -> Option<(VmState, Result<(), Error>)> {
    let sp = ((s.cpu.sp - 2 + 0x10000) % 0x10000) as u16;
    vm_write_u16(VmState { cpu: Cpu { sp, ..s.cpu }, ..s }, sp, w)
}

/// POP: the word at SP is read, then SP goes up by two.
pub open spec fn vm_pop(s: VmState) -> Option<(VmState, Result<u16, Error>)> {
    match vm_read_u16(s, s.cpu.sp) {
        None => None,
        Some(Err(e)) => Some((s, Err(e))),
        Some(Ok(w)) => Some(
            (VmState { cpu: Cpu { sp: ((s.cpu.sp + 2) % 0x10000) as u16, ..s.cpu }, ..s }, Ok(w)),
        ),
    }
}

/// The delayed commands after the first `n` of `cmds` had their step, and the interrupt master
/// enable flag they leave: each waits one step less, and those that reach zero apply, in order,
/// and leave the list.
pub open spec fn delayed_prefix(cmds: Seq<DelayedCommand>, ime: bool, n: nat) -> (Seq<DelayedCommand>, bool)
    decreases n,
{
    if n == 0 {
        (Seq::empty(), ime)
    } else {
        let (kept, ime1) = delayed_prefix(cmds, ime, (n - 1) as nat);
        let c = cmds[n - 1];
        if c.cycle_delay - 1 == 0 {
            (kept, c.op == DelayedOp::MasterInterruptEnable)
        } else {
            (kept.push(DelayedCommand { cycle_delay: (c.cycle_delay - 1) as usize, op: c.op }), ime1)
        }
    }
}

/// Serves an interrupt: IME goes off, its IF bit is cleared, PC is pushed and the handler
/// runs next; this takes four machine cycles. A failed push cannot be emulated.
pub open spec fn spec_interrupt(s: VmState, i: Interrupt) -> Option<(VmState, Result<(), Error>)> {
    let s1 = VmState { ime: false, iflag: s.iflag & !(1u8 << i.spec_bit()), ..s };
    match vm_push(s1, s1.cpu.pc) {
        Some((s2, Ok(()))) => spec_tick(with_cpu(s2, Cpu { pc: i.spec_addr(), ..s2.cpu }), 4),
        _ => None,
    }
}

/// A pending interrupt (enabled in IE and requested in IF) wakes a halted CPU, and with IME on
/// the one of highest priority (VBlank, LCD, Timer, Serial, Joypad) is served.
pub open spec fn spec_check_interrupt(s: VmState) -> Option<(VmState, Result<(), Error>)> {
    if !s.ime && s.state != State::Halt {
        Some((s, Ok(())))
    } else if s.iflag & s.ie == 0 {
        Some((s, Ok(())))
    } else {
        let s1 = VmState { state: State::Running, ..s };
        if !s1.ime {
            Some((s1, Ok(())))
        } else if bit_of(s1.iflag, 0) && s1.ie & 0b1 > 0 {
            spec_interrupt(s1, Interrupt::VBlank)
        } else if bit_of(s1.iflag, 1) && s1.ie & 0b10 > 0 {
            spec_interrupt(s1, Interrupt::LCD)
        } else if bit_of(s1.iflag, 2) && s1.ie & 0b100 > 0 {
            spec_interrupt(s1, Interrupt::Timer)
        } else if bit_of(s1.iflag, 3) && s1.ie & 0b1000 > 0 {
            spec_interrupt(s1, Interrupt::Serial)
        } else if bit_of(s1.iflag, 4) && s1.ie & 0b1_0000 > 0 {
            spec_interrupt(s1, Interrupt::Joypad)
        } else {
            Some((s1, Ok(())))
        }
    }
}

/// Sound and timers catch up with `cycles` cycles; a TIMA overflow requests the timer interrupt.
pub open spec fn spec_timers(s: VmState, cycles: u32, tma: u8) -> Option<VmState> {
    if !s.apu.update_defined(cycles as u64) || !s.timer.ticks_ok(cycles) {
        None
    } else {
        let (t, ov) = s.timer.after_ticks(cycles, tma);
        Some(
            VmState {
                apu: s.apu.after_update(cycles as u64),
                timer: t,
                iflag: if ov {
                    s.iflag | 0b100
                } else {
                    s.iflag
                },
                ..s
            },
        )
    }
}

/// Unless stopped, the video catches up with `cycles` cycles and requests the LCD and VBlank
/// interrupts it raises.
pub open spec fn spec_video(s: VmState, cycles: u32) -> Option<VmState> {
    if s.state == State::Stop {
        Some(s)
    } else if !update_defined(s.ppu, cycles as u64) {
        None
    } else {
        let (p, mask) = spec_update(s.ppu, cycles as u64);
        let f1 = if mask & VIDEO_RESULT_MASK_STAT_INTERRUPT > 0 {
            s.iflag | 0b10
        } else {
            s.iflag
        };
        let f2 = if mask & VIDEO_RESULT_MASK_VBLANK_INTERRUPT > 0 {
            f1 | 0b1
        } else {
            f1
        };
        Some(VmState { ppu: p, iflag: f2, ..s })
    }
}

/// A pending joypad interrupt is taken into IF.
pub open spec fn spec_joypad(s: VmState) -> VmState {
    if s.joypad.need_interrupt {
        VmState {
            joypad: JoypadState { need_interrupt: false, ..s.joypad },
            iflag: s.iflag | 0b1_0000,
            ..s
        }
    } else {
        s
    }
}

/// The devices catch up with the `cycles` cycles of a step: sound, timers, video, joypad.
pub open spec fn spec_devices(s: VmState, cycles: u32, tma: u8) -> Option<VmState> {
    match spec_timers(s, cycles, tma) {
        None => None,
        Some(s1) => match spec_video(s1, cycles) {
            None => None,
            Some(s2) => Some(spec_joypad(s2)),
        },
    }
}

/// What follows the instruction of a step that started with `old_mcycle` cycles and TMA `tma`:
/// delayed commands, the devices, interrupts, and the step counter.
pub open spec fn spec_after_exec(s1: VmState, old_mcycle: u64, tma: u8) -> Option<(VmState, Result<(), Error>)> {
    let (cmds, ime) = delayed_prefix(s1.delayed_cmds, s1.ime, s1.delayed_cmds.len());
    let s2 = VmState { delayed_cmds: cmds, ime, ..s1 };
    let cycles = (s2.cpu.mcycle - old_mcycle) * 4;
    if cycles < 0 || cycles > u32::MAX {
        None
    } else {
        match spec_devices(s2, cycles as u32, tma) {
            None => None,
            Some(s6) => then(
                spec_check_interrupt(s6),
                |s7: VmState, u: ()|
                    if s7.counter == u64::MAX {
                        None
                    } else {
                        Some((VmState { counter: (s7.counter + 1) as u64, ..s7 }, Ok(())))
                    },
            ),
        }
    }
}

/// One step of the machine: an instruction (or, halted or stopped, one idle machine cycle),
/// then the devices and interrupts catch up.
pub open spec fn spec_step(s: VmState) -> Option<(VmState, Result<(), Error>)> {
    then(
        if s.state == State::Running {
            spec_exec_op(s)
        } else {
            spec_tick(s, 1)
        },
        |s1: VmState, u: ()| spec_after_exec(s1, s.cpu.mcycle, s.timer.tma),
    )
}

/// The emulated machine: CPU, memory map, video, sound, timers, joypad and interrupts.
pub struct VM {
    pub mmu: Mmu,
    pub cpu: Cpu,
    pub ppu: PPU,
    pub serial: Serial,
    pub debugger: Debugger,
    pub counter: u64,
    pub state: State,
    pub timer: Timer,
    pub apu: Apu,
    pub joypad: Joypad,
    pub interrupt_master_enable_flag: bool,
    pub interrupt_enable: u8,
    pub interrupt_flag: u8,
    /// PC and opcode of the last instructions.
    pub op_history: SizedQueue<(u16, u8)>,
    /// Counter, PC and opcode of every 64th instruction.
    pub deep_op_history: SizedQueue<(u64, u16, u8)>,
    pub delayed_cmds: Vec<DelayedCommand>,
}

impl View for VM {
    type V = VmState;

    open spec fn view(&self) -> VmState {
        VmState {
            cpu: self.cpu,
            mmu: self.mmu@,
            ppu: self.ppu@,
            timer: self.timer@,
            apu: self.apu,
            joypad: self.joypad@,
            debugger: self.debugger@,
            ime: self.interrupt_master_enable_flag,
            ie: self.interrupt_enable,
            iflag: self.interrupt_flag,
            state: self.state,
            counter: self.counter,
            delayed_cmds: self.delayed_cmds@,
            op_history: self.op_history@,
            deep_op_history: self.deep_op_history@,
        }
    }
}

impl VM {
    /// The components keep their own invariants, the histories keep 128 entries, and every
    /// delayed command has a step left to wait.
    pub open spec fn wf(&self) -> bool {
        &&& self.mmu.wf()
        &&& self.ppu.wf()
        &&& self.timer.wf()
        &&& self.apu.wf()
        &&& self.op_history.capacity() == 128
        &&& self.deep_op_history.capacity() == 128
        &&& forall|i: int|
            0 <= i < self.delayed_cmds@.len() ==> #[trigger] self.delayed_cmds@[i].cycle_delay > 0
    }

    fn io_read(&self, loc: u16) -> (r: Result<u8, Error>)
        requires
            self.wf(),
            0xFF00 <= loc <= MEM_AREA_IO_END,
        ensures
            read_outcome(io_read(self@, loc), r),
    {
        reveal(io_read);
        if loc == MEM_LOC_P1 {
            Ok(self.joypad.get_p1())
        } else if loc == MEM_LOC_DIV {
            Ok(self.timer.div())
        } else if loc == MEM_LOC_TIMA {
            Ok(self.timer.tima())
        } else if loc == MEM_LOC_TMA {
            Ok(self.timer.tma())
        } else if loc == MEM_LOC_TAC {
            Ok(self.timer.tac())
        } else if loc == MEM_LOC_IF {
            Ok(self.interrupt_flag)
        } else if MEM_LOC_NR10 <= loc && loc <= MEM_LOC_NR52 {
            self.apu.read(loc)
        } else if MEM_LOC_LCDC <= loc && loc <= MEM_LOC_WX && loc != MEM_LOC_DMA {
            self.ppu.read(loc)
        } else if loc == MEM_LOC_KEY1 {
            // FF4D — KEY1 (CGB Mode only): Prepare speed switch --> ignore.
            Ok(0xFF)
        } else if loc == MEM_LOC_BOOT_LOCK_REG {
            Ok(self.mmu.get_boot_lock_reg())
        } else {
            // SB, SC, DMA, VBK, HDMA1-5, RP, BCPS, BCPD, OCPS, OCPD, SVBK and the rest of the area.
            Err(Error::Unsupported(loc))
        }
    }

    /// Reads a byte of the address space.
    pub fn mem_read(&self, loc: u16) -> (r: Result<u8, Error>)
        requires
            self.wf(),
        ensures
            read_outcome(vm_read(self@, loc), r),
    {
        reveal(vm_read);
        if loc <= MEM_AREA_ROM_BANK_N_END || (MEM_AREA_VRAM_END < loc && loc <= MEM_AREA_ECHO_END) {
            if self.mmu.is_read_defined(loc) {
                self.mmu.read(loc)
            } else {
                Err(Error::Unsupported(loc))
            }
        } else if loc <= MEM_AREA_VRAM_END || (MEM_AREA_ECHO_END < loc && loc <= MEM_AREA_OAM_END) {
            self.ppu.read(loc)
        } else if loc <= MEM_AREA_PROHIBITED_END {
            Err(Error::ProhibitedRead(loc))
        } else if loc <= MEM_AREA_IO_END {
            self.io_read(loc)
        } else if loc <= MEM_AREA_HRAM_END {
            self.mmu.read(loc)
        } else {
            Ok(self.interrupt_enable)
        }
    }
}

impl VM {
    fn mmu_write(&mut self, loc: u16, byte: u8) -> (r: Result<(), Error>)
        requires
            old(self).wf(),
        ensures
            final(self).wf(),
            final(self).cpu == old(self).cpu,
            outcome(mmu_write(old(self)@, loc, byte), final(self)@, r),
    {
        if !self.mmu.is_write_defined(loc) {
            return Err(Error::Unsupported(loc));
        }
        self.mmu.write(loc, byte)
    }

    /// OAM DMA: copies 160 bytes from `byte` * 0x100 into OAM.
    fn dma_transfer(&mut self, byte: u8) -> (r: Result<(), Error>)
        requires
            old(self).wf(),
        ensures
            final(self).wf(),
            final(self).cpu == old(self).cpu,
            outcome(io_write(old(self)@, MEM_LOC_DMA, byte), final(self)@, r),
    {
        reveal(io_write);
        if byte > 0xDF {
            return Err(Error::Unsupported(MEM_LOC_DMA));
        }
        let addr = (byte as u16) << 8u16;
        proof {
            lemma_u8(byte);
        }
        let mut block: Vec<u8> = Vec::new();
        let mut offs: u16 = 0;
        while offs < 0xA0
            invariant
                self.wf(),
                self@ == old(self)@,
                addr == byte as u16 * 256,
                byte <= 0xDF,
                offs <= 0xA0,
                block@.len() == offs,
                forall|i: int|
                    0 <= i < offs ==> (#[trigger] vm_read(self@, (addr + i) as u16)
                        == Some(Ok::<u8, Error>(block@[i]))),
            decreases 0xA0 - offs,
        {
            match self.mem_read(addr + offs) {
                Ok(b) => block.push(b),
                Err(_) => {
                    let ghost i = offs as int;
                    assert((addr + i) as u16 == addr + offs);
                    assert(!(vm_read(old(self)@, (addr + i) as u16) matches Some(Ok(_))));
                    assert(!dma_readable(old(self)@, addr));
                    reveal(io_write);
                    return Err(Error::Unsupported(addr + offs));
                },
            }
            offs += 1;
        }
        assert(dma_block(old(self)@, addr) =~= block@);
        self.ppu.dma_oam_transfer(block);
        // Not sure if we should spend 160 mcycle here.
        Ok(())
    }

    fn io_write(&mut self, loc: u16, byte: u8) -> (r: Result<(), Error>)
        requires
            old(self).wf(),
            0xFF00 <= loc <= MEM_AREA_IO_END,
        ensures
            final(self).wf(),
            final(self).cpu == old(self).cpu,
            outcome(io_write(old(self)@, loc, byte), final(self)@, r),
    {
        reveal(io_write);
        if loc == MEM_LOC_P1 {
            let _ = self.joypad.set_p1_button_selector(byte);
        } else if loc == MEM_LOC_SB {
            self.serial.set_sb(byte);
        } else if loc == MEM_LOC_SC {
            self.serial.set_sc(byte);
        } else if loc == MEM_LOC_DIV {
            // On the hardware STOP also resets DIV until it ends; that is not emulated.
            self.timer.set_div();
        } else if loc == MEM_LOC_TIMA {
            self.timer.set_tima(byte);
        } else if loc == MEM_LOC_TMA {
            self.timer.set_tma(byte);
        } else if loc == MEM_LOC_TAC {
            self.timer.set_tac(byte);
        } else if loc == MEM_LOC_IF {
            self.interrupt_flag = byte | 0xE0;
        } else if MEM_LOC_NR10 <= loc && loc <= MEM_LOC_NR52 {
            if loc == 0xFF15 || loc == 0xFF1F {
                return Err(Error::Unsupported(loc));
            }
            self.apu.write(loc, byte);
        } else if MEM_LOC_LCDC <= loc && loc <= MEM_LOC_WX {
            if loc == MEM_LOC_DMA {
                return self.dma_transfer(byte);
            } else if loc == MEM_LOC_LY {
                return Err(Error::Unsupported(loc));
            } else {
                self.ppu.write(loc, byte);
            }
        } else if loc == MEM_LOC_BOOT_LOCK_REG {
            // BOOT_OFF can only transition from 0b0 to 0b1, so once 0b1 has been written, the boot ROM is
            // permanently disabled until the next system reset. Writing 0b0 when BOOT_OFF is 0b0 has no
            // effect and doesn’t lock the boot ROM.
            if byte == 0b1 {
                self.mmu.set_boot_lock_reg(byte);
            } else if byte != 0b0 {
                return Err(Error::BootLockValue(byte));
            }
        } else if loc == 0xFF4D || loc == 0xFF4F || (0xFF51 <= loc && loc <= 0xFF56) || (0xFF68
            <= loc && loc <= 0xFF6B) || loc == 0xFF70 {
            return Err(Error::Unsupported(loc));
        }
        // Other I/O writes are ignored for now - BGB seems to ignore them.
        Ok(())
    }

    /// Writes a byte of the address space.
    pub fn mem_write(&mut self, loc: u16, byte: u8) -> (r: Result<(), Error>)
        requires
            old(self).wf(),
        ensures
            final(self).wf(),
            final(self).cpu == old(self).cpu,
            outcome(vm_write(old(self)@, loc, byte), final(self)@, r),
    {
        reveal(vm_write);
        if loc <= MEM_AREA_ROM_BANK_0_END {
            // BGB seems to do nothing with these (eg LD (0x2000) a): the bank registers take them.
            self.mmu_write(loc, byte)
        } else if loc <= MEM_AREA_ROM_BANK_N_END {
            Err(Error::RomBankNWrite)
        } else if loc <= MEM_AREA_VRAM_END || (MEM_AREA_ECHO_END < loc && loc <= MEM_AREA_OAM_END) {
            self.ppu.write(loc, byte);
            Ok(())
        } else if loc <= MEM_AREA_WRAM_END {
            self.mmu_write(loc, byte)
        } else if loc <= MEM_AREA_ECHO_END {
            Err(Error::EchoWrite)
        } else if loc <= MEM_AREA_PROHIBITED_END {
            // Ignore for now. BGB seems to do nothing with these (eg LD (0xFEFF) a).
            Ok(())
        } else if loc <= MEM_AREA_IO_END {
            self.io_write(loc, byte)
        } else if loc <= MEM_AREA_HRAM_END {
            self.mmu_write(loc, byte)
        } else {
            self.set_interrupt_enable(byte)
        }
    }

    /// IE takes the five interrupt bits; the three high bits must stay clear.
    fn set_interrupt_enable(&mut self, value: u8) -> (r: Result<(), Error>)
        requires
            old(self).wf(),
        ensures
            final(self).wf(),
            final(self).cpu == old(self).cpu,
            outcome(vm_write(old(self)@, 0xFFFF, value), final(self)@, r),
    {
        reveal(vm_write);
        if (value & 0b1110_0000) != 0 {
            return Err(Error::Unsupported(0xFFFF));
        }
        self.interrupt_enable = value;
        Ok(())
    }

    /// Writes a little endian word at `loc` and `loc + 1`.
    pub(crate) fn mem_write_u16(&mut self, loc: u16, word: u16) -> (r: Result<(), Error>)
        requires
            old(self).wf(),
        ensures
            final(self).wf(),
            outcome(vm_write_u16(old(self)@, loc, word), final(self)@, r),
    {
        if loc == 0xFFFF {
            return Err(Error::Unsupported(loc));
        }
        let hi = (word >> 8u16) as u8;
        let lo = (word & 0xFFu16) as u8;
        proof {
            lemma_u16(word);
        }

        self.mem_write(loc, lo)?;
        self.mem_write(loc + 1, hi)?;

        Ok(())
    }

    /// Reads a little endian word at `loc` and `loc + 1`.
    pub(crate) fn mem_read_u16(&self, loc: u16) -> (r: Result<u16, Error>)
        requires
            self.wf(),
        ensures
            match vm_read_u16(self@, loc) {
                Some(v) => r == v,
                None => r matches Err(Error::Unsupported(_)),
            },
    {
        if loc == 0xFFFF {
            return Err(Error::Unsupported(loc));
        }
        let lo = self.mem_read(loc)?;
        let hi = self.mem_read(loc + 1)?;
        proof {
            lemma_word_of(lo, hi);
        }
        Ok(((hi as u16) << 8u16) | lo as u16)
    }

    pub(crate) fn push_u16(&mut self, word: u16) -> (r: Result<(), Error>)
        requires
            old(self).wf(),
        ensures
            final(self).wf(),
            outcome(vm_push(old(self)@, word), final(self)@, r),
    {
        self.cpu.sp = self.cpu.sp.wrapping_sub(2);
        self.mem_write_u16(self.cpu.sp, word)
    }

    pub(crate) fn pop_u16(&mut self) -> (r: Result<u16, Error>)
        requires
            old(self).wf(),
        ensures
            final(self).wf(),
            outcome(vm_pop(old(self)@), final(self)@, r),
    {
        let word = self.mem_read_u16(self.cpu.sp)?;
        self.cpu.sp = self.cpu.sp.wrapping_add(2);
        Ok(word)
    }
}

impl VM {
    /// A machine whose boot ROM is still empty (see `setup`), with its registers at zero.
    pub fn new(
        cartridge: Cartridge,
        debugger: Debugger,
        ppu: PPU,
        joypad: Joypad,
        disable_sound: bool,
    ) -> (r: Result<VM, Error>)
        requires
            cartridge.wf(),
            ppu.wf(),
        ensures
            r matches Ok(vm) && {
                &&& vm.wf()
                &&& vm@.cpu == (Cpu { af: 0, bc: 0, de: 0, hl: 0, sp: 0, pc: 0, mcycle: 1 })
                &&& vm@.mmu.boot_lock == 0
                &&& vm@.mmu.cart == cartridge@
                &&& vm@.ppu == ppu@
                &&& vm@.joypad == joypad@
                &&& vm@.debugger == debugger@
                &&& vm@.timer.div == 0 && vm@.timer.tac == 0b1111_1000 && vm@.timer.tma == 0
                    && vm@.timer.tima == 0
                &&& vm.apu.disable_sound == disable_sound
                &&& !vm@.ime && vm@.ie == 0
                &&& vm@.iflag == 0xE0
                &&& vm@.state == State::Running
                &&& vm@.counter == 0
                &&& vm@.delayed_cmds == Seq::<DelayedCommand>::empty()
                &&& vm@.op_history == Seq::<(u16, u8)>::empty()
                &&& vm@.deep_op_history == Seq::<(u64, u16, u8)>::empty()
            },
    {
        let mmu = Mmu::new(cartridge)?;
        Ok(VM {
            mmu,
            cpu: Cpu::new(),
            ppu,
            serial: Serial::new(),
            debugger,
            counter: 0,
            state: State::Running,
            timer: Timer::new(),
            apu: Apu::new(disable_sound),
            joypad,
            interrupt_master_enable_flag: false,
            interrupt_enable: 0,
            // Top 3 bits are unused - BGB reads them as 0b111x_xxxx.
            interrupt_flag: 0xE0,
            op_history: SizedQueue::new(128),
            deep_op_history: SizedQueue::new(128),
            delayed_cmds: Vec::new(),
        })
    }

    /// Loads the boot ROM image.
    pub fn setup(&mut self, bios: &[u8]) -> (r: Result<(), Error>)
        requires
            old(self).wf(),
            bios@.len() == BIOS_SIZE,
        ensures
            final(self).wf(),
            r is Ok,
            final(self)@ == (VmState { mmu: MmuState { bios: bios@, ..old(self)@.mmu }, ..old(self)@ }),
    {
        self.mmu.load_bios(bios);
        Ok(())
    }

    /// Maps the boot ROM again, resets the video, and requests the VBlank interrupt.
    pub fn reset(&mut self) -> (r: Result<(), Error>)
        requires
            old(self).wf(),
        ensures
            final(self).wf(),
            r is Ok,
            final(self)@.mmu == (MmuState { boot_lock: 0, ..old(self)@.mmu }),
            final(self)@.ppu.lcdc == 0 && final(self)@.ppu.stat == 0x82 && final(self)@.ppu.ly == 0,
            // Bits 7-5 unused, bit 0 the VBlank interrupt.
            final(self)@.iflag == 0xE1,
            final(self)@.cpu == old(self)@.cpu,
            final(self)@.timer == old(self)@.timer,
            final(self)@.ime == old(self)@.ime,
            final(self)@.ie == old(self)@.ie,
            final(self)@.state == old(self)@.state,
    {
        self.mmu.reset()?;
        self.ppu.reset();
        self.interrupt_flag = 0xE1;
        Ok(())
    }

    /// Serves an interrupt.
    fn interrupt(&mut self, interrupt: Interrupt) -> (r: Result<(), Error>)
        requires
            old(self).wf(),
        ensures
            final(self).wf(),
            outcome(spec_interrupt(old(self)@, interrupt), final(self)@, r),
    {
        self.interrupt_master_enable_flag = false;

        let b = interrupt.bit();
        assert(b < 8);
        self.interrupt_flag = self.interrupt_flag & !(1u8 << b);
        match self.push_u16(self.cpu.pc) {
            Ok(()) => {},
            Err(_) => return Err(Error::Unsupported(self.cpu.pc)),
        }
        self.cpu.pc = interrupt.addr();
        self.tick(4)
    }

    fn is_interrupt_enabled(&self, mask: u8) -> (r: bool)
        ensures
            r == (self.interrupt_enable & mask > 0),
    {
        (self.interrupt_enable & mask) > 0
    }

    /// Wakes a halted CPU on a pending interrupt and serves the one of highest priority.
    fn check_interrupt(&mut self) -> (r: Result<(), Error>)
        requires
            old(self).wf(),
        ensures
            final(self).wf(),
            outcome(spec_check_interrupt(old(self)@), final(self)@, r),
    {
        if !self.interrupt_master_enable_flag && self.state != State::Halt {
            return Ok(());
        }

        // If an interrupt is pending, halt immediately exits, as expected, however the “halt bug”, explained below,
        // is triggered.
        if self.interrupt_flag & self.interrupt_enable == 0 {
            return Ok(());
        }

        self.state = State::Running;

        if !self.interrupt_master_enable_flag {
            return Ok(());
        }

        // If IME and IE allow the servicing of more than one of the requested interrupts,
        // the interrupt with the highest priority is serviced first. The priorities follow
        // the order of the bits in the IE and IF registers: Bit 0 (VBlank) has the highest
        // priority, and Bit 4 (Joypad) has the lowest priority.
        if is_bit(self.interrupt_flag, 0) && self.is_interrupt_enabled(0b1) {
            self.interrupt(Interrupt::VBlank)
        } else if is_bit(self.interrupt_flag, 1) && self.is_interrupt_enabled(0b10) {
            self.interrupt(Interrupt::LCD)
        } else if is_bit(self.interrupt_flag, 2) && self.is_interrupt_enabled(0b100) {
            self.interrupt(Interrupt::Timer)
        } else if is_bit(self.interrupt_flag, 3) && self.is_interrupt_enabled(0b1000) {
            self.interrupt(Interrupt::Serial)
        } else if is_bit(self.interrupt_flag, 4) && self.is_interrupt_enabled(0b1_0000) {
            self.interrupt(Interrupt::Joypad)
        } else {
            Ok(())
        }
    }

    /// Each delayed command waits one step less; those that are ready apply and leave.
    fn run_delayed_cmds(&mut self)
        requires
            old(self).wf(),
        ensures
            final(self).wf(),
            final(self)@ == ({
                let (cmds, ime) = delayed_prefix(
                    old(self)@.delayed_cmds,
                    old(self)@.ime,
                    old(self)@.delayed_cmds.len(),
                );
                VmState { delayed_cmds: cmds, ime, ..old(self)@ }
            }),
    {
        let mut kept: Vec<DelayedCommand> = Vec::new();
        let mut i: usize = 0;
        let n = self.delayed_cmds.len();
        while i < n
            invariant
                0 <= i <= n,
                n == self.delayed_cmds@.len(),
                self.delayed_cmds@ == old(self)@.delayed_cmds,
                old(self).wf(),
                self.wf(),
                forall|j: int| 0 <= j < n ==> #[trigger] self.delayed_cmds@[j].cycle_delay > 0,
                forall|j: int| 0 <= j < kept@.len() ==> #[trigger] kept@[j].cycle_delay > 0,
                self@ == (VmState { ime: self@.ime, ..old(self)@ }),
                (kept@, self.interrupt_master_enable_flag) == delayed_prefix(
                    old(self)@.delayed_cmds,
                    old(self)@.ime,
                    i as nat,
                ),
            decreases n - i,
        {
            let mut delayed_cmd = self.delayed_cmds[i];
            delayed_cmd.dec();
            if delayed_cmd.is_ready() {
                match delayed_cmd.op {
                    DelayedOp::MasterInterruptEnable => {
                        self.interrupt_master_enable_flag = true;
                    },
                    DelayedOp::MasterInterruptDisable => {
                        self.interrupt_master_enable_flag = false;
                    },
                };
            } else {
                kept.push(delayed_cmd);
            }
            i += 1;
        }
        self.delayed_cmds = kept;
    }

    /// Sound and timers catch up with `cycles` cycles.
    fn update_timers(&mut self, cycles: u32, pre_exec_tma: u8) -> (r: Result<(), Error>)
        requires
            old(self).wf(),
        ensures
            final(self).wf(),
            match spec_timers(old(self)@, cycles, pre_exec_tma) {
                Some(s) => final(self)@ == s && r is Ok,
                None => r matches Err(Error::Unsupported(_)),
            },
    {
        if !self.apu.is_update_defined(cycles as u64) || !self.timer.is_ticks_ok(cycles) {
            return Err(Error::Unsupported(self.cpu.pc));
        }
        self.apu.update(cycles as u64);

        let should_call_times_interrupt = self.timer.handle_ticks(cycles, pre_exec_tma)?;
        if should_call_times_interrupt {
            self.interrupt_flag = self.interrupt_flag | 0b0100;
        }
        Ok(())
    }

    /// Unless stopped, the video catches up with `cycles` cycles.
    fn update_video(&mut self, cycles: u32) -> (r: Result<(), Error>)
        requires
            old(self).wf(),
        ensures
            final(self).wf(),
            match spec_video(old(self)@, cycles) {
                Some(s) => final(self)@ == s && r is Ok,
                None => r matches Err(Error::Unsupported(_)),
            },
    {
        if self.state != State::Stop {
            if !self.ppu.is_update_defined(cycles as u64) {
                return Err(Error::Unsupported(self.cpu.pc));
            }
            let video_interrupt_mask = self.ppu.update(cycles as u64);
            if video_interrupt_mask & VIDEO_RESULT_MASK_STAT_INTERRUPT > 0 {
                self.interrupt_flag = self.interrupt_flag | 0b10;
            }
            if video_interrupt_mask & VIDEO_RESULT_MASK_VBLANK_INTERRUPT > 0 {
                self.interrupt_flag = self.interrupt_flag | 0b1;
            }
        }
        Ok(())
    }

    /// The devices catch up with `cycles` cycles.
    fn update_devices(&mut self, cycles: u32, pre_exec_tma: u8) -> (r: Result<(), Error>)
        requires
            old(self).wf(),
        ensures
            final(self).wf(),
            match spec_devices(old(self)@, cycles, pre_exec_tma) {
                Some(s) => final(self)@ == s && r is Ok,
                None => r matches Err(Error::Unsupported(_)),
            },
    {
        self.update_timers(cycles, pre_exec_tma)?;
        self.update_video(cycles)?;
        if self.joypad.consume_interrupt() {
            self.interrupt_flag = self.interrupt_flag | 0b1_0000;
        }
        Ok(())
    }

    /// What follows the instruction of a step.
    fn after_exec(&mut self, old_cpu_mcycle: u64, pre_exec_tma: u8) -> (r: Result<(), Error>)
        requires
            old(self).wf(),
        ensures
            final(self).wf(),
            outcome(spec_after_exec(old(self)@, old_cpu_mcycle, pre_exec_tma), final(self)@, r),
    {
        self.run_delayed_cmds();

        if self.cpu.mcycle < old_cpu_mcycle || self.cpu.mcycle - old_cpu_mcycle > 0x3FFF_FFFF {
            return Err(Error::Unsupported(self.cpu.pc));
        }
        let diff_mcycle: u64 = self.cpu.mcycle - old_cpu_mcycle;
        let cycles = (diff_mcycle * CYCLE_PER_MCYCLE as u64) as u32;

        self.update_devices(cycles, pre_exec_tma)?;

        self.check_interrupt()?;

        if self.counter == u64::MAX {
            return Err(Error::Unsupported(self.cpu.pc));
        }
        self.counter += 1;
        Ok(())
    }

    /// One step of the machine: an instruction (or, halted or stopped, one idle machine
    /// cycle), then the devices and interrupts catch up.
    pub fn step(&mut self) -> (r: Result<(), Error>)
        requires
            old(self).wf(),
        ensures
            final(self).wf(),
            outcome(spec_step(old(self)@), final(self)@, r),
    {
        let old_cpu_mcycle: u64 = self.cpu.mcycle;
        let pre_exec_tma = self.timer.tma();

        if self.state == State::Running {
            self.exec_op()?;
        } else {
            self.tick(1)?;
        }

        self.after_exec(old_cpu_mcycle, pre_exec_tma)
    }
}

/// Whether `loc` is work RAM or high RAM.
pub open spec fn is_ram(loc: int) -> bool {
    (MEM_AREA_WRAM_START <= loc <= MEM_AREA_WRAM_END) || (MEM_AREA_HRAM_START <= loc
        <= MEM_AREA_HRAM_END)
}

/// RAM has its sizes.
pub open spec fn ram_wf(s: VmState) -> bool {
    s.mmu.wram.len() == WRAM_SIZE && s.mmu.hram.len() == 0x7F
}

/// The machine after `byte` is stored in RAM at `loc`.
pub open spec fn ram_written(s: VmState, loc: u16, byte: u8) -> VmState {
    VmState { mmu: s.mmu.after_write(loc, byte).0, ..s }
}

/// A byte written to work RAM or high RAM through the address space is what a later read of
/// that address gives, and every other RAM address reads as before.
pub proof fn lemma_vm_ram_write_then_read(s: VmState, loc: u16, byte: u8, other: u16)
    requires
        ram_wf(s),
        is_ram(loc as int),
        is_ram(other as int),
        other != loc,
    ensures
        vm_write(s, loc, byte) == Some((ram_written(s, loc, byte), Ok::<(), Error>(()))),
        ram_wf(ram_written(s, loc, byte)),
        vm_read(ram_written(s, loc, byte), loc) == Some(Ok::<u8, Error>(byte)),
        vm_read(ram_written(s, loc, byte), other) == vm_read(s, other),
        ram_written(s, loc, byte).cpu == s.cpu,
{
    reveal(vm_write);
    reveal(vm_read);
    crate::mmu::lemma_ram_write_then_read(s.mmu, loc, byte);
    crate::mmu::lemma_ram_write_keeps_others(s.mmu, loc, byte, other);
}

/// What PUSH writes, POP reads back: with the two stack bytes in RAM, a pushed word pops
/// again, and SP comes back to where it was.
pub proof fn lemma_push_then_pop(s: VmState, w: u16)
    requires
        ram_wf(s),
        is_ram(s.cpu.sp - 2),
        is_ram(s.cpu.sp - 1),
    ensures
        vm_push(s, w) matches Some((s2, Ok(()))) && {
            &&& s2 == (VmState {
                mmu: s2.mmu,
                cpu: Cpu { sp: (s.cpu.sp - 2) as u16, ..s.cpu },
                ..s
            })
            &&& ram_wf(s2)
            &&& (vm_pop(s2) matches Some((s3, Ok(w2))) && {
                &&& w2 == w
                &&& s3.cpu == s.cpu
            })
        },
{
    let sp = (s.cpu.sp - 2) as u16;
    assert(((s.cpu.sp - 2 + 0x10000) % 0x10000) as u16 == sp);
    let s1 = VmState { cpu: Cpu { sp, ..s.cpu }, ..s };
    let lo = (w % 256) as u8;
    let hi = (w / 256) as u8;
    lemma_vm_ram_write_then_read(s1, sp, lo, (sp + 1) as u16);
    let s_lo = ram_written(s1, sp, lo);
    lemma_vm_ram_write_then_read(s_lo, (sp + 1) as u16, hi, sp);
    let s2 = ram_written(s_lo, (sp + 1) as u16, hi);
    assert(sp != 0xFFFF);
    let f = |t: VmState, u: ()| vm_write(t, (sp + 1) as u16, (w / 256) as u8);
    assert(then(vm_write(s1, sp, lo), f) == f(s_lo, ()));
    assert(vm_push(s, w) == vm_write_u16(s1, sp, w));
    assert(vm_push(s, w) == Some((s2, Ok::<(), Error>(()))));
    assert(((hi * 256 + lo) as u16) == w);
}

/// Any write to DIV clears it: a read right after gives 0.
pub proof fn lemma_div_write_clears(s: VmState, byte: u8)
    ensures
        vm_write(s, MEM_LOC_DIV, byte) matches Some((s2, Ok(()))) && vm_read(s2, MEM_LOC_DIV) == Some(
            Ok::<u8, Error>(0),
        ),
{
    reveal(vm_write);
    reveal(io_write);
    reveal(vm_read);
    reveal(io_read);
}

/// A served interrupt runs its handler with IME off and its request cleared, and what it
/// pushed pops back: with the stack in RAM, the interrupted PC returns and SP is restored.
pub proof fn lemma_interrupt_returns(s: VmState, i: Interrupt)
    requires
        ram_wf(s),
        is_ram(s.cpu.sp - 2),
        is_ram(s.cpu.sp - 1),
        s.cpu.mcycle + 4 <= u64::MAX,
    ensures
        spec_interrupt(s, i) matches Some((s2, Ok(()))) && {
            &&& s2.cpu.pc == i.spec_addr()
            &&& !s2.ime
            &&& !bit_of(s2.iflag, i.spec_bit())
            &&& s2.iflag == s.iflag & !(1u8 << i.spec_bit())
            &&& s2.state == s.state
            &&& (vm_pop(s2) matches Some((s3, Ok(w))) && w == s.cpu.pc && s3.cpu.sp == s.cpu.sp)
        },
{
    let s1 = VmState { ime: false, iflag: s.iflag & !(1u8 << i.spec_bit()), ..s };
    crate::bits::lemma_u8_bit(s.iflag, i.spec_bit());
    lemma_push_then_pop(s1, s1.cpu.pc);
    let s2p = vm_push(s1, s1.cpu.pc)->Some_0.0;
    let s2 = with_cpu(s2p, Cpu { pc: i.spec_addr(), ..s2p.cpu });
    let s2t = with_cpu(s2, Cpu { mcycle: (s2.cpu.mcycle + 4) as u64, ..s2.cpu });
    assert(spec_interrupt(s, i) == Some((s2t, Ok::<(), Error>(()))));
    reveal(vm_read);
    reveal(io_read);
    assert(vm_read_u16(s2t, s2t.cpu.sp) == vm_read_u16(s2p, s2p.cpu.sp));
}

/// The boot lock only moves from 0 to 1: writing 1 unmaps the boot ROM, writing 0 changes
/// nothing, and any other value is refused.
pub proof fn lemma_boot_lock_write(s: VmState, byte: u8)
    ensures
        byte == 0 ==> vm_write(s, MEM_LOC_BOOT_LOCK_REG, byte) == Some((s, Ok::<(), Error>(()))),
        byte == 1 ==> vm_write(s, MEM_LOC_BOOT_LOCK_REG, byte) == Some(
            (VmState { mmu: MmuState { boot_lock: 1, ..s.mmu }, ..s }, Ok::<(), Error>(())),
        ),
        byte > 1 ==> vm_write(s, MEM_LOC_BOOT_LOCK_REG, byte) == Some(
            (s, Err::<(), Error>(Error::BootLockValue(byte))),
        ),
{
    reveal(vm_write);
    reveal(io_write);
}


/// Which of IF & IE's five interrupt bits is the lowest set one, as the five guards of
/// `spec_check_interrupt` test it.
proof fn lemma_lowest_pending(f: u8, e: u8, k: u8)
    by (bit_vector)
    requires
        k < 5,
        (f & e) & (1u8 << k) != 0,
        (f & e) & ((1u8 << k) - 1u8) as u8 == 0,
    ensures
        f & e != 0,
        ((f >> 0u8) & 1 == 1 && e & 0b1 > 0) == (k == 0),
        k >= 1 ==> (((f >> 1u8) & 1 == 1 && e & 0b10 > 0) == (k == 1)),
        k >= 2 ==> (((f >> 2u8) & 1 == 1 && e & 0b100 > 0) == (k == 2)),
        k >= 3 ==> (((f >> 3u8) & 1 == 1 && e & 0b1000 > 0) == (k == 3)),
        k >= 4 ==> (((f >> 4u8) & 1 == 1 && e & 0b1_0000 > 0) == (k == 4)),
{
}

/// With IME on, the pending interrupt (requested in IF and enabled in IE) of the lowest bit k
/// is the one served: its handler at 0x40 + 8k runs with IME off, bit k of IF is cleared and
/// no other, the CPU runs, and with the stack in RAM the interrupted PC pops back.
pub proof fn lemma_check_interrupt_serves_lowest(s: VmState, k: u8)
    requires
        s.ime,
        k < 5,
        (s.iflag & s.ie) & (1u8 << k) != 0,
        (s.iflag & s.ie) & ((1u8 << k) - 1u8) as u8 == 0,
        ram_wf(s),
        is_ram(s.cpu.sp - 2),
        is_ram(s.cpu.sp - 1),
        s.cpu.mcycle + 4 <= u64::MAX,
    ensures
        spec_check_interrupt(s) matches Some((s2, Ok(()))) && {
            &&& s2.cpu.pc == 0x40 + 8 * k
            &&& s2.iflag == s.iflag & !(1u8 << k)
            &&& !s2.ime
            &&& s2.state == State::Running
            &&& (vm_pop(s2) matches Some((s3, Ok(w))) && w == s.cpu.pc && s3.cpu.sp == s.cpu.sp)
        },
{
    lemma_lowest_pending(s.iflag, s.ie, k);
    let s1 = VmState { state: State::Running, ..s };
    if k == 0 {
        lemma_interrupt_returns(s1, Interrupt::VBlank);
    } else if k == 1 {
        lemma_interrupt_returns(s1, Interrupt::LCD);
    } else if k == 2 {
        lemma_interrupt_returns(s1, Interrupt::Timer);
    } else if k == 3 {
        lemma_interrupt_returns(s1, Interrupt::Serial);
    } else {
        lemma_interrupt_returns(s1, Interrupt::Joypad);
    }
}

} // verus!
