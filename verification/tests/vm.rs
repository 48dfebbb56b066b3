use lameboy::cartridge::{is_header_supported, Cartridge};
use lameboy::conf::Error;
use lameboy::debugger::Debugger;
use lameboy::joypad::{Joypad, JoypadInputRequest};
use lameboy::ppu::PPU;
use lameboy::vm::VM;

/// A machine with a 32k ROM-only cartridge and `program` as its boot ROM.
fn machine(program: &[u8]) -> VM {
    let mut rom = vec![0u8; 0x8000];
    rom[0x0147] = 0x00;
    assert!(is_header_supported(&rom));
    let cartridge = Cartridge::new(rom);
    let mut vm = VM::new(
        cartridge,
        Debugger::new(false),
        PPU::new(true),
        Joypad::new(JoypadInputRequest::new()),
        true,
    )
    .unwrap();
    let mut bios = vec![0u8; 0x100];
    bios[..program.len()].copy_from_slice(program);
    vm.setup(&bios).unwrap();
    vm
}

#[test]
fn runs_a_small_program() {
    let program = [
        0x31, 0xFE, 0xFF, // LD SP, 0xFFFE
        0x3E, 0x42, // LD A, 0x42
        0xF5, // PUSH AF
        0xC1, // POP BC
        0x21, 0x00, 0xC0, // LD HL, 0xC000
        0x77, // LD (HL), A
        0x3C, // INC A
        0xAF, // XOR A
    ];
    let mut vm = machine(&program);
    vm.step().unwrap();
    vm.step().unwrap();
    assert_eq!(vm.cpu.sp, 0xFFFE);
    vm.step().unwrap();
    assert_eq!(vm.cpu.sp, 0xFFFC);
    assert_eq!(vm.mem_read(0xFFFD), Ok(0x42));
    vm.step().unwrap();
    // POP BC gives back what PUSH AF stored, and SP is back.
    assert_eq!(vm.cpu.get_b(), 0x42);
    assert_eq!(vm.cpu.bc, vm.cpu.af);
    assert_eq!(vm.cpu.sp, 0xFFFE);
    vm.step().unwrap();
    vm.step().unwrap();
    assert_eq!(vm.mem_read(0xC000), Ok(0x42));
    vm.step().unwrap();
    assert_eq!(vm.cpu.get_a(), 0x43);
    vm.step().unwrap();
    assert_eq!(vm.cpu.get_a(), 0x00);
    assert!(vm.cpu.is_fz());
    assert_eq!(vm.cpu.pc, program.len() as u16);
}

#[test]
fn pop_af_keeps_the_low_nibble_of_f_clear() {
    let program = [
        0x31, 0xFE, 0xFF, // LD SP, 0xFFFE
        0x01, 0xFF, 0x12, // LD BC, 0x12FF
        0xC5, // PUSH BC
        0xF1, // POP AF
        0x37, // SCF
        0x3F, // CCF
        0xC6, 0xFF, // ADD A, 0xFF
    ];
    let mut vm = machine(&program);
    for _ in 0..4 {
        vm.step().unwrap();
        assert_eq!(vm.cpu.af & 0x000F, 0);
    }
    // The flags come from the popped byte, its low nibble does not.
    assert_eq!(vm.cpu.af, 0x12F0);
    for _ in 0..3 {
        vm.step().unwrap();
        assert_eq!(vm.cpu.af & 0x000F, 0);
    }
}

#[test]
fn ram_reads_back_what_was_written() {
    let mut vm = machine(&[]);
    vm.mem_write(0xC123, 0x5A).unwrap();
    vm.mem_write(0xFF90, 0xA5).unwrap();
    assert_eq!(vm.mem_read(0xC123), Ok(0x5A));
    assert_eq!(vm.mem_read(0xFF90), Ok(0xA5));
    assert_eq!(vm.mem_read(0xC124), Ok(0x00));
}

#[test]
fn refused_accesses() {
    let mut vm = machine(&[]);
    assert_eq!(vm.mem_write(0x4000, 1), Err(Error::RomBankNWrite));
    assert_eq!(vm.mem_write(0xE000, 1), Err(Error::EchoWrite));
    assert_eq!(vm.mem_read(0xFEA0), Err(Error::ProhibitedRead(0xFEA0)));
    assert_eq!(vm.mem_write(0xFF50, 2), Err(Error::BootLockValue(2)));
    // An interrupt enable value with its three high bits set cannot be emulated.
    assert!(matches!(vm.mem_write(0xFFFF, 0xE0), Err(Error::Unsupported(_))));
}

#[test]
fn div_write_clears_it() {
    // 64 NOPs of 4 cycles each: DIV counts up once.
    let mut vm = machine(&[]);
    for _ in 0..64 {
        vm.step().unwrap();
    }
    assert_eq!(vm.mem_read(0xFF04), Ok(1));
    vm.mem_write(0xFF04, 0x77).unwrap();
    assert_eq!(vm.mem_read(0xFF04), Ok(0));
}

#[test]
fn boot_rom_is_unmapped_by_its_lock() {
    let mut vm = machine(&[0xAB]);
    assert_eq!(vm.mem_read(0x0000), Ok(0xAB));
    // Writing 0 does nothing.
    assert_eq!(vm.mem_write(0xFF50, 0), Ok(()));
    assert_eq!(vm.mem_read(0xFF50), Ok(0));
    assert_eq!(vm.mem_read(0x0000), Ok(0xAB));
    vm.mem_write(0xFF50, 1).unwrap();
    assert_eq!(vm.mem_read(0x0000), Ok(0x00));
    // Once unmapped, the boot ROM stays so: a 0 does not map it again.
    assert_eq!(vm.mem_write(0xFF50, 0), Ok(()));
    assert_eq!(vm.mem_read(0xFF50), Ok(1));
    assert_eq!(vm.mem_read(0x0000), Ok(0x00));
}

#[test]
fn a_served_interrupt_returns() {
    let mut program = vec![
        0x31, 0xFE, 0xFF, // LD SP, 0xFFFE
        0x3E, 0x01, // LD A, 1
        0xE0, 0xFF, // LDH (IE), A
        0xE0, 0x0F, // LDH (IF), A: VBlank requested
        0xFB, // EI: IME comes on after the next instruction
        0x00, // NOP
        0x00, // NOP
    ];
    program.resize(0x41, 0x00);
    program[0x40] = 0xD9; // RETI
    let mut vm = machine(&program);
    for _ in 0..5 {
        vm.step().unwrap();
    }
    assert!(!vm.interrupt_master_enable_flag);
    assert_eq!(vm.cpu.pc, 0x0A);
    vm.step().unwrap();
    // The NOP ran, then the VBlank interrupt was served.
    assert_eq!(vm.cpu.pc, 0x40);
    assert_eq!(vm.cpu.sp, 0xFFFC);
    assert_eq!(vm.mem_read(0xFFFC), Ok(0x0B));
    assert_eq!(vm.mem_read(0xFFFD), Ok(0x00));
    assert!(!vm.interrupt_master_enable_flag);
    assert_eq!(vm.mem_read(0xFF0F), Ok(0xE0));
    vm.step().unwrap();
    assert_eq!(vm.cpu.pc, 0x0B);
    assert_eq!(vm.cpu.sp, 0xFFFE);
    assert!(vm.interrupt_master_enable_flag);
}
