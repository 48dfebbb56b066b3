use lameboy::cartridge::{is_header_supported, Cartridge};
use lameboy::conf::Error;
use lameboy::mem::Mem;
use lameboy::mmu::Mmu;

/// A 64k MBC1 cartridge (4 ROM banks) with one 8k RAM bank; each bank starts with its number.
fn mbc1_rom() -> Vec<u8> {
    let mut rom = vec![0u8; 0x10000];
    rom[0x0147] = 0x01;
    rom[0x0148] = 0x01;
    rom[0x0149] = 0x02;
    for bank in 0..4usize {
        rom[bank * 0x4000 + 0x100] = bank as u8;
    }
    rom[0x0134..0x0138].copy_from_slice(b"GAME");
    rom
}

#[test]
fn headers() {
    assert!(is_header_supported(&mbc1_rom()));
    let mut rom = mbc1_rom();
    rom[0x0147] = 0x13;
    assert!(!is_header_supported(&rom));
    let mut rom = mbc1_rom();
    rom[0x0149] = 0x01;
    assert!(!is_header_supported(&rom));
    assert!(!is_header_supported(&vec![0u8; 0x100]));
}

#[test]
fn title() {
    let c = Cartridge::new(mbc1_rom());
    assert_eq!(c.get_title(), b"GAME".to_vec());
}

#[test]
fn rom_banks_switch() {
    let mut c = Cartridge::new(mbc1_rom());
    assert_eq!(c.rom_bank_selector(), 1);
    assert_eq!(c.read(0x4100), Ok(1));
    c.write(0x2000, 3);
    assert_eq!(c.read(0x4100), Ok(3));
    // Bank 0 cannot be selected there: it reads as bank 1.
    c.write(0x2000, 0);
    assert_eq!(c.rom_bank_selector(), 1);
    assert_eq!(c.read(0x0100), Ok(0));
}

#[test]
fn ram_needs_enabling() {
    let mut c = Cartridge::new(mbc1_rom());
    assert!(c.is_read_defined(0xA000));
    assert_eq!(c.read(0xA000), Err(Error::CartridgeRamRead));
    c.write(0x0000, 0x0A);
    c.write(0xA010, 0x77);
    assert_eq!(c.read(0xA010), Ok(0x77));
    c.write(0x0000, 0x00);
    assert_eq!(c.read(0xA010), Err(Error::CartridgeRamRead));
    assert_eq!(c.read(0xC000), Err(Error::CartridgeAddr(0xC000)));
}

#[test]
fn rom_only_cartridge_has_no_ram() {
    let mut rom = vec![0u8; 0x8000];
    rom[0x0147] = 0x00;
    let c = Cartridge::new(rom);
    assert!(!c.is_write_defined(0xA000));
    assert!(c.is_write_defined(0x2000));
}

#[test]
fn memory_map() {
    let mut m = Mmu::new(Cartridge::new(mbc1_rom())).unwrap();
    let mut bios = vec![0u8; 0x100];
    bios[0] = 0x31;
    m.load_bios(&bios);
    assert_eq!(m.read(0x0000), Ok(0x31));
    assert_eq!(m.read(0x0100), Ok(0));
    m.write(0xC000, 9).unwrap();
    assert_eq!(m.read(0xC000), Ok(9));
    m.write(0xFFFE, 8).unwrap();
    assert_eq!(m.read(0xFFFE), Ok(8));
    assert_eq!(m.read(0xFF00), Err(Error::UnimplementedRead(0xFF00)));
    assert_eq!(m.write(0xFF00, 1), Err(Error::UnimplementedWrite(0xFF00)));
    m.set_boot_lock_reg(1);
    assert_eq!(m.get_boot_lock_reg(), 1);
    assert_eq!(m.read(0x0000), Ok(0));
    m.reset().unwrap();
    assert_eq!(m.read(0x0000), Ok(0x31));
    m.write(0x2000, 2).unwrap();
    assert_eq!(m.rom_bank_selector(), 2);
}

#[test]
fn boot_memory_map() {
    let mut rom = vec![0u8; 0x8000];
    rom[0x0150] = 0x99;
    let mut m = Mem::new(Cartridge::new(rom), vec![0u8; 0x7EA0], vec![0u8; 0xA0]).unwrap();
    assert!(m.is_bios_mounted());
    assert_eq!(m.read(0x0150), Ok(0x99));
    assert_eq!(m.write(0x8001, 3), Ok(()));
    assert_eq!(m.read(0x8001), Ok(3));
    assert_eq!(m.write(0xFE01, 4), Ok(()));
    assert_eq!(m.read(0xFE01), Ok(4));
    assert_eq!(m.write(0xFF81, 5), Ok(()));
    assert_eq!(m.read(0xFF81), Ok(5));
    assert_eq!(m.write(0xC000, 1), Err(Error::UnimplementedWrite(0xC000)));
    assert_eq!(m.read(0xC000), Err(Error::UnimplementedRead(0xC000)));
    m.reset().unwrap();
    assert!(m.is_bios_mounted());
}
