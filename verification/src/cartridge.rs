use vstd::prelude::*;

use crate::bits::lemma_u8;

use crate::conf::{
    Error, MEM_AREA_EXTERNAL_END, MEM_AREA_EXTERNAL_START, MEM_AREA_ROM_BANK_0_END,
    MEM_AREA_ROM_BANK_0_START, MEM_AREA_ROM_BANK_N_END, MEM_AREA_ROM_BANK_N_START,
};

verus! {

/// Access to the cartridge RAM.
#[derive(Clone, Copy, PartialEq, Eq, Structural, Debug)]
pub enum RamGate {
    /// All values but 0b1010 disable access to cartridge RAM.
    DisableRamAccess,
    /// 0b1010 enables access to cartridge RAM.
    EnableRamAccess,
}

/// Where a virtual address lands in the cartridge.
#[derive(Clone, Copy, PartialEq, Eq, Structural, Debug)]
pub enum PhysicalAddr {
    Mapped(u32),
    NotAccessible,
}

#[derive(Clone, Copy, PartialEq, Eq, Structural, Debug)]
pub enum Bank2Mode {
    /// BANK2 affects only accesses to 0x4000-0x7FFF.
    Mode0,
    /// BANK2 affects accesses to 0x0000-0x3FFF, 0x4000-0x7FFF, 0xA000-0xBFFF.
    Mode1,
}

/// The MBC1 memory bank controller.
#[derive(Clone, Copy, PartialEq, Eq, Structural, Debug)]
pub struct MBC1 {
    pub ram_gate_reg: RamGate,
    pub bank_1_reg: u8,
    pub bank_2_reg: u8,
    pub bank2_mode_reg: Bank2Mode,
    /// Number of 16k (0x4000) banks.
    pub rom_bank_size: usize,
    /// Number of 8k (0x2000) banks.
    pub ram_bank_size: usize,
}

/// The bank controller of a cartridge.
#[derive(Clone, Copy, PartialEq, Eq, Structural, Debug)]
pub enum Controller {
    RomOnly,
    Mbc1(MBC1),
}

impl MBC1 {
    /// BANK1 is never 0 and BANK2 holds two bits.
    pub open spec fn wf(&self) -> bool {
        &&& 1 <= self.bank_1_reg <= 31
        &&& self.bank_2_reg <= 3
    }

    /// The ROM bank mapped at 0x4000-0x7FFF.
    pub open spec fn spec_rom_bank_selector(&self) -> u32 {
        if self.rom_bank_size >= 64 {
            (self.bank_2_reg * 32 + self.bank_1_reg) as u32
        } else {
            self.bank_1_reg as u32
        }
    }

    /// Where a virtual address lands.
    pub open spec fn spec_translate_addr(&self, virtual_loc: u16) -> PhysicalAddr {
        if virtual_loc <= MEM_AREA_ROM_BANK_0_END {
            match self.bank2_mode_reg {
                Bank2Mode::Mode0 => PhysicalAddr::Mapped(virtual_loc as u32),
                Bank2Mode::Mode1 => PhysicalAddr::Mapped(
                    (self.bank_2_reg * 0x80000 + virtual_loc % 0x4000) as u32,
                ),
            }
        } else if virtual_loc <= MEM_AREA_ROM_BANK_N_END {
            PhysicalAddr::Mapped((virtual_loc % 0x4000 + self.spec_rom_bank_selector() * 0x4000) as u32)
        } else {
            match self.ram_gate_reg {
                RamGate::EnableRamAccess => match self.bank2_mode_reg {
                    Bank2Mode::Mode0 => PhysicalAddr::Mapped((virtual_loc - MEM_AREA_EXTERNAL_START) as u32),
                    Bank2Mode::Mode1 => if self.ram_bank_size >= 4 {
                        PhysicalAddr::Mapped(
                            (virtual_loc - MEM_AREA_EXTERNAL_START + self.bank_2_reg * 0x2000) as u32,
                        )
                    } else {
                        PhysicalAddr::Mapped((virtual_loc - MEM_AREA_EXTERNAL_START) as u32)
                    },
                },
                RamGate::DisableRamAccess => PhysicalAddr::NotAccessible,
            }
        }
    }

    /// The registers after a write to `loc`.
    pub open spec fn spec_set_register(&self, loc: u16, byte: u8) -> MBC1 {
        if loc <= 0x1FFF {
            MBC1 {
                ram_gate_reg: if byte % 16 == 0b1010 {
                    RamGate::EnableRamAccess
                } else {
                    RamGate::DisableRamAccess
                },
                ..*self
            }
        } else if loc <= 0x3FFF {
            MBC1 { bank_1_reg: if byte % 32 == 0 { 1 } else { (byte % 32) as u8 }, ..*self }
        } else if loc <= 0x5FFF {
            MBC1 { bank_2_reg: (byte % 4) as u8, ..*self }
        } else {
            MBC1 {
                bank2_mode_reg: if byte % 2 == 1 {
                    Bank2Mode::Mode1
                } else {
                    Bank2Mode::Mode0
                },
                ..*self
            }
        }
    }

    pub fn new(rom_bank_size: usize, ram_bank_size: usize) -> (r: MBC1)
        ensures
            r.wf(),
            r.ram_gate_reg == RamGate::DisableRamAccess,
            r.bank_1_reg == 1,
            r.bank_2_reg == 0,
            r.bank2_mode_reg == Bank2Mode::Mode0,
            r.rom_bank_size == rom_bank_size,
            r.ram_bank_size == ram_bank_size,
    {
        MBC1 {
            ram_gate_reg: RamGate::DisableRamAccess,
            bank_1_reg: 1,
            bank_2_reg: 0,
            bank2_mode_reg: Bank2Mode::Mode0,
            rom_bank_size,
            ram_bank_size,
        }
    }

    /// Updates a bank register; the address picks which one.
    pub fn set_register(&mut self, loc: u16, byte: u8)
        requires
            old(self).wf(),
            loc <= 0x7FFF,
        ensures
            final(self).wf(),
            *final(self) == old(self).spec_set_register(loc, byte),
    {
        proof {
            lemma_u8(byte);
        }
        if loc <= 0x1FFF {
            if byte & 0xF == 0b1010 {
                self.ram_gate_reg = RamGate::EnableRamAccess;
            } else {
                self.ram_gate_reg = RamGate::DisableRamAccess;
            }
        } else if loc <= 0x3FFF {
            let mut byte = byte & 0b0001_1111;
            if byte == 0 {
                byte = 1;
            }
            self.bank_1_reg = byte;
        } else if loc <= 0x5FFF {
            self.bank_2_reg = byte & 0b0011;
        } else {
            self.bank2_mode_reg = if byte & 1 == 1 {
                Bank2Mode::Mode1
            } else {
                Bank2Mode::Mode0
            };
        }
    }

    /// The ROM bank mapped at 0x4000-0x7FFF.
    pub fn rom_bank_selector(&self) -> (r: u32)
        requires
            self.wf(),
        ensures
            r == self.spec_rom_bank_selector(),
    {
        if self.rom_bank_size >= 64 {
            let b2 = self.bank_2_reg as u32;
            let b1 = self.bank_1_reg as u32;
            proof {
                lemma_mbc1_bits(0, b1, b2, 0, 0);
            }
            (b2 << 5u32) | b1
        } else {
            self.bank_1_reg as u32
        }
    }

    /// Where a virtual address lands in ROM or RAM.
    pub fn translate_addr(&self, virtual_loc: u16) -> (r: PhysicalAddr)
        requires
            self.wf(),
            virtual_loc <= MEM_AREA_ROM_BANK_N_END || (MEM_AREA_EXTERNAL_START <= virtual_loc
                <= MEM_AREA_EXTERNAL_END),
        ensures
            r == self.spec_translate_addr(virtual_loc),
    {
        let v = virtual_loc as u32;
        proof {
            lemma_mbc1_bits(v, 1, self.bank_2_reg as u32, 0, 0);
        }
        if virtual_loc <= MEM_AREA_ROM_BANK_0_END {
            match self.bank2_mode_reg {
                Bank2Mode::Mode0 => PhysicalAddr::Mapped(virtual_loc as u32),
                Bank2Mode::Mode1 => {
                    let b2 = self.bank_2_reg as u32;
                    PhysicalAddr::Mapped((b2 << 19u32) | (v & 0b11_1111_1111_1111u32))
                },
            }
        } else if virtual_loc <= MEM_AREA_ROM_BANK_N_END {
            // To specify the upper two bits (bits 5-6) of the ROM Bank number (1 MiB ROM or larger carts only)
            let rom_bank_selector = self.rom_bank_selector();
            proof {
                lemma_mbc1_bits(v, 1, 0, rom_bank_selector, 0);
            }
            let physical_addr = (v & 0b11_1111_1111_1111u32) | (rom_bank_selector << 14u32);
            PhysicalAddr::Mapped(physical_addr)
        } else {
            match self.ram_gate_reg {
                RamGate::EnableRamAccess => match self.bank2_mode_reg {
                    Bank2Mode::Mode0 => {
                        PhysicalAddr::Mapped((virtual_loc - MEM_AREA_EXTERNAL_START) as u32)
                    },
                    Bank2Mode::Mode1 => {
                        let off = (virtual_loc - MEM_AREA_EXTERNAL_START) as u32;
                        proof {
                            lemma_mbc1_bits(0, 1, self.bank_2_reg as u32, 0, off);
                        }
                        if self.ram_bank_size >= 4 {
                            let b2 = self.bank_2_reg as u32;
                            PhysicalAddr::Mapped((off & 0b1_1111_1111_1111u32) | (b2 << 13u32))
                        } else {
                            PhysicalAddr::Mapped(off & 0b1_1111_1111_1111u32)
                        }
                    },
                },
                RamGate::DisableRamAccess => PhysicalAddr::NotAccessible,
            }
        }
    }
}

impl Controller {
    pub open spec fn wf(&self) -> bool {
        match self {
            Controller::RomOnly => true,
            Controller::Mbc1(m) => m.wf(),
        }
    }

    /// Whether translating `loc` is defined (a ROM-only cartridge maps ROM alone).
    pub open spec fn translate_defined(&self, loc: u16) -> bool {
        match self {
            Controller::RomOnly => loc <= MEM_AREA_ROM_BANK_N_END,
            Controller::Mbc1(_) => loc <= MEM_AREA_ROM_BANK_N_END || (MEM_AREA_EXTERNAL_START
                <= loc <= MEM_AREA_EXTERNAL_END),
        }
    }

    pub open spec fn spec_translate_addr(&self, loc: u16) -> PhysicalAddr {
        match self {
            Controller::RomOnly => PhysicalAddr::Mapped(loc as u32),
            Controller::Mbc1(m) => m.spec_translate_addr(loc),
        }
    }

    pub open spec fn spec_set_register(&self, loc: u16, byte: u8) -> Controller {
        match self {
            Controller::RomOnly => Controller::RomOnly,
            Controller::Mbc1(m) => Controller::Mbc1(m.spec_set_register(loc, byte)),
        }
    }

    pub open spec fn spec_rom_bank_selector(&self) -> u32 {
        match self {
            Controller::RomOnly => 1,
            Controller::Mbc1(m) => m.spec_rom_bank_selector(),
        }
    }

    /// A register write; a ROM-only cartridge has none and ignores it.
    pub fn set_register(&mut self, loc: u16, byte: u8)
        requires
            old(self).wf(),
            loc <= 0x7FFF,
        ensures
            final(self).wf(),
            *final(self) == old(self).spec_set_register(loc, byte),
    {
        match self {
            Controller::RomOnly => {},
            Controller::Mbc1(m) => m.set_register(loc, byte),
        }
    }

    pub fn translate_addr(&self, loc: u16) -> (r: PhysicalAddr)
        requires
            self.wf(),
            self.translate_defined(loc),
        ensures
            r == self.spec_translate_addr(loc),
    {
        match self {
            Controller::RomOnly => PhysicalAddr::Mapped(loc as u32),
            Controller::Mbc1(m) => m.translate_addr(loc),
        }
    }

    pub fn rom_bank_selector(&self) -> (r: u32)
        requires
            self.wf(),
        ensures
            r == self.spec_rom_bank_selector(),
    {
        match self {
            Controller::RomOnly => 1,
            Controller::Mbc1(m) => m.rom_bank_selector(),
        }
    }
}

/// The cartridge types whose controller this emulator implements, and the sizes it accepts.
pub open spec fn header_supported(data: Seq<u8>) -> bool {
    &&& data.len() > 0x0149
    &&& (data[0x0147] == 0x00 || ((data[0x0147] == 0x01 || data[0x0147] == 0x02 || data[0x0147]
        == 0x03) && data[0x0148] <= 8 && (data[0x0149] == 0x00 || data[0x0149] == 0x02
        || data[0x0149] == 0x03 || data[0x0149] == 0x04 || data[0x0149] == 0x05)))
}

/// Whether `Cartridge::new` takes a ROM image: its header names no controller, or MBC1 with at
/// most 512 ROM banks and a known RAM size.
pub fn is_header_supported(data: &Vec<u8>) -> (r: bool)
    ensures
        r == header_supported(data@),
{
    if data.len() <= 0x0149 {
        return false;
    }
    let kind = data[0x0147];
    let rom = data[0x0148];
    let ram = data[0x0149];
    kind == 0x00 || ((kind == 0x01 || kind == 0x02 || kind == 0x03) && rom <= 8 && (ram == 0x00
        || ram == 0x02 || ram == 0x03 || ram == 0x04 || ram == 0x05))
}

/// Number of 8k RAM banks for the RAM size code of the header.
pub open spec fn ram_banks_of(code: u8) -> nat {
    if code == 0x02 {
        1
    } else if code == 0x03 {
        4
    } else if code == 0x04 {
        16
    } else if code == 0x05 {
        8
    } else {
        0
    }
}

/// The controller that the header asks for.
pub open spec fn controller_of(data: Seq<u8>) -> Controller {
    if data[0x0147] == 0x00 {
        Controller::RomOnly
    } else {
        Controller::Mbc1(
            MBC1 {
                ram_gate_reg: RamGate::DisableRamAccess,
                bank_1_reg: 1,
                bank_2_reg: 0,
                bank2_mode_reg: Bank2Mode::Mode0,
                rom_bank_size: (2 * pow2_u8(data[0x0148])) as usize,
                ram_bank_size: ram_banks_of(data[0x0149]) as usize,
            },
        )
    }
}

/// 2 to the power of a small exponent.
pub open spec fn pow2_u8(e: u8) -> nat
    decreases e,
{
    if e == 0 {
        1
    } else {
        2 * pow2_u8((e - 1) as u8)
    }
}

/// Number of 16k ROM banks for the ROM size code of the header.
fn rom_banks(rom_bank_size_bit: u8) -> (r: usize)
    requires
        rom_bank_size_bit <= 8,
    ensures
        r == 2 * pow2_u8(rom_bank_size_bit),
{
    reveal_with_fuel(pow2_u8, 9);
    let r: usize = 2usize << rom_bank_size_bit;
    assert((rom_bank_size_bit == 0 ==> 2usize << rom_bank_size_bit == 2) && (rom_bank_size_bit == 1
        ==> 2usize << rom_bank_size_bit == 4) && (rom_bank_size_bit == 2 ==> 2usize
        << rom_bank_size_bit == 8) && (rom_bank_size_bit == 3 ==> 2usize << rom_bank_size_bit == 16)
        && (rom_bank_size_bit == 4 ==> 2usize << rom_bank_size_bit == 32) && (rom_bank_size_bit == 5
        ==> 2usize << rom_bank_size_bit == 64) && (rom_bank_size_bit == 6 ==> 2usize
        << rom_bank_size_bit == 128) && (rom_bank_size_bit == 7 ==> 2usize << rom_bank_size_bit
        == 256) && (rom_bank_size_bit == 8 ==> 2usize << rom_bank_size_bit == 512)) by (bit_vector);
    r
}

/// What a cartridge holds: its ROM image, its RAM and the state of its bank controller.
pub struct CartState {
    pub rom: Seq<u8>,
    pub ram: Seq<u8>,
    pub controller: Controller,
}

impl CartState {
    /// Whether a read at `loc` is defined: the address it lands on lies in ROM or RAM.
    pub open spec fn read_defined(&self, loc: u16) -> bool {
        if loc <= MEM_AREA_ROM_BANK_0_END {
            (loc as int) < self.rom.len()
        } else if loc <= MEM_AREA_ROM_BANK_N_END {
            self.controller.spec_translate_addr(loc) matches PhysicalAddr::Mapped(a) && (a as int)
                < self.rom.len()
        } else if MEM_AREA_EXTERNAL_START <= loc <= MEM_AREA_EXTERNAL_END {
            &&& self.controller is Mbc1
            &&& (self.controller.spec_translate_addr(loc) matches PhysicalAddr::Mapped(a) ==> (a as int)
                < self.ram.len())
        } else {
            true
        }
    }

    /// What a read at `loc` gives.
    pub open spec fn spec_read(&self, loc: u16) -> Result<u8, Error> {
        if loc <= MEM_AREA_ROM_BANK_0_END {
            Ok(self.rom[loc as int])
        } else if loc <= MEM_AREA_ROM_BANK_N_END {
            match self.controller.spec_translate_addr(loc) {
                PhysicalAddr::Mapped(a) => Ok(self.rom[a as int]),
                PhysicalAddr::NotAccessible => Err(Error::CartridgeBankRead),
            }
        } else if MEM_AREA_EXTERNAL_START <= loc <= MEM_AREA_EXTERNAL_END {
            match self.controller.spec_translate_addr(loc) {
                PhysicalAddr::Mapped(a) => Ok(self.ram[a as int]),
                PhysicalAddr::NotAccessible => Err(Error::CartridgeRamRead),
            }
        } else {
            Err(Error::CartridgeAddr(loc))
        }
    }

    /// Whether a write at `loc` is defined.
    pub open spec fn write_defined(&self, loc: u16) -> bool {
        if loc <= 0x7FFF {
            true
        } else if MEM_AREA_EXTERNAL_START <= loc <= MEM_AREA_EXTERNAL_END {
            &&& self.controller is Mbc1
            &&& (self.controller.spec_translate_addr(loc) matches PhysicalAddr::Mapped(a) ==> (a as int)
                < self.ram.len())
        } else {
            false
        }
    }

    /// The cartridge after a write: below 0x8000 it sets a bank register, above it a RAM byte.
    pub open spec fn after_write(&self, loc: u16, byte: u8) -> CartState {
        if loc <= 0x7FFF {
            CartState { controller: self.controller.spec_set_register(loc, byte), ..*self }
        } else {
            CartState {
                ram: match self.controller.spec_translate_addr(loc) {
                    PhysicalAddr::Mapped(a) => self.ram.update(a as int, byte),
                    PhysicalAddr::NotAccessible => self.ram,
                },
                ..*self
            }
        }
    }
}


/// A game cartridge: its ROM, its RAM and its bank controller.
pub struct Cartridge {
    data: Vec<u8>,
    ram: Vec<u8>,
    ctrl: Controller,
}

impl View for Cartridge {
    type V = CartState;

    open spec fn view(&self) -> CartState {
        CartState { rom: self.rom(), ram: self.ram(), controller: self.controller() }
    }
}

impl Cartridge {
    /// The ROM image.
    pub closed spec fn rom(&self) -> Seq<u8> {
        self.data@
    }

    /// The cartridge RAM.
    pub closed spec fn ram(&self) -> Seq<u8> {
        self.ram@
    }

    /// The bank controller and its registers.
    pub closed spec fn controller(&self) -> Controller {
        self.ctrl
    }

    pub open spec fn wf(&self) -> bool {
        self.controller().wf()
    }

    /// Whether a read at `loc` is defined: the address it lands on lies in ROM or RAM.
    pub open spec fn read_defined(&self, loc: u16) -> bool {
        self@.read_defined(loc)
    }

    /// What a read at `loc` gives.
    pub open spec fn spec_read(&self, loc: u16) -> Result<u8, Error> {
        self@.spec_read(loc)
    }

    /// Whether a write at `loc` is defined.
    pub open spec fn write_defined(&self, loc: u16) -> bool {
        self@.write_defined(loc)
    }

    /// Builds a cartridge from a ROM image whose header names a supported controller.
    pub fn new(data: Vec<u8>) -> (r: Self)
        requires
            header_supported(data@),
        ensures
            r.wf(),
            r.rom() == data@,
            r.controller() == controller_of(data@),
            r.ram().len() == (if data@[0x0147] == 0x00 {
                0
            } else {
                ram_banks_of(data@[0x0149]) * 0x2000
            }),
            forall|i: int| 0 <= i < r.ram().len() ==> r.ram()[i] == 0,
    {
        let mut ram_size = 0usize;
        let ctrl = if data[0x0147] == 0x00 {
            Controller::RomOnly
        } else {
            let rom_bank_size = rom_banks(data[0x0148]);

            let ram_bank_size_bit = data[0x0149];
            let ram_bank_size: usize = match ram_bank_size_bit {
                0x00 => 0,
                0x02 => 1,
                0x03 => 4,
                0x04 => 16,
                _ => 8,
            };
            ram_size = ram_bank_size * 0x2000;

            Controller::Mbc1(MBC1::new(rom_bank_size, ram_bank_size))
        };

        let mut ram: Vec<u8> = Vec::new();
        let mut i: usize = 0;
        while i < ram_size
            invariant
                0 <= i <= ram_size,
                ram@.len() == i,
                forall|j: int| 0 <= j < i ==> ram@[j] == 0,
            decreases ram_size - i,
        {
            ram.push(0);
            i += 1;
        }

        Cartridge { data, ctrl, ram }
    }

    /// Reads a byte of ROM (bank 0 or the switchable bank) or of cartridge RAM.
    pub fn read(&self, loc: u16) -> (r: Result<u8, Error>)
        requires
            self.wf(),
            self.read_defined(loc),
        ensures
            r == self.spec_read(loc),
    {
        if loc <= MEM_AREA_ROM_BANK_0_END {
            Ok(self.data[loc as usize])
        } else if loc <= MEM_AREA_ROM_BANK_N_END {
            match self.ctrl.translate_addr(loc) {
                PhysicalAddr::Mapped(addr) => Ok(self.data[addr as usize]),
                PhysicalAddr::NotAccessible => Err(Error::CartridgeBankRead),
            }
        } else if MEM_AREA_EXTERNAL_START <= loc && loc <= MEM_AREA_EXTERNAL_END {
            match self.ctrl.translate_addr(loc) {
                PhysicalAddr::Mapped(addr) => Ok(self.ram[addr as usize]),
                PhysicalAddr::NotAccessible => Err(Error::CartridgeRamRead),
            }
        } else {
            Err(Error::CartridgeAddr(loc))
        }
    }

    /// Writes a bank register (0x0000-0x7FFF) or a byte of cartridge RAM.
    pub fn write(&mut self, loc: u16, byte: u8)
        requires
            old(self).wf(),
            old(self).write_defined(loc),
        ensures
            final(self).wf(),
            final(self)@ == old(self)@.after_write(loc, byte),
            final(self).rom() == old(self).rom(),
            loc <= 0x7FFF ==> final(self).controller() == old(self).controller().spec_set_register(
                loc,
                byte,
            ) && final(self).ram() == old(self).ram(),
            loc > 0x7FFF ==> final(self).controller() == old(self).controller() && final(self).ram()
                == match old(self).controller().spec_translate_addr(loc) {
                PhysicalAddr::Mapped(a) => old(self).ram().update(a as int, byte),
                PhysicalAddr::NotAccessible => old(self).ram(),
            },
    {
        if loc <= 0x7FFF {
            self.ctrl.set_register(loc, byte);
        } else {
            match self.ctrl.translate_addr(loc) {
                PhysicalAddr::Mapped(addr) => {
                    self.ram.set(addr as usize, byte);
                },
                PhysicalAddr::NotAccessible => (),
            };
        }
    }

    /// The ROM bank mapped at 0x4000-0x7FFF.
    pub fn rom_bank_selector(&self) -> (r: u32)
        requires
            self.wf(),
        ensures
            r == self.controller().spec_rom_bank_selector(),
    {
        self.ctrl.rom_bank_selector()
    }

    /// Whether a read at `loc` is defined.
    pub fn is_read_defined(&self, loc: u16) -> (r: bool)
        requires
            self.wf(),
        ensures
            r == self.read_defined(loc),
    {
        if loc <= MEM_AREA_ROM_BANK_0_END {
            (loc as usize) < self.data.len()
        } else if loc <= MEM_AREA_ROM_BANK_N_END {
            match self.ctrl.translate_addr(loc) {
                PhysicalAddr::Mapped(a) => (a as usize) < self.data.len(),
                PhysicalAddr::NotAccessible => false,
            }
        } else if MEM_AREA_EXTERNAL_START <= loc && loc <= MEM_AREA_EXTERNAL_END {
            self.is_ram_access_defined(loc)
        } else {
            true
        }
    }

    /// Whether a write at `loc` is defined.
    pub fn is_write_defined(&self, loc: u16) -> (r: bool)
        requires
            self.wf(),
        ensures
            r == self.write_defined(loc),
    {
        if loc <= 0x7FFF {
            true
        } else if MEM_AREA_EXTERNAL_START <= loc && loc <= MEM_AREA_EXTERNAL_END {
            self.is_ram_access_defined(loc)
        } else {
            false
        }
    }

    /// Whether cartridge RAM at `loc` can be reached: the controller has RAM and the byte it
    /// maps to, if any, lies in it.
    fn is_ram_access_defined(&self, loc: u16) -> (r: bool)
        requires
            self.wf(),
            MEM_AREA_EXTERNAL_START <= loc <= MEM_AREA_EXTERNAL_END,
        ensures
            r == (self.controller() is Mbc1 && (self.controller().spec_translate_addr(loc) matches PhysicalAddr::Mapped(a) ==> (a as int) < self.ram().len())),
    {
        match &self.ctrl {
            Controller::RomOnly => false,
            Controller::Mbc1(_) => match self.ctrl.translate_addr(loc) {
                PhysicalAddr::Mapped(a) => (a as usize) < self.ram.len(),
                PhysicalAddr::NotAccessible => true,
            },
        }
    }

    /// The title bytes of the header (0x0134-0x0143), up to the first zero byte.
    pub fn get_title(&self) -> (r: Vec<u8>)
        ensures
            r@.len() <= 16,
            forall|i: int| 0 <= i < r@.len() ==> r@[i] != 0 && 0x0134 + i < self.rom().len()
                && r@[i] == self.rom()[0x0134 + i],
            r@.len() < 16 ==> (0x0134 + r@.len() >= self.rom().len() || self.rom()[0x0134
                + r@.len() as int] == 0),
    {
        let mut title: Vec<u8> = Vec::new();
        let mut i: usize = 0;
        while i < 16
            invariant
                0 <= i <= 16,
                title@.len() == i,
                forall|j: int| 0 <= j < i ==> title@[j] != 0 && 0x0134 + j < self.data@.len()
                    && title@[j] == self.data@[0x0134 + j],
            decreases 16 - i,
        {
            if 0x0134 + i >= self.data.len() {
                assert(title@.len() == i);
                return title;
            }
            let c = self.data[0x0134 + i];
            if c == 0 {
                assert(self.rom()[0x0134 + i as int] == 0);
                return title;
            }
            title.push(c);
            i += 1;
        }
        title
    }
}

/// A byte written to enabled cartridge RAM is what a later read there gives.
pub proof fn lemma_ram_write_then_read(c1: Cartridge, c2: Cartridge, loc: u16, byte: u8)
    requires
        c1.wf(),
        c1.write_defined(loc),
        MEM_AREA_EXTERNAL_START <= loc <= MEM_AREA_EXTERNAL_END,
        c1.controller().spec_translate_addr(loc) is Mapped,
        c2.controller() == c1.controller(),
        c2.rom() == c1.rom(),
        c2.ram() == c1.ram().update(c1.controller().spec_translate_addr(loc)->0 as int, byte),
    ensures
        c2.read_defined(loc),
        c2.spec_read(loc) == Ok::<u8, Error>(byte),
{
}

/// A write to 0x2000-0x3FFF sets BANK1 to the five low bits of the byte, 0 counting as 1, and
/// leaves the other registers: each ROM bank from 1 to 31 can be selected, and with fewer than
/// 64 banks it is the one then mapped at 0x4000-0x7FFF.
pub proof fn lemma_mbc1_bank1_write(m: MBC1, loc: u16, byte: u8, off: u16)
    requires
        0x2000 <= loc <= 0x3FFF,
        off < 0x4000,
    ensures
        m.spec_set_register(loc, byte) == (MBC1 {
            bank_1_reg: if byte & 0x1F == 0 { 1u8 } else { byte & 0x1F },
            ..m
        }),
        m.rom_bank_size < 64 ==> m.spec_set_register(loc, byte).spec_translate_addr(
            (0x4000 + off) as u16,
        ) == PhysicalAddr::Mapped(
            (off + (if byte & 0x1F == 0 { 1u8 } else { byte & 0x1F }) * 0x4000) as u32,
        ),
{
    assert(byte % 32 == byte & 0x1F) by (bit_vector);
}

/// The other bank registers: a write below 0x2000 enables the RAM exactly when its low nibble
/// is 0xA, one to 0x4000-0x5FFF sets BANK2 to its two low bits, and one to 0x6000-0x7FFF picks
/// the banking mode from bit 0; each leaves the other registers as they were.
pub proof fn lemma_mbc1_other_writes(m: MBC1, loc: u16, byte: u8)
    ensures
        loc <= 0x1FFF ==> m.spec_set_register(loc, byte) == (MBC1 {
            ram_gate_reg: if byte & 0x0F == 0x0A {
                RamGate::EnableRamAccess
            } else {
                RamGate::DisableRamAccess
            },
            ..m
        }),
        0x4000 <= loc <= 0x5FFF ==> m.spec_set_register(loc, byte) == (MBC1 {
            bank_2_reg: byte & 0b11,
            ..m
        }),
        0x6000 <= loc ==> m.spec_set_register(loc, byte) == (MBC1 {
            bank2_mode_reg: if byte & 1 == 1 {
                Bank2Mode::Mode1
            } else {
                Bank2Mode::Mode0
            },
            ..m
        }),
{
    assert(byte % 16 == byte & 0x0F && byte % 4 == byte & 0b11 && byte % 2 == byte & 1)
        by (bit_vector);
}

/// The bit operations of the bank controller, in arithmetic.
proof fn lemma_mbc1_bits(v: u32, b1: u32, b2: u32, sel: u32, off: u32)
    ensures
        v & 0x3FFFu32 == v % 0x4000,
        b2 <= 3 ==> (b2 << 19u32) | (v & 0x3FFFu32) == b2 * 0x80000 + v % 0x4000,
        sel <= 127 ==> (v & 0x3FFFu32) | (sel << 14u32) == v % 0x4000 + sel * 0x4000,
        off < 0x2000 ==> off & 0x1FFFu32 == off,
        off < 0x2000 && b2 <= 3 ==> (off & 0x1FFFu32) | (b2 << 13u32) == off + b2 * 0x2000,
        b2 <= 3 && 1 <= b1 <= 31 ==> (b2 << 5u32) | b1 == b2 * 32 + b1,
{
    assert((v & 0x3FFFu32 == v % 0x4000) && (b2 <= 3 ==> (b2 << 19u32) | (v & 0x3FFFu32) == b2
        * 0x80000 + v % 0x4000) && (sel <= 127 ==> (v & 0x3FFFu32) | (sel << 14u32) == v % 0x4000
        + sel * 0x4000) && (off < 0x2000 ==> off & 0x1FFFu32 == off) && (off < 0x2000 && b2 <= 3
        ==> (off & 0x1FFFu32) | (b2 << 13u32) == off + b2 * 0x2000) && (b2 <= 3 && 1 <= b1 <= 31
        ==> (b2 << 5u32) | b1 == b2 * 32 + b1)) by (bit_vector);
}

} // verus!
