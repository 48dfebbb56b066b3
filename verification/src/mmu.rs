use vstd::prelude::*;

use crate::cartridge::{CartState, Cartridge};
use crate::conf::{
    Error, BIOS_SIZE, MEM_AREA_EXTERNAL_END, MEM_AREA_EXTERNAL_START, MEM_AREA_HRAM_END,
    MEM_AREA_HRAM_START, MEM_AREA_ROM_BANK_0_END, MEM_AREA_ROM_BANK_N_END, MEM_AREA_WRAM_END,
    MEM_AREA_WRAM_START, WRAM_SIZE,
};

verus! {

/// What the memory map holds: the boot ROM and its lock, work RAM, high RAM and the cartridge.
pub struct MmuState {
    pub boot_lock: u8,
    pub bios: Seq<u8>,
    pub hram: Seq<u8>,
    pub wram: Seq<u8>,
    pub cart: CartState,
}

impl MmuState {
    /// Whether a read at `loc` is defined.
    pub open spec fn read_defined(&self, loc: u16) -> bool {
        if loc <= MEM_AREA_ROM_BANK_0_END {
            (loc as int) < BIOS_SIZE && self.boot_lock == 0 || self.cart.read_defined(loc)
        } else if loc <= MEM_AREA_ROM_BANK_N_END || (MEM_AREA_EXTERNAL_START <= loc
            <= MEM_AREA_EXTERNAL_END) {
            self.cart.read_defined(loc)
        } else {
            true
        }
    }

    /// What a read at `loc` gives.
    pub open spec fn spec_read(&self, loc: u16) -> Result<u8, Error> {
        if loc <= MEM_AREA_ROM_BANK_0_END {
            if (loc as int) < BIOS_SIZE && self.boot_lock == 0 {
                Ok(self.bios[loc as int])
            } else {
                self.cart.spec_read(loc)
            }
        } else if loc <= MEM_AREA_ROM_BANK_N_END || (MEM_AREA_EXTERNAL_START <= loc
            <= MEM_AREA_EXTERNAL_END) {
            self.cart.spec_read(loc)
        } else if MEM_AREA_WRAM_START <= loc <= MEM_AREA_WRAM_END {
            Ok(self.wram[loc - MEM_AREA_WRAM_START])
        } else if MEM_AREA_HRAM_START <= loc <= MEM_AREA_HRAM_END {
            Ok(self.hram[loc - MEM_AREA_HRAM_START])
        } else {
            Err(Error::UnimplementedRead(loc))
        }
    }

    /// Whether a write at `loc` is defined.
    pub open spec fn write_defined(&self, loc: u16) -> bool {
        loc <= 0x7FFF || (MEM_AREA_EXTERNAL_START <= loc <= MEM_AREA_EXTERNAL_END)
            ==> self.cart.write_defined(loc)
    }

    /// The memory map after a write of `byte` at `loc`, and what the write gives back.
    pub open spec fn after_write(&self, loc: u16, byte: u8) -> (MmuState, Result<(), Error>) {
        if loc <= 0x7FFF || (MEM_AREA_EXTERNAL_START <= loc <= MEM_AREA_EXTERNAL_END) {
            (MmuState { cart: self.cart.after_write(loc, byte), ..*self }, Ok(()))
        } else if MEM_AREA_WRAM_START <= loc <= MEM_AREA_WRAM_END {
            (MmuState { wram: self.wram.update(loc - MEM_AREA_WRAM_START, byte), ..*self }, Ok(()))
        } else if MEM_AREA_HRAM_START <= loc <= MEM_AREA_HRAM_END {
            (MmuState { hram: self.hram.update(loc - MEM_AREA_HRAM_START, byte), ..*self }, Ok(()))
        } else {
            (*self, Err(Error::UnimplementedWrite(loc)))
        }
    }
}

/// The memory map around the CPU: boot ROM, cartridge, work RAM and high RAM.
pub struct Mmu {
    pub boot_lock_reg: u8,
    pub bios: [u8; 0x100],
    hram: [u8; 0x7F],
    wram: [u8; WRAM_SIZE],
    cartridge: Cartridge,
}

impl View for Mmu {
    type V = MmuState;

    open spec fn view(&self) -> MmuState {
        MmuState {
            boot_lock: self.boot_lock(),
            bios: self.bios_rom(),
            hram: self.hram(),
            wram: self.wram(),
            cart: self.cartridge()@,
        }
    }
}

impl Mmu {
    pub closed spec fn boot_lock(&self) -> u8 {
        self.boot_lock_reg
    }

    pub closed spec fn bios_rom(&self) -> Seq<u8> {
        self.bios@
    }

    pub closed spec fn hram(&self) -> Seq<u8> {
        self.hram@
    }

    pub closed spec fn wram(&self) -> Seq<u8> {
        self.wram@
    }

    pub closed spec fn cartridge(&self) -> Cartridge {
        self.cartridge
    }

    pub open spec fn wf(&self) -> bool {
        &&& self.cartridge().wf()
        &&& self.hram().len() == 0x7F
        &&& self.wram().len() == WRAM_SIZE
        &&& self.bios_rom().len() == BIOS_SIZE
    }

    /// The boot ROM is mapped over the cartridge until the lock register is written.
    pub open spec fn spec_is_bios_mounted(&self) -> bool {
        self.boot_lock() == 0
    }

    /// Whether a read at `loc` is defined.
    pub open spec fn read_defined(&self, loc: u16) -> bool {
        self@.read_defined(loc)
    }

    /// What a read at `loc` gives.
    pub open spec fn spec_read(&self, loc: u16) -> Result<u8, Error> {
        self@.spec_read(loc)
    }

    /// Whether a write at `loc` is defined.
    pub open spec fn write_defined(&self, loc: u16) -> bool {
        self@.write_defined(loc)
    }

    pub fn new(cartridge: Cartridge) -> (r: Result<Self, Error>)
        requires
            cartridge.wf(),
        ensures
            r matches Ok(m) && {
                &&& m.wf()
                &&& m.boot_lock() == 0
                &&& m.cartridge() == cartridge
                &&& forall|i: int| 0 <= i < 0x100 ==> m.bios_rom()[i] == 0
                &&& forall|i: int| 0 <= i < 0x7F ==> m.hram()[i] == 0
                &&& forall|i: int| 0 <= i < WRAM_SIZE ==> m.wram()[i] == 0
            },
    {
        Ok(Mmu {
            boot_lock_reg: 0,
            bios: [0; 0x100],
            hram: [0; 0x7F],
            wram: [0; WRAM_SIZE],
            cartridge,
        })
    }

    /// Mounts the boot ROM again.
    pub fn reset(&mut self) -> (r: Result<(), Error>)
        ensures
            r is Ok,
            final(self).boot_lock() == 0,
            final(self).bios_rom() == old(self).bios_rom(),
            final(self).hram() == old(self).hram(),
            final(self).wram() == old(self).wram(),
            final(self).cartridge() == old(self).cartridge(),
    {
        self.boot_lock_reg = 0;
        Ok(())
    }

    pub fn read(&self, loc: u16) -> (r: Result<u8, Error>)
        requires
            self.wf(),
            self.read_defined(loc),
        ensures
            r == self.spec_read(loc),
    {
        if loc <= MEM_AREA_ROM_BANK_0_END {
            if (loc as usize) < BIOS_SIZE && self.is_bios_mounted() {
                Ok(self.bios[loc as usize])
            } else {
                self.cartridge.read(loc)
            }
        } else if loc <= MEM_AREA_ROM_BANK_N_END {
            self.cartridge.read(loc)
        } else if MEM_AREA_EXTERNAL_START <= loc && loc <= MEM_AREA_EXTERNAL_END {
            self.cartridge.read(loc)
        } else if MEM_AREA_WRAM_START <= loc && loc <= MEM_AREA_WRAM_END {
            Ok(self.wram[(loc - MEM_AREA_WRAM_START) as usize])
        } else if MEM_AREA_HRAM_START <= loc && loc <= MEM_AREA_HRAM_END {
            Ok(self.hram[(loc - MEM_AREA_HRAM_START) as usize])
        } else {
            Err(Error::UnimplementedRead(loc))
        }
    }

    pub fn write(&mut self, loc: u16, byte: u8) -> (r: Result<(), Error>)
        requires
            old(self).wf(),
            old(self).write_defined(loc),
        ensures
            final(self).wf(),
            (final(self)@, r) == old(self)@.after_write(loc, byte),
            final(self).cartridge().rom() == old(self).cartridge().rom(),
    {
        if loc <= 0x7FFF {
            self.cartridge.write(loc, byte);
        } else if MEM_AREA_EXTERNAL_START <= loc && loc <= MEM_AREA_EXTERNAL_END {
            self.cartridge.write(loc, byte);
        } else if MEM_AREA_WRAM_START <= loc && loc <= MEM_AREA_WRAM_END {
            self.wram[(loc - MEM_AREA_WRAM_START) as usize] = byte;
        } else if MEM_AREA_HRAM_START <= loc && loc <= MEM_AREA_HRAM_END {
            self.hram[(loc - MEM_AREA_HRAM_START) as usize] = byte;
        } else {
            return Err(Error::UnimplementedWrite(loc));
        }
        Ok(())
    }

    /// Loads the boot ROM.
    pub fn load_bios(&mut self, bios: &[u8])
        requires
            old(self).wf(),
            bios@.len() == BIOS_SIZE,
        ensures
            final(self).wf(),
            final(self)@ == (MmuState { bios: bios@, ..old(self)@ }),
    {
        let mut i: usize = 0;
        while i < BIOS_SIZE
            invariant
                0 <= i <= BIOS_SIZE,
                bios@.len() == BIOS_SIZE,
                self.wf(),
                self@ == (MmuState { bios: self@.bios, ..old(self)@ }),
                forall|j: int| 0 <= j < i ==> self@.bios[j] == bios@[j],
            decreases BIOS_SIZE - i,
        {
            self.bios[i] = bios[i];
            i += 1;
        }
        assert(self@.bios =~= bios@);
    }

    /// The boot lock register.
    pub fn get_boot_lock_reg(&self) -> (r: u8)
        ensures
            r == self@.boot_lock,
    {
        self.boot_lock_reg
    }

    /// Sets the boot lock register; any value but 0 unmaps the boot ROM.
    pub fn set_boot_lock_reg(&mut self, byte: u8)
        requires
            old(self).wf(),
        ensures
            final(self).wf(),
            final(self)@ == (MmuState { boot_lock: byte, ..old(self)@ }),
    {
        self.boot_lock_reg = byte;
    }

    /// Whether a read at `loc` is defined.
    pub fn is_read_defined(&self, loc: u16) -> (r: bool)
        requires
            self.wf(),
        ensures
            r == self.read_defined(loc),
    {
        if loc <= MEM_AREA_ROM_BANK_0_END {
            (loc as usize) < BIOS_SIZE && self.is_bios_mounted() || self.cartridge.is_read_defined(loc)
        } else if loc <= MEM_AREA_ROM_BANK_N_END || (MEM_AREA_EXTERNAL_START <= loc && loc
            <= MEM_AREA_EXTERNAL_END) {
            self.cartridge.is_read_defined(loc)
        } else {
            true
        }
    }

    /// Whether a write at `loc` is defined.
    pub fn is_write_defined(&self, loc: u16) -> (r: bool)
        requires
            self.wf(),
        ensures
            r == self.write_defined(loc),
    {
        if loc <= 0x7FFF || (MEM_AREA_EXTERNAL_START <= loc && loc <= MEM_AREA_EXTERNAL_END) {
            self.cartridge.is_write_defined(loc)
        } else {
            true
        }
    }

    fn is_bios_mounted(&self) -> (r: bool)
        ensures
            r == self.spec_is_bios_mounted(),
    {
        self.boot_lock_reg == 0b0
    }

    /// The ROM bank mapped at 0x4000-0x7FFF.
    pub fn rom_bank_selector(&self) -> (r: u32)
        requires
            self.wf(),
        ensures
            r == self.cartridge().controller().spec_rom_bank_selector(),
    {
        self.cartridge.rom_bank_selector()
    }
}

/// A byte written to work RAM or high RAM is what a later read there gives.
pub proof fn lemma_ram_write_then_read(m: MmuState, loc: u16, byte: u8)
    requires
        m.wram.len() == WRAM_SIZE,
        m.hram.len() == 0x7F,
        (MEM_AREA_WRAM_START <= loc <= MEM_AREA_WRAM_END) || (MEM_AREA_HRAM_START <= loc
            <= MEM_AREA_HRAM_END),
    ensures
        m.after_write(loc, byte).1 is Ok,
        m.after_write(loc, byte).0.read_defined(loc),
        m.after_write(loc, byte).0.spec_read(loc) == Ok::<u8, Error>(byte),
{
}

/// A write to work RAM or high RAM leaves every other address as it was.
pub proof fn lemma_ram_write_keeps_others(m: MmuState, loc: u16, byte: u8, other: u16)
    requires
        m.wram.len() == WRAM_SIZE,
        m.hram.len() == 0x7F,
        (MEM_AREA_WRAM_START <= loc <= MEM_AREA_WRAM_END) || (MEM_AREA_HRAM_START <= loc
            <= MEM_AREA_HRAM_END),
        other != loc,
    ensures
        m.after_write(loc, byte).0.read_defined(other) == m.read_defined(other),
        m.after_write(loc, byte).0.spec_read(other) == m.spec_read(other),
{
}

} // verus!
