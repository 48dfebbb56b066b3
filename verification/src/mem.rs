use vstd::prelude::*;

use crate::cartridge::Cartridge;
use crate::conf::{
    Error, BIOS_SIZE, MEM_AREA_HRAM_END, MEM_AREA_HRAM_START, MEM_AREA_OAM_END,
    MEM_AREA_OAM_START, MEM_AREA_ROM_BANK_0_END, MEM_AREA_VRAM_END, MEM_AREA_VRAM_START,
    OAM_RAM_SIZE, VRAM_SIZE,
};

verus! {

/// A memory map of boot ROM, cartridge bank 0, video RAM, OAM and high RAM.
pub struct Mem {
    pub boot_lock_reg: u8,
    pub bios: [u8; 0x100],
    hram: [u8; 0x7F],
    vram: Vec<u8>,
    oam_ram: Vec<u8>,
    cartridge: Cartridge,
}

impl Mem {
    pub closed spec fn boot_lock(&self) -> u8 {
        self.boot_lock_reg
    }

    pub closed spec fn bios_rom(&self) -> Seq<u8> {
        self.bios@
    }

    pub closed spec fn hram(&self) -> Seq<u8> {
        self.hram@
    }

    pub closed spec fn vram(&self) -> Seq<u8> {
        self.vram@
    }

    pub closed spec fn oam_ram(&self) -> Seq<u8> {
        self.oam_ram@
    }

    pub closed spec fn cartridge(&self) -> Cartridge {
        self.cartridge
    }

    pub open spec fn wf(&self) -> bool {
        &&& self.cartridge().wf()
        &&& self.hram().len() == 0x7F
        &&& self.vram().len() == VRAM_SIZE
        &&& self.oam_ram().len() == OAM_RAM_SIZE
        &&& self.bios_rom().len() == BIOS_SIZE
    }

    pub open spec fn spec_is_bios_mounted(&self) -> bool {
        self.boot_lock() == 0
    }

    /// Whether a read at `loc` is defined.
    pub open spec fn read_defined(&self, loc: u16) -> bool {
        loc <= MEM_AREA_ROM_BANK_0_END ==> ((loc as int) < BIOS_SIZE && self.spec_is_bios_mounted())
            || self.cartridge().read_defined(loc)
    }

    /// What a read at `loc` gives.
    pub open spec fn spec_read(&self, loc: u16) -> Result<u8, Error> {
        if loc <= MEM_AREA_ROM_BANK_0_END {
            if (loc as int) < BIOS_SIZE && self.spec_is_bios_mounted() {
                Ok(self.bios_rom()[loc as int])
            } else {
                self.cartridge().spec_read(loc)
            }
        } else if MEM_AREA_VRAM_START <= loc <= MEM_AREA_VRAM_END {
            Ok(self.vram()[loc - MEM_AREA_VRAM_START])
        } else if MEM_AREA_OAM_START <= loc <= MEM_AREA_OAM_END {
            Ok(self.oam_ram()[loc - MEM_AREA_OAM_START])
        } else if MEM_AREA_HRAM_START <= loc <= MEM_AREA_HRAM_END {
            Ok(self.hram()[loc - MEM_AREA_HRAM_START])
        } else {
            Err(Error::UnimplementedRead(loc))
        }
    }

    pub fn new(cartridge: Cartridge, vram: Vec<u8>, oam_ram: Vec<u8>) -> (r: Result<Self, Error>)
        requires
            cartridge.wf(),
            vram@.len() == VRAM_SIZE,
            oam_ram@.len() == OAM_RAM_SIZE,
        ensures
            r matches Ok(m) && {
                &&& m.wf()
                &&& m.boot_lock() == 0
                &&& m.cartridge() == cartridge
                &&& m.vram() == vram@
                &&& m.oam_ram() == oam_ram@
                &&& forall|i: int| 0 <= i < 0x100 ==> m.bios_rom()[i] == 0
                &&& forall|i: int| 0 <= i < 0x7F ==> m.hram()[i] == 0
            },
    {
        Ok(Mem { boot_lock_reg: 0, bios: [0; 0x100], hram: [0; 0x7F], vram, oam_ram, cartridge })
    }

    /// Mounts the boot ROM again.
    pub fn reset(&mut self) -> (r: Result<(), Error>)
        ensures
            r is Ok,
            final(self).boot_lock() == 0,
            final(self).bios_rom() == old(self).bios_rom(),
            final(self).hram() == old(self).hram(),
            final(self).vram() == old(self).vram(),
            final(self).oam_ram() == old(self).oam_ram(),
            final(self).cartridge() == old(self).cartridge(),
    {
        self.boot_lock_reg = 0;
        Ok(())
    }

    pub fn read(&self, loc: u16) -> (r: Result<u8, Error>)
        requires
            self.wf(),
            self.read_defined(loc),
        ensures
            r == self.spec_read(loc),
    {
        if loc <= MEM_AREA_ROM_BANK_0_END {
            if (loc as usize) < BIOS_SIZE && self.is_bios_mounted() {
                Ok(self.bios[loc as usize])
            } else {
                self.cartridge.read(loc)
            }
        } else if MEM_AREA_VRAM_START <= loc && loc <= MEM_AREA_VRAM_END {
            Ok(self.vram[(loc - MEM_AREA_VRAM_START) as usize])
        } else if MEM_AREA_OAM_START <= loc && loc <= MEM_AREA_OAM_END {
            Ok(self.oam_ram[(loc - MEM_AREA_OAM_START) as usize])
        } else if MEM_AREA_HRAM_START <= loc && loc <= MEM_AREA_HRAM_END {
            Ok(self.hram[(loc - MEM_AREA_HRAM_START) as usize])
        } else {
            Err(Error::UnimplementedRead(loc))
        }
    }

    pub fn write(&mut self, loc: u16, byte: u8) -> (r: Result<(), Error>)
        requires
            old(self).wf(),
        ensures
            final(self).wf(),
            final(self).boot_lock() == old(self).boot_lock(),
            final(self).bios_rom() == old(self).bios_rom(),
            final(self).cartridge() == old(self).cartridge(),
            final(self).vram() == (if MEM_AREA_VRAM_START <= loc <= MEM_AREA_VRAM_END {
                old(self).vram().update(loc - MEM_AREA_VRAM_START, byte)
            } else {
                old(self).vram()
            }),
            final(self).oam_ram() == (if MEM_AREA_OAM_START <= loc <= MEM_AREA_OAM_END {
                old(self).oam_ram().update(loc - MEM_AREA_OAM_START, byte)
            } else {
                old(self).oam_ram()
            }),
            final(self).hram() == (if MEM_AREA_HRAM_START <= loc <= MEM_AREA_HRAM_END {
                old(self).hram().update(loc - MEM_AREA_HRAM_START, byte)
            } else {
                old(self).hram()
            }),
            r is Ok <==> (MEM_AREA_VRAM_START <= loc <= MEM_AREA_VRAM_END) || (MEM_AREA_OAM_START
                <= loc <= MEM_AREA_OAM_END) || (MEM_AREA_HRAM_START <= loc <= MEM_AREA_HRAM_END),
            r is Err ==> r == Err::<(), Error>(Error::UnimplementedWrite(loc)),
    {
        if MEM_AREA_VRAM_START <= loc && loc <= MEM_AREA_VRAM_END {
            self.vram.set((loc - MEM_AREA_VRAM_START) as usize, byte);
        } else if MEM_AREA_OAM_START <= loc && loc <= MEM_AREA_OAM_END {
            self.oam_ram.set((loc - MEM_AREA_OAM_START) as usize, byte);
        } else if MEM_AREA_HRAM_START <= loc && loc <= MEM_AREA_HRAM_END {
            self.hram[(loc - MEM_AREA_HRAM_START) as usize] = byte;
        } else {
            return Err(Error::UnimplementedWrite(loc));
        }

        Ok(())
    }

    /// The boot ROM is mapped until the lock register is written.
    pub fn is_bios_mounted(&self) -> (r: bool)
        ensures
            r == self.spec_is_bios_mounted(),
    {
        self.boot_lock_reg == 0b0
    }
}

} // verus!
