//! The PPU-less CPU address decoder: internal RAM, PRG-RAM and PRG-ROM
//! only. Unmapped reads are recovered locally as 0; unmapped writes are
//! fatal, except the APU range, which drops them.

use vstd::prelude::*;

use crate::bus::prg_byte;
use crate::cpu_model::{spec_mk16, mk16, VECTOR_RESET_HI, VECTOR_RESET_LO};
use crate::errors::EmuError;
use crate::memory::{Memory, Ram};
use crate::nes_rom::NesRom;

verus! {

/// Internal RAM (mirrored every 2 KiB), cartridge PRG-RAM and PRG-ROM.
pub struct MemoryMap {
    pub sram: Ram,
    pub rom: NesRom,
    pub prg_ram: Ram,
}

impl MemoryMap {
    /// Well-formedness: 2 KiB internal RAM, 8 KiB PRG-RAM, a non-empty
    /// PRG-ROM image.
    pub open spec fn wf(&self) -> bool {
        self.sram@.len() == 0x800 && self.prg_ram@.len() == 0x2000 && self.rom.prg_rom@.len() >= 1
    }

    pub fn new(rom: NesRom) -> (r: MemoryMap)
        requires
            rom.prg_rom@.len() >= 1,
        ensures
            r.wf(),
            r.rom == rom,
            forall|i: int| 0 <= i < 0x800 ==> r.sram@[i] == 0u8,
            forall|i: int| 0 <= i < 0x2000 ==> r.prg_ram@[i] == 0u8,
    {
        MemoryMap { sram: Ram::new(0x800), rom, prg_ram: Ram::new(0x2000) }
    }

    /// A read: internal RAM below $2000 (mirrored), PRG-RAM at
    /// $6000-$7FFF, PRG-ROM from $8000 up, 0 anywhere else.
    pub fn read(&self, a: u16) -> (r: u8)
        requires
            self.wf(),
        ensures
            r == (if a < 0x2000 {
                self.sram@[(a % 0x800) as int]
            } else if 0x6000 <= a && a < 0x8000 {
                self.prg_ram@[(a - 0x6000) as int]
            } else if a >= 0x8000 {
                prg_byte(self.rom.prg_rom@, a)
            } else {
                0u8
            }),
    {
        if a < 0x2000 {
            self.sram.get(a % 0x800)
        } else if 0x6000 <= a && a < 0x8000 {
            self.prg_ram.get(a - 0x6000)
        } else if a >= 0x8000 {
            let len = self.rom.prg_rom.len();
            self.rom.prg_rom[((a - 0x8000) as usize) % len]
        } else {
            0
        }
    }

    /// A write: internal RAM or PRG-RAM. Writes to the APU range are
    /// dropped; a write into PRG-ROM is `InvalidRomWrite` and any other
    /// unbacked address is `UnmappedWrite`. A failed write changes nothing.
    pub fn write(&mut self, a: u16, v: u8) -> (r: Result<(), EmuError>)
        requires
            old(self).wf(),
        ensures
            final(self).wf(),
            final(self).rom == old(self).rom,
            if a < 0x2000 {
                &&& r is Ok
                &&& final(self).sram@ == old(self).sram@.update((a % 0x800) as int, v)
                &&& final(self).prg_ram@ == old(self).prg_ram@
            } else if 0x6000 <= a && a < 0x8000 {
                &&& r is Ok
                &&& final(self).prg_ram@ == old(self).prg_ram@.update((a - 0x6000) as int, v)
                &&& final(self).sram@ == old(self).sram@
            } else {
                &&& r == (if 0x4000 <= a && a <= 0x4017 {
                    Ok::<(), EmuError>(())
                } else if a >= 0x8000 {
                    Err::<(), EmuError>(EmuError::InvalidRomWrite)
                } else {
                    Err::<(), EmuError>(EmuError::UnmappedWrite)
                })
                &&& final(self).sram@ == old(self).sram@
                &&& final(self).prg_ram@ == old(self).prg_ram@
            },
    {
        if a < 0x2000 {
            let _ = self.sram.write(a % 0x800, v);
            Ok(())
        } else if 0x6000 <= a && a < 0x8000 {
            let _ = self.prg_ram.write(a - 0x6000, v);
            Ok(())
        } else if 0x4000 <= a && a <= 0x4017 {
            Ok(())
        } else if a >= 0x8000 {
            Err(EmuError::InvalidRomWrite)
        } else {
            Err(EmuError::UnmappedWrite)
        }
    }

    /// The reset vector at $FFFC/$FFFD.
    pub fn reset_vector(&self) -> (r: u16)
        requires
            self.wf(),
        ensures
            r == spec_mk16(
                prg_byte(self.rom.prg_rom@, VECTOR_RESET_LO),
                prg_byte(self.rom.prg_rom@, VECTOR_RESET_HI),
            ),
    {
        mk16(self.read(VECTOR_RESET_LO), self.read(VECTOR_RESET_HI))
    }
}

} // verus!
