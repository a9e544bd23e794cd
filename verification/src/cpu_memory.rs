//! A CPU address space over a cartridge and a PPU, without a controller
//! port: the bus variant used when input is not wired up. It decodes
//! addresses exactly as [`crate::bus::Bus`] does, with the controller port
//! reading as an unmapped range.

use vstd::prelude::*;

use crate::cpu_model::{set_flag, spec_inc8, spec_mk16, mk16, VECTOR_RESET_HI, VECTOR_RESET_LO};
use crate::bus::prg_byte;
use crate::errors::EmuError;
use crate::memory::{Memory, Ram};
use crate::nes_rom::NesRom;
use crate::ppu::{
    data_read_post, data_write_post, powered_on, spec_addr_set, Ppu, PpuScroll, PPU_STATUS_VBLANK,
};
use crate::ppu_memory::PpuMemory;

verus! {

/// Internal RAM, PPU registers, cartridge PRG-RAM and PRG-ROM.
pub struct CpuMemory {
    pub sram: Ram,
    pub prg_rom: Vec<u8>,
    pub prg_ram: Ram,
    pub ppu: Ppu<PpuMemory>,
}

impl CpuMemory {
    /// Well-formedness: 2 KiB internal RAM, 8 KiB PRG-RAM, a non-empty
    /// PRG-ROM image, and a healthy PPU.
    pub open spec fn wf(&self) -> bool {
        &&& self.sram@.len() == 0x800
        &&& self.prg_ram@.len() == 0x2000
        &&& self.prg_rom@.len() >= 1
        &&& self.ppu.wf()
    }

    /// A CPU address space over a parsed cartridge.
    pub fn new(rom: NesRom) -> (r: CpuMemory)
        requires
            rom.prg_rom@.len() >= 1,
        ensures
            r.wf(),
            r.prg_rom@ == rom.prg_rom@,
            forall|i: int| 0 <= i < 0x800 ==> r.sram@[i] == 0u8,
            forall|i: int| 0 <= i < 0x2000 ==> r.prg_ram@[i] == 0u8,
            powered_on(r.ppu),
            r.ppu.memory@.chr == rom.chr_rom@,
            r.ppu.memory@.mirroring == rom.nametable_mirroring,
    {
        let NesRom {
            prg_rom,
            chr_rom,
            trainer: _,
            mapper: _,
            alt_nametable: _,
            nametable_mirroring,
            battery_backed_prg_ram: _,
            prg_ram_size: _,
            tv_system: _,
        } = rom;
        CpuMemory {
            sram: Ram::new(0x800),
            prg_rom,
            prg_ram: Ram::new(0x2000),
            ppu: Ppu::new(chr_rom, nametable_mirroring),
        }
    }

    /// A CPU read. Internal RAM is mirrored every 2 KiB; the PPU registers
    /// every 8 bytes. Reads of write-only registers and unmapped ranges
    /// (the controller ports included) are recovered locally: they return 0
    /// and change nothing.
    pub fn read(&mut self, a: u16) -> (r: u8)
        requires
            old(self).wf(),
        ensures
            final(self).wf(),
            final(self).sram@ == old(self).sram@,
            final(self).prg_ram@ == old(self).prg_ram@,
            final(self).prg_rom@ == old(self).prg_rom@,
            ({
                let b0 = *old(self);
                let b1 = *final(self);
                if a < 0x2000 {
                    &&& r == b0.sram@[(a % 0x800) as int]
                    &&& b1.ppu == b0.ppu
                } else if a < 0x4000 {
                    let reg = (a - 0x2000) % 8;
                    if reg == 2 {
                        &&& r == b0.ppu.status
                        &&& b1.ppu == (Ppu {
                            status: set_flag(b0.ppu.status, PPU_STATUS_VBLANK, false),
                            latch_high: true,
                            ..b0.ppu
                        })
                    } else if reg == 4 {
                        &&& r == b0.ppu.oam@[b0.ppu.oam_addr as int]
                        &&& b1.ppu == b0.ppu
                    } else if reg == 7 {
                        data_read_post(b0.ppu, b1.ppu, r)
                    } else {
                        &&& r == 0u8
                        &&& b1.ppu == b0.ppu
                    }
                } else if 0x6000 <= a && a < 0x8000 {
                    &&& r == b0.prg_ram@[(a - 0x6000) as int]
                    &&& b1.ppu == b0.ppu
                } else if a >= 0x8000 {
                    &&& r == prg_byte(b0.prg_rom@, a)
                    &&& b1.ppu == b0.ppu
                } else {
                    &&& r == 0u8
                    &&& b1.ppu == b0.ppu
                }
            }),
    {
        if a < 0x2000 {
            self.sram.read(a % 0x800)
        } else if a < 0x4000 {
            let register = (a - 0x2000) % 8;
            if register == 2 {
                self.ppu.read_ppu_status()
            } else if register == 4 {
                self.ppu.read_oam_data()
            } else if register == 7 {
                self.ppu.read_ppu_data()
            } else {
                // Write-only PPU register: open bus, recovered as 0.
                0
            }
        } else if 0x6000 <= a && a < 0x8000 {
            self.prg_ram.read(a - 0x6000)
        } else if a >= 0x8000 {
            let len = self.prg_rom.len();
            self.prg_rom[((a - 0x8000) as usize) % len]
        } else {
            // $4000-$4017 (APU and controller ports) is stubbed to 0;
            // anything else is an unmapped read, recovered locally as 0.
            0
        }
    }

    /// A CPU write. Writes to the APU range and the OAM DMA trigger are
    /// dropped; a write to a read-only PPU register or an unmapped range is
    /// `UnmappedWrite`; a write into PRG-ROM is `InvalidRomWrite`. A failed
    /// write changes nothing.
    pub fn write(&mut self, a: u16, v: u8) -> (r: Result<(), EmuError>)
        requires
            old(self).wf(),
        ensures
            final(self).wf(),
            final(self).prg_rom@ == old(self).prg_rom@,
            ({
                let b0 = *old(self);
                let b1 = *final(self);
                if a < 0x2000 {
                    &&& r is Ok
                    &&& b1.sram@ == b0.sram@.update((a % 0x800) as int, v)
                    &&& b1.prg_ram@ == b0.prg_ram@
                    &&& b1.ppu == b0.ppu
                } else if a < 0x4000 {
                    let reg = (a - 0x2000) % 8;
                    &&& b1.sram@ == b0.sram@
                    &&& b1.prg_ram@ == b0.prg_ram@
                    &&& (if reg == 0 {
                        &&& r is Ok
                        &&& b1.ppu == (Ppu {
                            ctrl: v,
                            nmi: b0.ppu.nmi || (b0.ppu.ctrl & 0x80 == 0 && v & 0x80 != 0
                                && b0.ppu.status & 0x80 != 0),
                            ..b0.ppu
                        })
                    } else if reg == 1 {
                        &&& r is Ok
                        &&& b1.ppu == (Ppu { mask: v, ..b0.ppu })
                    } else if reg == 3 {
                        &&& r is Ok
                        &&& b1.ppu == (Ppu { oam_addr: v, ..b0.ppu })
                    } else if reg == 4 {
                        &&& r is Ok
                        &&& b1.ppu.oam@ == b0.ppu.oam@.update(b0.ppu.oam_addr as int, v)
                        &&& b1.ppu.oam_addr == spec_inc8(b0.ppu.oam_addr)
                        &&& b1.ppu == (Ppu { oam: b1.ppu.oam, oam_addr: b1.ppu.oam_addr, ..b0.ppu })
                    } else if reg == 5 {
                        &&& r is Ok
                        &&& b1.ppu == (Ppu {
                            scroll: if b0.ppu.latch_high {
                                PpuScroll { x: v, ..b0.ppu.scroll }
                            } else {
                                PpuScroll { y: v, ..b0.ppu.scroll }
                            },
                            latch_high: !b0.ppu.latch_high,
                            ..b0.ppu
                        })
                    } else if reg == 6 {
                        &&& r is Ok
                        &&& b1.ppu == (Ppu {
                            addr: spec_addr_set(b0.ppu.addr, v, b0.ppu.latch_high),
                            latch_high: !b0.ppu.latch_high,
                            ..b0.ppu
                        })
                    } else if reg == 7 {
                        data_write_post(b0.ppu, b1.ppu, v, r)
                    } else {
                        &&& r == Err::<(), EmuError>(EmuError::UnmappedWrite)
                        &&& b1.ppu == b0.ppu
                    })
                } else if 0x4000 <= a && a <= 0x4017 {
                    // OAM DMA trigger (stubbed), APU and controller ports:
                    // dropped.
                    &&& r is Ok
                    &&& b1.sram@ == b0.sram@
                    &&& b1.prg_ram@ == b0.prg_ram@
                    &&& b1.ppu == b0.ppu
                } else if 0x6000 <= a && a < 0x8000 {
                    &&& r is Ok
                    &&& b1.sram@ == b0.sram@
                    &&& b1.prg_ram@ == b0.prg_ram@.update((a - 0x6000) as int, v)
                    &&& b1.ppu == b0.ppu
                } else {
                    &&& r == Err::<(), EmuError>(
                        if a >= 0x8000 {
                            EmuError::InvalidRomWrite
                        } else {
                            EmuError::UnmappedWrite
                        },
                    )
                    &&& b1.sram@ == b0.sram@
                    &&& b1.prg_ram@ == b0.prg_ram@
                    &&& b1.ppu == b0.ppu
                }
            }),
    {
        if a < 0x2000 {
            let _ = self.sram.write(a % 0x800, v);
            Ok(())
        } else if a < 0x4000 {
            let register = (a - 0x2000) % 8;
            if register == 0 {
                self.ppu.write_ppu_ctrl(v);
                Ok(())
            } else if register == 1 {
                self.ppu.write_ppu_mask(v);
                Ok(())
            } else if register == 3 {
                self.ppu.write_oam_addr(v);
                Ok(())
            } else if register == 4 {
                self.ppu.write_oam_data(v);
                Ok(())
            } else if register == 5 {
                self.ppu.write_ppu_scroll(v);
                Ok(())
            } else if register == 6 {
                self.ppu.write_ppu_addr(v);
                Ok(())
            } else if register == 7 {
                self.ppu.write_ppu_data(v)
            } else {
                Err(EmuError::UnmappedWrite)
            }
        } else if 0x4000 <= a && a <= 0x4017 {
            Ok(())
        } else if 0x6000 <= a && a < 0x8000 {
            let _ = self.prg_ram.write(a - 0x6000, v);
            Ok(())
        } else if a >= 0x8000 {
            Err(EmuError::InvalidRomWrite)
        } else {
            Err(EmuError::UnmappedWrite)
        }
    }

    /// The reset vector at $FFFC/$FFFD, read from PRG-ROM directly.
    pub fn reset_vector(&self) -> (r: u16)
        requires
            self.wf(),
        ensures
            r == spec_mk16(
                prg_byte(self.prg_rom@, VECTOR_RESET_LO),
                prg_byte(self.prg_rom@, VECTOR_RESET_HI),
            ),
    {
        let len = self.prg_rom.len();
        let lo = self.prg_rom[((VECTOR_RESET_LO - 0x8000) as usize) % len];
        let hi = self.prg_rom[((VECTOR_RESET_HI - 0x8000) as usize) % len];
        mk16(lo, hi)
    }
}

} // verus!
