//! The CPU-side memory bus: internal RAM, PPU registers, the controller
//! port, cartridge PRG-RAM and PRG-ROM, and the timing pump that keeps the
//! PPU in lockstep.

use vstd::prelude::*;

use crate::controller::{controller_read_post, Controller};
use crate::cpu_model::{set_flag, spec_inc8, spec_mk16, mk16, VECTOR_RESET_HI, VECTOR_RESET_LO};
use crate::errors::EmuError;
use crate::memory::{Memory, Ram};
use crate::nes_rom::NesRom;
use crate::ppu::{
    data_read_post, data_write_post, powered_on, spec_addr_set, ticked, Ppu, PpuScroll,
    PPU_STATUS_VBLANK,
};
use crate::ppu_memory::PpuMemory;

verus! {

/// The byte PRG-ROM yields for a CPU address at or above $8000: a 16 KiB
/// image is mirrored across the 32 KiB window.
pub open spec fn prg_byte(rom: Seq<u8>, a: u16) -> u8 {
    rom[(a - 0x8000) % (rom.len() as int)]
}

/// The address-space multiplexer the CPU talks to. It owns the PPU and the
/// controller; `tick` forwards three PPU dots per CPU cycle.
pub struct Bus {
    pub sram: Ram,
    pub prg_rom: Vec<u8>,
    pub prg_ram: Ram,
    pub ppu: Ppu<PpuMemory>,
    pub controller: Controller,
    pub cycle: u32,
}

impl Bus {
    /// Well-formedness: 2 KiB internal RAM, 8 KiB PRG-RAM, a non-empty
    /// PRG-ROM image, and healthy PPU and controller.
    pub open spec fn wf(&self) -> bool {
        &&& self.sram@.len() == 0x800
        &&& self.prg_ram@.len() == 0x2000
        &&& self.prg_rom@.len() >= 1
        &&& self.ppu.wf()
        &&& self.controller.wf()
    }

    /// A bus over a parsed cartridge. The PPU takes the CHR-ROM and the
    /// nametable mirroring; the bus keeps the PRG-ROM.
    pub fn new(rom: NesRom) -> (r: Bus)
        requires
            rom.prg_rom@.len() >= 1,
        ensures
            r.wf(),
            r.prg_rom@ == rom.prg_rom@,
            forall|i: int| 0 <= i < 0x800 ==> r.sram@[i] == 0u8,
            forall|i: int| 0 <= i < 0x2000 ==> r.prg_ram@[i] == 0u8,
            powered_on(r.ppu),
            r.ppu.memory@.chr == rom.chr_rom@,
            r.ppu.memory@.mirroring == rom.nametable_mirroring,
            forall|i: int| 0 <= i < 0x800 ==> r.ppu.memory@.vram[i] == 0u8,
            forall|i: int| 0 <= i < 0x20 ==> r.ppu.memory@.palette[i] == 0u8,
            r.controller.strobe == false,
            r.controller.selected_button == 0,
            r.cycle == 0,
    {
        let NesRom {
            prg_rom,
            chr_rom,
            trainer: _,
            mapper: _,
            alt_nametable: _,
            nametable_mirroring,
            battery_backed_prg_ram: _,
            prg_ram_size: _,
            tv_system: _,
        } = rom;
        Bus {
            sram: Ram::new(0x800),
            prg_rom,
            prg_ram: Ram::new(0x2000),
            ppu: Ppu::new(chr_rom, nametable_mirroring),
            controller: Controller::new(),
            cycle: 0,
        }
    }

    /// Advances the bus clock to the CPU's cycle count, pumping three PPU
    /// dots for every CPU cycle that elapsed.
    pub fn tick(&mut self, cycle: u32)
        requires
            old(self).wf(),
            cycle >= old(self).cycle,
            3 * (cycle - old(self).cycle) <= u32::MAX,
        ensures
            final(self).wf(),
            final(self).cycle == cycle,
            final(self).ppu.timing() == ticked(
                old(self).ppu.timing(),
                (3 * (cycle - old(self).cycle)) as nat,
            ),
            final(self).ppu.memory == old(self).ppu.memory,
            final(self).ppu.oam == old(self).ppu.oam,
            final(self).ppu.addr == old(self).ppu.addr,
            final(self).ppu.scroll == old(self).ppu.scroll,
            final(self).ppu.latch_high == old(self).ppu.latch_high,
            final(self).ppu.data_buffer == old(self).ppu.data_buffer,
            final(self).ppu.oam_addr == old(self).ppu.oam_addr,
            final(self).ppu.mask == old(self).ppu.mask,
            final(self).sram == old(self).sram,
            final(self).prg_ram == old(self).prg_ram,
            final(self).prg_rom == old(self).prg_rom,
            final(self).controller == old(self).controller,
    {
        let delta = cycle - self.cycle;
        self.cycle = cycle;
        self.ppu.tick(delta * 3);
    }

    /// One-shot NMI poll, forwarded from the PPU.
    pub fn poll_nmi(&mut self) -> (r: bool)
        ensures
            r == old(self).ppu.nmi,
            *final(self) == (Bus { ppu: final(self).ppu, ..*old(self) }),
            final(self).ppu == (Ppu { nmi: false, ..old(self).ppu }),
    {
        self.ppu.poll_nmi()
    }

    /// One-shot frame poll, forwarded from the PPU.
    pub fn poll_new_frame(&mut self) -> (r: bool)
        ensures
            r == old(self).ppu.new_frame,
            *final(self) == (Bus { ppu: final(self).ppu, ..*old(self) }),
            final(self).ppu == (Ppu { new_frame: false, ..old(self).ppu }),
    {
        self.ppu.poll_new_frame()
    }

    /// A CPU read. Internal RAM is mirrored every 2 KiB; the PPU registers
    /// every 8 bytes. Reads of write-only registers and unmapped ranges are
    /// recovered locally: they return 0 and change nothing.
    pub fn read(&mut self, a: u16) -> (r: u8)
        requires
            old(self).wf(),
        ensures
            final(self).wf(),
            final(self).cycle == old(self).cycle,
            final(self).sram@ == old(self).sram@,
            final(self).prg_ram@ == old(self).prg_ram@,
            final(self).prg_rom@ == old(self).prg_rom@,
            ({
                let b0 = *old(self);
                let b1 = *final(self);
                if a < 0x2000 {
                    &&& r == b0.sram@[(a % 0x800) as int]
                    &&& b1.ppu == b0.ppu
                    &&& b1.controller == b0.controller
                } else if a < 0x4000 {
                    let reg = (a - 0x2000) % 8;
                    &&& b1.controller == b0.controller
                    &&& (if reg == 2 {
                        &&& r == b0.ppu.status
                        &&& b1.ppu == (Ppu {
                            status: set_flag(b0.ppu.status, PPU_STATUS_VBLANK, false),
                            latch_high: true,
                            ..b0.ppu
                        })
                    } else if reg == 4 {
                        &&& r == b0.ppu.oam@[b0.ppu.oam_addr as int]
                        &&& b1.ppu == b0.ppu
                    } else if reg == 7 {
                        data_read_post(b0.ppu, b1.ppu, r)
                    } else {
                        &&& r == 0u8
                        &&& b1.ppu == b0.ppu
                    })
                } else if a == 0x4016 {
                    &&& controller_read_post(b0.controller, b1.controller, r)
                    &&& b1.ppu == b0.ppu
                } else if 0x6000 <= a && a < 0x8000 {
                    &&& r == b0.prg_ram@[(a - 0x6000) as int]
                    &&& b1.ppu == b0.ppu
                    &&& b1.controller == b0.controller
                } else if a >= 0x8000 {
                    &&& r == prg_byte(b0.prg_rom@, a)
                    &&& b1.ppu == b0.ppu
                    &&& b1.controller == b0.controller
                } else {
                    &&& r == 0u8
                    &&& b1.ppu == b0.ppu
                    &&& b1.controller == b0.controller
                }
            }),
    {
        if a < 0x2000 {
            self.sram.read(a % 0x800)
        } else if a < 0x4000 {
            let register = (a - 0x2000) % 8;
            if register == 2 {
                self.ppu.read_ppu_status()
            } else if register == 4 {
                self.ppu.read_oam_data()
            } else if register == 7 {
                self.ppu.read_ppu_data()
            } else {
                // Write-only PPU register: open bus, recovered as 0.
                0
            }
        } else if a == 0x4016 {
            self.controller.read()
        } else if 0x6000 <= a && a < 0x8000 {
            self.prg_ram.read(a - 0x6000)
        } else if a >= 0x8000 {
            let len = self.prg_rom.len();
            self.prg_rom[((a - 0x8000) as usize) % len]
        } else {
            // $4000-$4015, $4017 (APU and the second controller) are
            // stubbed to 0; anything else is an unmapped read, recovered
            // locally as 0.
            0
        }
    }

    /// A CPU write. Writes to the APU range and the OAM DMA trigger are
    /// dropped; a write to a read-only PPU register or an unmapped range is
    /// `UnmappedWrite`; a write into PRG-ROM is `InvalidRomWrite`. A failed
    /// write changes nothing.
    pub fn write(&mut self, a: u16, v: u8) -> (r: Result<(), EmuError>)
        requires
            old(self).wf(),
        ensures
            final(self).wf(),
            final(self).cycle == old(self).cycle,
            final(self).prg_rom@ == old(self).prg_rom@,
            ({
                let b0 = *old(self);
                let b1 = *final(self);
                if a < 0x2000 {
                    &&& r is Ok
                    &&& b1.sram@ == b0.sram@.update((a % 0x800) as int, v)
                    &&& b1.prg_ram@ == b0.prg_ram@
                    &&& b1.ppu == b0.ppu
                    &&& b1.controller == b0.controller
                } else if a < 0x4000 {
                    let reg = (a - 0x2000) % 8;
                    &&& b1.sram@ == b0.sram@
                    &&& b1.prg_ram@ == b0.prg_ram@
                    &&& b1.controller == b0.controller
                    &&& (if reg == 0 {
                        &&& r is Ok
                        &&& b1.ppu == (Ppu {
                            ctrl: v,
                            nmi: b0.ppu.nmi || (b0.ppu.ctrl & 0x80 == 0 && v & 0x80 != 0
                                && b0.ppu.status & 0x80 != 0),
                            ..b0.ppu
                        })
                    } else if reg == 1 {
                        &&& r is Ok
                        &&& b1.ppu == (Ppu { mask: v, ..b0.ppu })
                    } else if reg == 3 {
                        &&& r is Ok
                        &&& b1.ppu == (Ppu { oam_addr: v, ..b0.ppu })
                    } else if reg == 4 {
                        &&& r is Ok
                        &&& b1.ppu.oam@ == b0.ppu.oam@.update(b0.ppu.oam_addr as int, v)
                        &&& b1.ppu.oam_addr == spec_inc8(b0.ppu.oam_addr)
                        &&& b1.ppu == (Ppu { oam: b1.ppu.oam, oam_addr: b1.ppu.oam_addr, ..b0.ppu })
                    } else if reg == 5 {
                        &&& r is Ok
                        &&& b1.ppu == (Ppu {
                            scroll: if b0.ppu.latch_high {
                                PpuScroll { x: v, ..b0.ppu.scroll }
                            } else {
                                PpuScroll { y: v, ..b0.ppu.scroll }
                            },
                            latch_high: !b0.ppu.latch_high,
                            ..b0.ppu
                        })
                    } else if reg == 6 {
                        &&& r is Ok
                        &&& b1.ppu == (Ppu {
                            addr: spec_addr_set(b0.ppu.addr, v, b0.ppu.latch_high),
                            latch_high: !b0.ppu.latch_high,
                            ..b0.ppu
                        })
                    } else if reg == 7 {
                        data_write_post(b0.ppu, b1.ppu, v, r)
                    } else {
                        // PPUSTATUS is read-only.
                        &&& r == Err::<(), EmuError>(EmuError::UnmappedWrite)
                        &&& b1.ppu == b0.ppu
                    })
                } else if a == 0x4016 {
                    &&& r is Ok
                    &&& b1.sram@ == b0.sram@
                    &&& b1.prg_ram@ == b0.prg_ram@
                    &&& b1.ppu == b0.ppu
                    &&& b1.controller == (Controller {
                        strobe: v & 1 == 1,
                        selected_button: if v & 1 == 1 {
                            0
                        } else {
                            b0.controller.selected_button
                        },
                        latched_states: if v & 1 == 1 {
                            b0.controller.latched_states
                        } else {
                            b0.controller.button_states
                        },
                        ..b0.controller
                    })
                } else if a == 0x4014 || (0x4000 <= a && a <= 0x4017) {
                    // OAM DMA trigger (stubbed) and the APU range: dropped.
                    &&& r is Ok
                    &&& b1.sram@ == b0.sram@
                    &&& b1.prg_ram@ == b0.prg_ram@
                    &&& b1.ppu == b0.ppu
                    &&& b1.controller == b0.controller
                } else if 0x6000 <= a && a < 0x8000 {
                    &&& r is Ok
                    &&& b1.sram@ == b0.sram@
                    &&& b1.prg_ram@ == b0.prg_ram@.update((a - 0x6000) as int, v)
                    &&& b1.ppu == b0.ppu
                    &&& b1.controller == b0.controller
                } else {
                    &&& r == Err::<(), EmuError>(
                        if a >= 0x8000 {
                            EmuError::InvalidRomWrite
                        } else {
                            EmuError::UnmappedWrite
                        },
                    )
                    &&& b1.sram@ == b0.sram@
                    &&& b1.prg_ram@ == b0.prg_ram@
                    &&& b1.ppu == b0.ppu
                    &&& b1.controller == b0.controller
                }
            }),
    {
        if a < 0x2000 {
            let _ = self.sram.write(a % 0x800, v);
            Ok(())
        } else if a < 0x4000 {
            let register = (a - 0x2000) % 8;
            if register == 0 {
                self.ppu.write_ppu_ctrl(v);
                Ok(())
            } else if register == 1 {
                self.ppu.write_ppu_mask(v);
                Ok(())
            } else if register == 3 {
                self.ppu.write_oam_addr(v);
                Ok(())
            } else if register == 4 {
                self.ppu.write_oam_data(v);
                Ok(())
            } else if register == 5 {
                self.ppu.write_ppu_scroll(v);
                Ok(())
            } else if register == 6 {
                self.ppu.write_ppu_addr(v);
                Ok(())
            } else if register == 7 {
                self.ppu.write_ppu_data(v)
            } else {
                Err(EmuError::UnmappedWrite)
            }
        } else if a == 0x4016 {
            self.controller.write(v);
            Ok(())
        } else if 0x4000 <= a && a <= 0x4017 {
            Ok(())
        } else if 0x6000 <= a && a < 0x8000 {
            let _ = self.prg_ram.write(a - 0x6000, v);
            Ok(())
        } else if a >= 0x8000 {
            Err(EmuError::InvalidRomWrite)
        } else {
            Err(EmuError::UnmappedWrite)
        }
    }

    /// The reset vector the cartridge supplies at $FFFC/$FFFD, read from
    /// PRG-ROM directly (no bus side effects).
    pub fn reset_vector(&self) -> (r: u16)
        requires
            self.wf(),
        ensures
            r == spec_mk16(
                prg_byte(self.prg_rom@, VECTOR_RESET_LO),
                prg_byte(self.prg_rom@, VECTOR_RESET_HI),
            ),
    {
        let len = self.prg_rom.len();
        let lo = self.prg_rom[((VECTOR_RESET_LO - 0x8000) as usize) % len];
        let hi = self.prg_rom[((VECTOR_RESET_HI - 0x8000) as usize) % len];
        mk16(lo, hi)
    }
}

} // verus!
