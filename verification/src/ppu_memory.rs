//! The PPU's own address space: pattern tables (CHR-ROM), mirrored
//! nametable VRAM, and palette RAM.

use vstd::prelude::*;

use crate::errors::EmuError;
use crate::memory::{Memory, Ram};
use crate::nes_rom::NametableMirroring;

verus! {

/// The observable state of a [`PpuMemory`].
pub ghost struct PpuMemV {
    pub chr: Seq<u8>,
    pub vram: Seq<u8>,
    pub palette: Seq<u8>,
    pub mirroring: NametableMirroring,
}

/// The PPU address space: $0000-$1FFF pattern tables from the cartridge's
/// CHR-ROM, $2000-$2FFF nametables in 2 KiB of VRAM folded by the cartridge
/// mirroring ($3000-$3EFF mirrors them), $3F00-$3FFF palette RAM.
pub struct PpuMemory {
    chr_rom: Vec<u8>,
    vram: Ram,
    mirroring: NametableMirroring,
    palette_table: Ram,
}

impl View for PpuMemory {
    type V = PpuMemV;

    closed spec fn view(&self) -> PpuMemV {
        PpuMemV {
            chr: self.chr_rom@,
            vram: self.vram@,
            palette: self.palette_table@,
            mirroring: self.mirroring,
        }
    }
}

/// Folds a raw nametable offset ($0000-$0FFF, four 1 KiB logical pages)
/// onto the 2 KiB of physical VRAM. Vertical mirroring folds pages 2,3 onto
/// 0,1; horizontal folds pages 1,3 onto 0,2.
pub open spec fn spec_mirror_vram(m: NametableMirroring, a: u16) -> u16 {
    match m {
        NametableMirroring::Vertical => if a < 0x800 {
            a
        } else {
            (a - 0x800) as u16
        },
        NametableMirroring::Horizontal => if a < 0x400 {
            a
        } else if a < 0xC00 {
            (a - 0x400) as u16
        } else {
            (a - 0x800) as u16
        },
    }
}

/// The palette index an address selects: mod 32, with the sprite backdrop
/// entries $10/$14/$18/$1C folded onto the background entries $00/$04/$08/$0C.
pub open spec fn spec_palette_index(a: u16) -> int {
    let i = (a - 0x3F00) % 0x20;
    if i == 0x10 || i == 0x14 || i == 0x18 || i == 0x1C {
        i - 0x10
    } else {
        i
    }
}

/// What a PPU-space read returns in state `m`: the address is first masked
/// to the 14-bit PPU space. A pattern-table read past the end of CHR-ROM
/// reads open bus (0).
pub open spec fn ppu_read_value(m: PpuMemV, addr: u16) -> u8 {
    let a = addr % 0x4000;
    if a < 0x2000 {
        if (a as int) < m.chr.len() {
            m.chr[a as int]
        } else {
            0u8
        }
    } else if a < 0x3F00 {
        m.vram[spec_mirror_vram(m.mirroring, ((a - 0x2000) % 0x1000) as u16) as int]
    } else {
        m.palette[spec_palette_index(a)]
    }
}

impl PpuMemory {
    /// A PPU memory over the given CHR-ROM, with zeroed VRAM and palette.
    pub fn new(chr_rom: Vec<u8>, mirroring: NametableMirroring) -> (r: PpuMemory)
        ensures
            r.inv(),
            r@.chr == chr_rom@,
            r@.mirroring == mirroring,
            r@.vram.len() == 0x800,
            forall|i: int| 0 <= i < 0x800 ==> r@.vram[i] == 0u8,
            r@.palette.len() == 0x20,
            forall|i: int| 0 <= i < 0x20 ==> r@.palette[i] == 0u8,
    {
        PpuMemory { chr_rom, vram: Ram::new(0x800), mirroring, palette_table: Ram::new(0x20) }
    }

    /// Folds a raw nametable offset onto physical VRAM.
    fn mirror_vram_addr(&self, vram_addr: u16) -> (r: u16)
        requires
            vram_addr < 0x1000,
        ensures
            r == spec_mirror_vram(self@.mirroring, vram_addr),
            r < 0x800,
    {
        match self.mirroring {
            NametableMirroring::Vertical => {
                if vram_addr < 0x800 {
                    vram_addr
                } else {
                    vram_addr - 0x800
                }
            },
            NametableMirroring::Horizontal => {
                if vram_addr < 0x400 {
                    vram_addr
                } else if vram_addr < 0xC00 {
                    vram_addr - 0x400
                } else {
                    vram_addr - 0x800
                }
            },
        }
    }

    /// The CHR-ROM byte at `i`, or 0 past its end.
    pub fn chr_at(&self, i: usize) -> (r: u8)
        ensures
            r == (if i < self@.chr.len() {
                self@.chr[i as int]
            } else {
                0u8
            }),
    {
        if i < self.chr_rom.len() {
            self.chr_rom[i]
        } else {
            0
        }
    }

    /// The number of CHR-ROM bytes.
    pub fn chr_len(&self) -> (r: usize)
        ensures
            r == self@.chr.len(),
    {
        self.chr_rom.len()
    }
}

impl Memory for PpuMemory {
    open spec fn inv(&self) -> bool {
        self@.vram.len() == 0x800 && self@.palette.len() == 0x20
    }

    open spec fn read_model(m: PpuMemV, addr: u16) -> PpuMemV {
        m
    }

    open spec fn read_value(m: PpuMemV, addr: u16) -> u8 {
        ppu_read_value(m, addr)
    }

    open spec fn write_model(m: PpuMemV, addr: u16, data: u8) -> Result<PpuMemV, EmuError> {
        let a = addr % 0x4000;
        if a < 0x2000 {
            Err(EmuError::InvalidRomWrite)
        } else if a < 0x3F00 {
            Ok(
                PpuMemV {
                    vram: m.vram.update(
                        spec_mirror_vram(m.mirroring, ((a - 0x2000) % 0x1000) as u16) as int,
                        data,
                    ),
                    ..m
                },
            )
        } else {
            Ok(PpuMemV { palette: m.palette.update(spec_palette_index(a), data), ..m })
        }
    }

    fn read(&mut self, addr: u16) -> (r: u8) {
        let a = addr % 0x4000;
        if a < 0x2000 {
            if (a as usize) < self.chr_rom.len() {
                self.chr_rom[a as usize]
            } else {
                0
            }
        } else if a < 0x3F00 {
            let vram_addr = self.mirror_vram_addr((a - 0x2000) % 0x1000);
            self.vram.read(vram_addr)
        } else {
            let i = (a - 0x3F00) % 0x20;
            let i = if i == 0x10 || i == 0x14 || i == 0x18 || i == 0x1C {
                i - 0x10
            } else {
                i
            };
            self.palette_table.read(i)
        }
    }

    fn write(&mut self, addr: u16, data: u8) -> (r: Result<(), EmuError>) {
        let a = addr % 0x4000;
        if a < 0x2000 {
            Err(EmuError::InvalidRomWrite)
        } else if a < 0x3F00 {
            let vram_addr = self.mirror_vram_addr((a - 0x2000) % 0x1000);
            let _ = self.vram.write(vram_addr, data);
            Ok(())
        } else {
            let i = (a - 0x3F00) % 0x20;
            let i = if i == 0x10 || i == 0x14 || i == 0x18 || i == 0x1C {
                i - 0x10
            } else {
                i
            };
            let _ = self.palette_table.write(i, data);
            Ok(())
        }
    }
}

} // verus!
