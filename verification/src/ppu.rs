//! The picture processing unit: register file, dot/scanline timing, and the
//! VBlank/NMI state machine.

use vstd::prelude::*;

use crate::cpu_model::{
    get_flag, set_flag, spec_add16, spec_hi8, spec_inc8, spec_lo8, spec_mk16, add16, hi8, inc8,
    lo8, mk16,
};
use crate::cpu_laws::lemma_flag_same;
use crate::errors::EmuError;
use crate::memory::Memory;
use crate::nes_rom::NametableMirroring;
use crate::ppu_memory::PpuMemory;

verus! {

// PPUCTRL bit masks.
pub const PPU_CTRL_NAMETABLE: u8 = 0x03;

pub const PPU_CTRL_VRAM_ADD_INCREMENT: u8 = 0x04;

pub const PPU_CTRL_SPRITE_PATTERN_ADDR: u8 = 0x08;

pub const PPU_CTRL_BACKGROUND_ADDR: u8 = 0x10;

pub const PPU_CTRL_SPRITE_SIZE: u8 = 0x20;

pub const PPU_CTRL_MASTER_SLAVE_SELECT: u8 = 0x40;

pub const PPU_CTRL_VBLANK_NMI: u8 = 0x80;

// PPUSTATUS bit masks.
pub const PPU_STATUS_SPRITE_OVERFLOW: u8 = 0x20;

pub const PPU_STATUS_SPRITE_HIT: u8 = 0x40;

pub const PPU_STATUS_VBLANK: u8 = 0x80;

// PPUMASK bit masks.
pub const PPU_MASK_GREYSCALE: u8 = 0x01;

pub const PPU_MASK_SHOW_LEFTMOST_BACKGROUND: u8 = 0x02;

pub const PPU_MASK_SHOW_LEFTMOST_SPRITES: u8 = 0x04;

pub const PPU_MASK_BACKGROUND_RENDERING: u8 = 0x08;

pub const PPU_MASK_SPRITE_RENDERING: u8 = 0x10;

pub const PPU_MASK_RED: u8 = 0x20;

pub const PPU_MASK_GREEN: u8 = 0x40;

pub const PPU_MASK_BLUE: u8 = 0x80;

/// The PPU address register: two bytes written in turn through $2006. The
/// shared high/low write toggle lives in the [`Ppu`], not here.
pub struct PpuAddr {
    pub hi: u8,
    pub lo: u8,
}

/// The 14-bit address the register selects (the top two bits of the written
/// value are discarded).
pub open spec fn addr_value(a: PpuAddr) -> u16 {
    (spec_mk16(a.lo, a.hi) as int % 0x4000) as u16
}

/// The register after one write: the selected byte is replaced.
pub open spec fn spec_addr_set(a: PpuAddr, value: u8, high: bool) -> PpuAddr {
    if high {
        PpuAddr { hi: value, ..a }
    } else {
        PpuAddr { lo: value, ..a }
    }
}

/// The register after a data access: the effective (masked) address plus
/// the configured increment, split back into bytes.
pub open spec fn spec_addr_inc(a: PpuAddr, amount: u8) -> PpuAddr {
    let nv = spec_add16(addr_value(a), amount as u16);
    PpuAddr { hi: spec_hi8(nv), lo: spec_lo8(nv) }
}

impl PpuAddr {
    pub fn new() -> (r: PpuAddr)
        ensures
            r == (PpuAddr { hi: 0u8, lo: 0u8 }),
    {
        PpuAddr { hi: 0, lo: 0 }
    }

    /// Stores one byte of the address; `high` selects which.
    pub fn set(&mut self, value: u8, high: bool)
        ensures
            *final(self) == spec_addr_set(*old(self), value, high),
    {
        if high {
            self.hi = value;
        } else {
            self.lo = value;
        }
    }

    /// The effective 14-bit address.
    pub fn get_addr(&self) -> (r: u16)
        ensures
            r == addr_value(*self),
            r < 0x4000,
    {
        mk16(self.lo, self.hi) % 0x4000
    }

    /// Advances the effective address by `amount`.
    pub fn increment_addr(&mut self, amount: u8)
        ensures
            *final(self) == spec_addr_inc(*old(self), amount),
    {
        let new_addr = add16(self.get_addr(), amount as u16);
        self.hi = hi8(new_addr);
        self.lo = lo8(new_addr);
    }
}

/// The scroll register: X then Y written in turn through $2005. The shared
/// write toggle lives in the [`Ppu`].
pub struct PpuScroll {
    pub x: u8,
    pub y: u8,
}

impl PpuScroll {
    pub fn new() -> (r: PpuScroll)
        ensures
            r == (PpuScroll { x: 0u8, y: 0u8 }),
    {
        PpuScroll { x: 0, y: 0 }
    }

    /// Stores one scroll component; `first` selects X.
    pub fn set(&mut self, value: u8, first: bool)
        ensures
            *final(self) == (if first {
                PpuScroll { x: value, ..*old(self) }
            } else {
                PpuScroll { y: value, ..*old(self) }
            }),
    {
        if first {
            self.x = value;
        } else {
            self.y = value;
        }
    }

    pub fn get_x(&self) -> (r: u8)
        ensures
            r == self.x,
    {
        self.x
    }

    pub fn get_y(&self) -> (r: u8)
        ensures
            r == self.y,
    {
        self.y
    }
}

/// The VRAM-address increment a PPUDATA access applies: 1 (across) when
/// PPUCTRL bit 2 is clear, 32 (down) when set.
pub open spec fn increment_amount(ctrl: u8) -> u8 {
    if !get_flag(ctrl, PPU_CTRL_VRAM_ADD_INCREMENT) {
        1
    } else {
        32
    }
}

/// The timing-visible slice of PPU state: position, status, control, and
/// the two pending one-shot events.
pub ghost struct PpuTimingV {
    pub dot: u32,
    pub scanline: u32,
    pub status: u8,
    pub ctrl: u8,
    pub nmi: bool,
    pub new_frame: bool,
}

/// One dot of PPU time. The position advances (341 dots per scanline, 262
/// scanlines per frame); entering (241,1) sets VBlank and latches an NMI if
/// enabled; entering (261,1) clears VBlank, sprite-0 hit and sprite
/// overflow, drops any unpolled NMI, and marks the frame complete.
pub open spec fn dot_step(t: PpuTimingV) -> PpuTimingV {
    let t1 = if t.dot == 340 {
        PpuTimingV {
            dot: 0u32,
            scanline: if t.scanline == 261 {
                0u32
            } else {
                ((t.scanline + 1) as u32)
            },
            ..t
        }
    } else {
        PpuTimingV { dot: ((t.dot + 1) as u32), ..t }
    };
    if t1.scanline == 241 && t1.dot == 1 {
        PpuTimingV {
            status: t1.status | PPU_STATUS_VBLANK,
            nmi: t1.nmi || get_flag(t1.ctrl, PPU_CTRL_VBLANK_NMI),
            ..t1
        }
    } else if t1.scanline == 261 && t1.dot == 1 {
        PpuTimingV {
            status: t1.status & !PPU_STATUS_VBLANK & !PPU_STATUS_SPRITE_HIT
                & !PPU_STATUS_SPRITE_OVERFLOW,
            nmi: false,
            new_frame: true,
            ..t1
        }
    } else {
        t1
    }
}

/// `n` dots of PPU time.
pub open spec fn ticked(t: PpuTimingV, n: nat) -> PpuTimingV
    decreases n,
{
    if n == 0 {
        t
    } else {
        dot_step(ticked(t, (n - 1) as nat))
    }
}

/// The PPU: registers, object attribute memory, timing counters, and its
/// own address space `memory`.
pub struct Ppu<M: Memory> {
    pub ctrl: u8,
    pub mask: u8,
    pub status: u8,
    pub oam_addr: u8,
    pub oam: Vec<u8>,
    pub scroll: PpuScroll,
    pub addr: PpuAddr,
    /// The write toggle shared by PPUSCROLL and PPUADDR: true when the next
    /// write is the first of a pair.
    pub latch_high: bool,
    pub data_buffer: u8,
    pub scanline: u32,
    pub dot: u32,
    pub nmi: bool,
    pub new_frame: bool,
    pub memory: M,
}

/// What one PPUDATA read does: relates the PPU before (`p0`) and after
/// (`p1`) and the byte returned. Non-palette reads return the old buffer
/// and refill it from the target; palette reads return the value at once
/// while the buffer picks up the nametable byte underneath; either way the
/// address advances by the configured increment and nothing else changes.
pub open spec fn data_read_post<M: Memory>(p0: Ppu<M>, p1: Ppu<M>, r: u8) -> bool {
    let a = addr_value(p0.addr);
    let m1 = M::read_model(p0.memory@, a);
    &&& p1.addr == spec_addr_inc(p0.addr, increment_amount(p0.ctrl))
    &&& (if a >= 0x3F00 {
        &&& r == M::read_value(p0.memory@, a)
        &&& p1.data_buffer == M::read_value(m1, (a - 0x1000) as u16)
        &&& p1.memory@ == M::read_model(m1, (a - 0x1000) as u16)
    } else {
        &&& r == p0.data_buffer
        &&& p1.data_buffer == M::read_value(p0.memory@, a)
        &&& p1.memory@ == m1
    })
    &&& p1.ctrl == p0.ctrl
    &&& p1.mask == p0.mask
    &&& p1.status == p0.status
    &&& p1.oam_addr == p0.oam_addr
    &&& p1.oam == p0.oam
    &&& p1.scroll == p0.scroll
    &&& p1.latch_high == p0.latch_high
    &&& p1.scanline == p0.scanline
    &&& p1.dot == p0.dot
    &&& p1.nmi == p0.nmi
    &&& p1.new_frame == p0.new_frame
}

/// What one PPUDATA write does: on success the memory transitions as its
/// model says and the address advances by the configured increment; a
/// rejected write (CHR-ROM) reports the memory's error and changes nothing.
pub open spec fn data_write_post<M: Memory>(
    p0: Ppu<M>,
    p1: Ppu<M>,
    value: u8,
    r: Result<(), EmuError>,
) -> bool {
    &&& match M::write_model(p0.memory@, addr_value(p0.addr), value) {
        Ok(m) => {
            &&& r is Ok
            &&& p1.memory@ == m
            &&& p1.addr == spec_addr_inc(p0.addr, increment_amount(p0.ctrl))
        },
        Err(e) => {
            &&& r == Err::<(), EmuError>(e)
            &&& p1.memory@ == p0.memory@
            &&& p1.addr == p0.addr
        },
    }
    &&& p1.ctrl == p0.ctrl
    &&& p1.mask == p0.mask
    &&& p1.status == p0.status
    &&& p1.oam_addr == p0.oam_addr
    &&& p1.oam == p0.oam
    &&& p1.scroll == p0.scroll
    &&& p1.latch_high == p0.latch_high
    &&& p1.data_buffer == p0.data_buffer
    &&& p1.scanline == p0.scanline
    &&& p1.dot == p0.dot
    &&& p1.nmi == p0.nmi
    &&& p1.new_frame == p0.new_frame
}

/// The power-on register state of a PPU (its memory aside).
pub open spec fn powered_on<M: Memory>(p: Ppu<M>) -> bool {
    &&& p.ctrl == 0u8
    &&& p.mask == 0u8
    &&& p.status == 0u8
    &&& p.oam_addr == 0u8
    &&& p.oam@.len() == 256
    &&& (forall|i: int| 0 <= i < 256 ==> p.oam@[i] == 0u8)
    &&& p.scroll == (PpuScroll { x: 0u8, y: 0u8 })
    &&& p.addr == (PpuAddr { hi: 0u8, lo: 0u8 })
    &&& p.latch_high == true
    &&& p.data_buffer == 0u8
    &&& p.scanline == 1u32
    &&& p.dot == 0u32
    &&& p.nmi == false
    &&& p.new_frame == false
}

impl<M: Memory> Ppu<M> {
    /// Well-formedness: the position counters are in range, OAM holds its
    /// 256 bytes, and the memory's own invariant holds.
    pub open spec fn wf(&self) -> bool {
        self.dot <= 340 && self.scanline <= 261 && self.oam@.len() == 256 && self.memory.inv()
    }

    /// The timing-visible slice of this PPU's state.
    pub open spec fn timing(&self) -> PpuTimingV {
        PpuTimingV {
            dot: self.dot,
            scanline: self.scanline,
            status: self.status,
            ctrl: self.ctrl,
            nmi: self.nmi,
            new_frame: self.new_frame,
        }
    }

    /// A PPU in its power-on state over the given memory.
    pub fn new_with_memory(memory: M) -> (r: Ppu<M>)
        requires
            memory.inv(),
        ensures
            r.wf(),
            powered_on(r),
            r.memory == memory,
    {
        let mut oam: Vec<u8> = Vec::new();
        let mut i: usize = 0;
        while i < 256
            invariant
                i <= 256,
                oam@.len() == i,
                forall|j: int| 0 <= j < i ==> oam@[j] == 0u8,
            decreases 256 - i,
        {
            oam.push(0);
            i = i + 1;
        }
        Ppu {
            ctrl: 0,
            mask: 0,
            status: 0,
            oam_addr: 0,
            oam,
            scroll: PpuScroll::new(),
            addr: PpuAddr::new(),
            latch_high: true,
            data_buffer: 0,
            scanline: 1,
            dot: 0,
            nmi: false,
            new_frame: false,
            memory,
        }
    }

    /// Advances the PPU by one dot.
    fn tick_one(&mut self)
        requires
            old(self).wf(),
        ensures
            final(self).wf(),
            final(self).timing() == dot_step(old(self).timing()),
            final(self).mask == old(self).mask,
            final(self).oam_addr == old(self).oam_addr,
            final(self).oam == old(self).oam,
            final(self).scroll == old(self).scroll,
            final(self).addr == old(self).addr,
            final(self).latch_high == old(self).latch_high,
            final(self).data_buffer == old(self).data_buffer,
            final(self).memory == old(self).memory,
    {
        if self.dot == 340 {
            self.dot = 0;
            self.scanline = if self.scanline == 261 {
                0
            } else {
                self.scanline + 1
            };
        } else {
            self.dot = self.dot + 1;
        }
        if self.scanline == 241 && self.dot == 1 {
            self.status = self.status | PPU_STATUS_VBLANK;
            if (self.ctrl & PPU_CTRL_VBLANK_NMI) != 0 {
                self.nmi = true;
            }
        } else if self.scanline == 261 && self.dot == 1 {
            self.status = self.status & !PPU_STATUS_VBLANK & !PPU_STATUS_SPRITE_HIT
                & !PPU_STATUS_SPRITE_OVERFLOW;
            self.nmi = false;
            self.new_frame = true;
        }
    }

    /// Advances the PPU by `cycles` dots.
    pub fn tick(&mut self, cycles: u32)
        requires
            old(self).wf(),
        ensures
            final(self).wf(),
            final(self).timing() == ticked(old(self).timing(), cycles as nat),
            final(self).mask == old(self).mask,
            final(self).oam_addr == old(self).oam_addr,
            final(self).oam == old(self).oam,
            final(self).scroll == old(self).scroll,
            final(self).addr == old(self).addr,
            final(self).latch_high == old(self).latch_high,
            final(self).data_buffer == old(self).data_buffer,
            final(self).memory == old(self).memory,
    {
        let mut i: u32 = 0;
        while i < cycles
            invariant
                i <= cycles,
                self.wf(),
                self.timing() == ticked(old(self).timing(), i as nat),
                self.mask == old(self).mask,
                self.oam_addr == old(self).oam_addr,
                self.oam == old(self).oam,
                self.scroll == old(self).scroll,
                self.addr == old(self).addr,
                self.latch_high == old(self).latch_high,
                self.data_buffer == old(self).data_buffer,
                self.memory == old(self).memory,
            decreases cycles - i,
        {
            self.tick_one();
            i = i + 1;
        }
    }

    /// One-shot NMI poll: reports a pending NMI and consumes it.
    pub fn poll_nmi(&mut self) -> (r: bool)
        ensures
            r == old(self).nmi,
            *final(self) == (Ppu { nmi: false, ..*old(self) }),
    {
        let value = self.nmi;
        self.nmi = false;
        value
    }

    /// One-shot frame poll: reports a completed frame and consumes the flag.
    pub fn poll_new_frame(&mut self) -> (r: bool)
        ensures
            r == old(self).new_frame,
            *final(self) == (Ppu { new_frame: false, ..*old(self) }),
    {
        let value = self.new_frame;
        self.new_frame = false;
        value
    }

    /// Whether the VBlank bit of PPUSTATUS is set.
    pub fn is_vblank(&self) -> (r: bool)
        ensures
            r == get_flag(self.status, PPU_STATUS_VBLANK),
    {
        self.get_status_bit(PPU_STATUS_VBLANK)
    }

    /// Writes PPUCTRL. Enabling the VBlank-NMI bit while VBlank is already
    /// active raises an NMI immediately.
    pub fn write_ppu_ctrl(&mut self, value: u8)
        ensures
            *final(self) == (Ppu {
                ctrl: value,
                nmi: old(self).nmi || (!get_flag(old(self).ctrl, PPU_CTRL_VBLANK_NMI)
                    && get_flag(value, PPU_CTRL_VBLANK_NMI)
                    && get_flag(old(self).status, PPU_STATUS_VBLANK)),
                ..*old(self)
            }),
    {
        let old_nmi = self.get_ctrl_bit(PPU_CTRL_VBLANK_NMI);
        self.ctrl = value;
        if !old_nmi && self.get_ctrl_bit(PPU_CTRL_VBLANK_NMI) && self.is_vblank() {
            self.nmi = true;
        }
    }

    /// Whether the PPUCTRL flag selected by `mask` is set.
    pub fn get_ctrl_bit(&self, mask: u8) -> (r: bool)
        ensures
            r == get_flag(self.ctrl, mask),
    {
        self.ctrl & mask != 0
    }

    /// Forces the PPUCTRL flag selected by `mask` to `value`.
    pub fn set_ctrl_bit(&mut self, mask: u8, value: bool)
        ensures
            *final(self) == (Ppu { ctrl: set_flag(old(self).ctrl, mask, value), ..*old(self) }),
    {
        if value {
            self.ctrl = self.ctrl | mask;
        } else {
            self.ctrl = self.ctrl & !mask;
        }
    }

    /// Writes PPUMASK.
    pub fn write_ppu_mask(&mut self, value: u8)
        ensures
            *final(self) == (Ppu { mask: value, ..*old(self) }),
    {
        self.mask = value;
    }

    /// Whether the PPUMASK flag selected by `mask` is set.
    pub fn get_mask_bit(&self, mask: u8) -> (r: bool)
        ensures
            r == get_flag(self.mask, mask),
    {
        self.mask & mask != 0
    }

    /// Forces the PPUMASK flag selected by `mask` to `value`.
    pub fn set_mask_bit(&mut self, mask: u8, value: bool)
        ensures
            *final(self) == (Ppu { mask: set_flag(old(self).mask, mask, value), ..*old(self) }),
    {
        if value {
            self.mask = self.mask | mask;
        } else {
            self.mask = self.mask & !mask;
        }
    }

    /// Reads PPUSTATUS: returns the status byte, then clears the VBlank bit
    /// and resets the shared PPUSCROLL/PPUADDR write toggle.
    pub fn read_ppu_status(&mut self) -> (r: u8)
        ensures
            r == old(self).status,
            *final(self) == (Ppu {
                status: set_flag(old(self).status, PPU_STATUS_VBLANK, false),
                latch_high: true,
                ..*old(self)
            }),
    {
        let value = self.status;
        self.set_status_bit(PPU_STATUS_VBLANK, false);
        self.latch_high = true;
        value
    }

    /// Whether the PPUSTATUS flag selected by `mask` is set.
    pub fn get_status_bit(&self, mask: u8) -> (r: bool)
        ensures
            r == get_flag(self.status, mask),
    {
        self.status & mask != 0
    }

    /// Forces the PPUSTATUS flag selected by `mask` to `value`.
    pub fn set_status_bit(&mut self, mask: u8, value: bool)
        ensures
            *final(self) == (Ppu { status: set_flag(old(self).status, mask, value), ..*old(self) }),
    {
        if value {
            self.status = self.status | mask;
        } else {
            self.status = self.status & !mask;
        }
    }

    /// Writes PPUSCROLL: X on the first write of a pair, Y on the second.
    pub fn write_ppu_scroll(&mut self, value: u8)
        ensures
            *final(self) == (Ppu {
                scroll: if old(self).latch_high {
                    PpuScroll { x: value, ..old(self).scroll }
                } else {
                    PpuScroll { y: value, ..old(self).scroll }
                },
                latch_high: !old(self).latch_high,
                ..*old(self)
            }),
    {
        let high = self.latch_high;
        self.scroll.set(value, high);
        self.latch_high = !high;
    }

    /// Writes PPUADDR: the high byte on the first write of a pair, the low
    /// byte on the second.
    pub fn write_ppu_addr(&mut self, value: u8)
        ensures
            *final(self) == (Ppu {
                addr: spec_addr_set(old(self).addr, value, old(self).latch_high),
                latch_high: !old(self).latch_high,
                ..*old(self)
            }),
    {
        let high = self.latch_high;
        self.addr.set(value, high);
        self.latch_high = !high;
    }

    /// Reads PPUDATA. Reads below the palette range return the previous
    /// buffer contents and refill the buffer from the target address;
    /// palette reads return the value immediately while the buffer picks up
    /// the nametable byte underneath. Every read advances the address by
    /// the configured increment.
    pub fn read_ppu_data(&mut self) -> (r: u8)
        requires
            old(self).memory.inv(),
        ensures
            final(self).memory.inv(),
            data_read_post(*old(self), *final(self), r),
    {
        let a = self.addr.get_addr();
        let result: u8 = if a >= 0x3F00 {
            let value = self.memory.read(a);
            let under = self.memory.read(a - 0x1000);
            self.data_buffer = under;
            value
        } else {
            let value = self.data_buffer;
            self.data_buffer = self.memory.read(a);
            value
        };

        let amount = self.addr_increment_amount();
        self.addr.increment_addr(amount);
        result
    }

    /// Writes PPUDATA at the current address and advances it. A rejected
    /// write (CHR-ROM) reports the memory's error and changes nothing.
    pub fn write_ppu_data(&mut self, value: u8) -> (r: Result<(), EmuError>)
        requires
            old(self).memory.inv(),
        ensures
            final(self).memory.inv(),
            data_write_post(*old(self), *final(self), value, r),
    {
        let a = self.addr.get_addr();
        match self.memory.write(a, value) {
            Ok(_) => {
                let amount = self.addr_increment_amount();
                self.addr.increment_addr(amount);
                Ok(())
            },
            Err(e) => Err(e),
        }
    }

    /// Writes OAMADDR.
    pub fn write_oam_addr(&mut self, value: u8)
        ensures
            *final(self) == (Ppu { oam_addr: value, ..*old(self) }),
    {
        self.oam_addr = value;
    }

    /// Writes OAMDATA at OAMADDR and increments OAMADDR.
    pub fn write_oam_data(&mut self, value: u8)
        requires
            old(self).oam@.len() == 256,
        ensures
            final(self).oam@ == old(self).oam@.update(old(self).oam_addr as int, value),
            final(self).oam_addr == spec_inc8(old(self).oam_addr),
            *final(self) == (Ppu {
                oam: final(self).oam,
                oam_addr: final(self).oam_addr,
                ..*old(self)
            }),
    {
        let i = self.oam_addr;
        self.oam.set(i as usize, value);
        self.oam_addr = inc8(i);
    }

    /// Reads OAMDATA at OAMADDR (no increment).
    pub fn read_oam_data(&self) -> (r: u8)
        requires
            self.oam@.len() == 256,
        ensures
            r == self.oam@[self.oam_addr as int],
    {
        self.oam[self.oam_addr as usize]
    }

    fn addr_increment_amount(&self) -> (r: u8)
        ensures
            r == increment_amount(self.ctrl),
    {
        if !self.get_ctrl_bit(PPU_CTRL_VRAM_ADD_INCREMENT) {
            1  // across
        } else {
            32  // down
        }
    }

    /// Pattern-table base address for the background.
    pub fn background_pattern_addr(&self) -> (r: u16)
        ensures
            r == (if get_flag(self.ctrl, PPU_CTRL_BACKGROUND_ADDR) {
                0x1000u16
            } else {
                0u16
            }),
    {
        if self.get_ctrl_bit(PPU_CTRL_BACKGROUND_ADDR) {
            0x1000
        } else {
            0x0
        }
    }

    /// Pattern-table base address for 8x8 sprites.
    pub fn sprite_pattern_addr(&self) -> (r: u16)
        ensures
            r == (if get_flag(self.ctrl, PPU_CTRL_SPRITE_PATTERN_ADDR) {
                0x1000u16
            } else {
                0u16
            }),
    {
        if self.get_ctrl_bit(PPU_CTRL_SPRITE_PATTERN_ADDR) {
            0x1000
        } else {
            0x0
        }
    }

    /// The base nametable selected by PPUCTRL (0..3).
    pub fn base_nametable_index(&self) -> (r: u8)
        ensures
            r == self.ctrl & PPU_CTRL_NAMETABLE,
            r < 4,
    {
        let c = self.ctrl;
        proof {
            assert(c & 0x03u8 < 4) by (bit_vector);
        }
        c & PPU_CTRL_NAMETABLE
    }
}

impl Ppu<PpuMemory> {
    /// A PPU over a cartridge's CHR-ROM with the given nametable mirroring.
    pub fn new(chr_rom: Vec<u8>, mirroring: NametableMirroring) -> (r: Ppu<PpuMemory>)
        ensures
            r.wf(),
            powered_on(r),
            r.memory@.chr == chr_rom@,
            r.memory@.mirroring == mirroring,
            r.memory@.vram.len() == 0x800,
            forall|i: int| 0 <= i < 0x800 ==> r.memory@.vram[i] == 0u8,
            r.memory@.palette.len() == 0x20,
            forall|i: int| 0 <= i < 0x20 ==> r.memory@.palette[i] == 0u8,
    {
        Ppu::new_with_memory(PpuMemory::new(chr_rom, mirroring))
    }
}

// ---------------------------------------------------------------------------
// Laws of the register machinery.
// ---------------------------------------------------------------------------

/// Reading PPUSTATUS once clears the VBlank bit, so a second read returns a
/// byte whose VBlank bit is clear.
pub proof fn lemma_status_read_clears_vblank(status: u8)
    ensures
        !get_flag(set_flag(status, PPU_STATUS_VBLANK, false), PPU_STATUS_VBLANK),
{
    lemma_flag_same(status, PPU_STATUS_VBLANK, false);
}

/// Entering (scanline 241, dot 1) sets the VBlank bit and latches an NMI
/// exactly when the PPUCTRL enable bit is set; an already pending NMI
/// stays pending, and the frame flag is untouched.
pub proof fn lemma_vblank_entry(t: PpuTimingV)
    requires
        t.scanline == 241,
        t.dot == 0,
    ensures
        ({
            let t1 = dot_step(t);
            &&& t1.scanline == 241 && t1.dot == 1
            &&& get_flag(t1.status, PPU_STATUS_VBLANK)
            &&& t1.nmi == (t.nmi || get_flag(t.ctrl, PPU_CTRL_VBLANK_NMI))
            &&& t1.new_frame == t.new_frame
        }),
{
    lemma_flag_same(t.status, PPU_STATUS_VBLANK, true);
}

/// Entering (scanline 261, dot 1) ends VBlank: the VBlank, sprite-0-hit
/// and sprite-overflow bits are cleared, any unpolled NMI is dropped, and
/// the frame is marked complete.
pub proof fn lemma_frame_end(t: PpuTimingV)
    requires
        t.scanline == 261,
        t.dot == 0,
    ensures
        ({
            let t1 = dot_step(t);
            &&& t1.scanline == 261 && t1.dot == 1
            &&& !get_flag(t1.status, PPU_STATUS_VBLANK)
            &&& !get_flag(t1.status, PPU_STATUS_SPRITE_HIT)
            &&& !get_flag(t1.status, PPU_STATUS_SPRITE_OVERFLOW)
            &&& t1.nmi == false
            &&& t1.new_frame == true
        }),
{
    let s = t.status;
    assert((((s & !0x80u8 & !0x40u8 & !0x20u8) & 0x80u8) == 0) && (((s & !0x80u8 & !0x40u8
        & !0x20u8) & 0x40u8) == 0) && (((s & !0x80u8 & !0x40u8 & !0x20u8) & 0x20u8) == 0))
        by (bit_vector);
}

/// Writing PPUADDR twice (high byte, then low byte) from a fresh toggle
/// selects exactly that address masked to 14 bits, and each of the next two
/// PPUDATA accesses advances it by the configured increment: by 1, or by 32
/// with the increment bit set, wrapping within the 14-bit space.
pub proof fn lemma_addr_two_writes_two_reads(a0: PpuAddr, hi: u8, lo: u8, ctrl: u8)
    ensures
        ({
            let a2 = spec_addr_set(spec_addr_set(a0, hi, true), lo, false);
            let amt = increment_amount(ctrl);
            let a3 = spec_addr_inc(a2, amt);
            let a4 = spec_addr_inc(a3, amt);
            &&& (amt == 1 || amt == 32)
            &&& addr_value(a2) == spec_mk16(lo, hi) as int % 0x4000
            &&& addr_value(a3) == (addr_value(a2) + amt) % 0x4000
            &&& addr_value(a4) == (addr_value(a2) + 2 * (amt as int)) % 0x4000
        }),
{
    let a2 = spec_addr_set(spec_addr_set(a0, hi, true), lo, false);
    let amt = increment_amount(ctrl);
    let v2 = addr_value(a2) as int;
    let a3 = spec_addr_inc(a2, amt);
    assert(spec_mk16(spec_lo8(spec_add16(addr_value(a2), amt as u16)), spec_hi8(
        spec_add16(addr_value(a2), amt as u16),
    )) == spec_add16(addr_value(a2), amt as u16));
    let a4 = spec_addr_inc(a3, amt);
    assert(spec_mk16(spec_lo8(spec_add16(addr_value(a3), amt as u16)), spec_hi8(
        spec_add16(addr_value(a3), amt as u16),
    )) == spec_add16(addr_value(a3), amt as u16));
    assert(addr_value(a3) == (v2 + amt) % 0x4000);
    assert(addr_value(a4) == (v2 + 2 * (amt as int)) % 0x4000);
}

} // verus!
