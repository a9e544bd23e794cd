//! The 6502 CPU core: registers and the fetch-decode-execute engine.
//!
//! Every method is specified against the machine model in
//! [`crate::cpu_model`]: the view of a [`CPU`] is a [`CpuV`] and each
//! instruction's effect equals the corresponding spec-level transition.

use vstd::prelude::*;

use crate::cpu_model::{
    acc_op_step, add16, add8, after_operand, apply_adc, apply_bit, apply_compare, apply_read_op,
    apply_rmw, apply_sbc, branch_step, brk_step, bump, dec16, dec8, eff_addr, ext16, fetched, get_flag,
    hi8, inc16, inc8, is_documented, jmp_abs_step, jmp_ind_step, jsr_step, lo8, mk16, php_step,
    pha_step, pla_step, plp_step, pull_spec, push_spec, rd, read_mode, read_op_step, reset_spec,
    rmw_op_step, rti_step, rts_step, same_page_inc, set_flag, set_zn, step_spec, store_op_step,
    implied_step, Access, CpuV, Mode, ReadOp, RegSel, RmwOp, ImpliedOp, FLAG_BREAK, FLAG_CARRY,
    FLAG_DECIMAL, FLAG_INTERRUPT, FLAG_NEGATIVE, FLAG_OVERFLOW, FLAG_UNUSED, FLAG_ZERO,
    VECTOR_IRQ_HI, VECTOR_IRQ_LO, VECTOR_RESET_HI, VECTOR_RESET_LO,
};
use crate::errors::EmuError;
use crate::ram::RAM;

verus! {

/// The CPU register file: program counter, accumulator, index registers,
/// status byte and stack pointer.
pub struct Registers {
    pub pc: u16,
    pub a: u8,
    pub x: u8,
    pub y: u8,
    pub p: u8,
    pub s: u8,
}

impl Registers {
    /// Power-on register file; PC points at the conventional load address of
    /// a raw test binary until `CPU::reset` loads the reset vector.
    pub fn new() -> (r: Registers)
        ensures
            r == (Registers { pc: 0x0400, a: 0, x: 0, y: 0, p: 0, s: 0 }),
    {
        Registers { a: 0, x: 0, y: 0, s: 0, pc: 0x0400, p: 0 }
    }

    /// Sets Z and N from `value`, leaving every other flag alone.
    pub fn update_zn_flags(&mut self, value: u8)
        ensures
            *final(self) == (Registers { p: set_zn(old(self).p, value), ..*old(self) }),
    {
        self.update_zero_bit(value == 0x00);
        self.update_negative_bit(value >= 0x80);
    }

    /// Loads the accumulator and sets Z/N from it.
    pub fn update_a(&mut self, value: u8)
        ensures
            *final(self) == (Registers { a: value, p: set_zn(old(self).p, value), ..*old(self) }),
    {
        self.a = value;
        self.update_zn_flags(value);
    }

    /// Loads X and sets Z/N from it.
    pub fn update_x(&mut self, value: u8)
        ensures
            *final(self) == (Registers { x: value, p: set_zn(old(self).p, value), ..*old(self) }),
    {
        self.x = value;
        self.update_zn_flags(value);
    }

    /// Loads Y and sets Z/N from it.
    pub fn update_y(&mut self, value: u8)
        ensures
            *final(self) == (Registers { y: value, p: set_zn(old(self).p, value), ..*old(self) }),
    {
        self.y = value;
        self.update_zn_flags(value);
    }

    /// Forces the flag selected by `mask` to `value`.
    pub fn update_status_bit(&mut self, mask: u8, value: bool)
        ensures
            *final(self) == (Registers { p: set_flag(old(self).p, mask, value), ..*old(self) }),
    {
        if value {
            self.p = self.p | mask;
        } else {
            self.p = self.p & !mask;
        }
    }

    /// Whether the flag selected by `mask` is set.
    pub fn get_status_bit(&self, mask: u8) -> (r: bool)
        ensures
            r == get_flag(self.p, mask),
    {
        self.p & mask != 0
    }

    pub fn update_carry_bit(&mut self, value: bool)
        ensures
            *final(self) == (Registers { p: set_flag(old(self).p, FLAG_CARRY, value), ..*old(self) }),
    {
        self.update_status_bit(FLAG_CARRY, value)
    }

    pub fn get_carry_bit(&self) -> (r: bool)
        ensures
            r == get_flag(self.p, FLAG_CARRY),
    {
        self.get_status_bit(FLAG_CARRY)
    }

    pub fn update_zero_bit(&mut self, value: bool)
        ensures
            *final(self) == (Registers { p: set_flag(old(self).p, FLAG_ZERO, value), ..*old(self) }),
    {
        self.update_status_bit(FLAG_ZERO, value)
    }

    pub fn get_zero_bit(&self) -> (r: bool)
        ensures
            r == get_flag(self.p, FLAG_ZERO),
    {
        self.get_status_bit(FLAG_ZERO)
    }

    pub fn update_interupt_bit(&mut self, value: bool)
        ensures
            *final(self) == (Registers {
                p: set_flag(old(self).p, FLAG_INTERRUPT, value),
                ..*old(self)
            }),
    {
        self.update_status_bit(FLAG_INTERRUPT, value)
    }

    pub fn get_interupt_bit(&self) -> (r: bool)
        ensures
            r == get_flag(self.p, FLAG_INTERRUPT),
    {
        self.get_status_bit(FLAG_INTERRUPT)
    }

    pub fn update_decimal_bit(&mut self, value: bool)
        ensures
            *final(self) == (Registers {
                p: set_flag(old(self).p, FLAG_DECIMAL, value),
                ..*old(self)
            }),
    {
        self.update_status_bit(FLAG_DECIMAL, value)
    }

    pub fn get_decimal_bit(&self) -> (r: bool)
        ensures
            r == get_flag(self.p, FLAG_DECIMAL),
    {
        self.get_status_bit(FLAG_DECIMAL)
    }

    pub fn update_overflow_bit(&mut self, value: bool)
        ensures
            *final(self) == (Registers {
                p: set_flag(old(self).p, FLAG_OVERFLOW, value),
                ..*old(self)
            }),
    {
        self.update_status_bit(FLAG_OVERFLOW, value)
    }

    pub fn get_overflow_bit(&self) -> (r: bool)
        ensures
            r == get_flag(self.p, FLAG_OVERFLOW),
    {
        self.get_status_bit(FLAG_OVERFLOW)
    }

    pub fn update_negative_bit(&mut self, value: bool)
        ensures
            *final(self) == (Registers {
                p: set_flag(old(self).p, FLAG_NEGATIVE, value),
                ..*old(self)
            }),
    {
        self.update_status_bit(FLAG_NEGATIVE, value)
    }

    pub fn get_negative_bit(&self) -> (r: bool)
        ensures
            r == get_flag(self.p, FLAG_NEGATIVE),
    {
        self.get_status_bit(FLAG_NEGATIVE)
    }
}

/// The CPU: register file, flat 64 KiB memory, and a cycle counter. The
/// `clock_speed` field (cycles per second; 0 means uncapped) is data for the
/// host's rate limiting and has no effect on the core's semantics.
pub struct CPU {
    pub registers: Registers,
    pub memory: RAM,
    pub clock_speed: u32,
    pub cycle: u64,
}

impl View for CPU {
    type V = CpuV;

    open spec fn view(&self) -> CpuV {
        CpuV {
            pc: self.registers.pc,
            a: self.registers.a,
            x: self.registers.x,
            y: self.registers.y,
            p: self.registers.p,
            sp: self.registers.s,
            mem: self.memory@,
            cycle: self.cycle as int,
        }
    }
}

impl CPU {
    /// Advances the cycle counter by one. Every byte-level memory access
    /// costs exactly one of these.
    fn clock_cycle(&mut self)
        requires
            old(self)@.cycle < u64::MAX,
        ensures
            final(self)@ == bump(old(self)@, 1),
            final(self).registers == old(self).registers,
            final(self).memory == old(self).memory,
    {
        self.cycle = self.cycle + 1;
    }

    /// Reads one byte, costing one cycle.
    fn read_memory(&mut self, a: u16) -> (r: u8)
        requires
            old(self)@.wf(),
            old(self)@.cycle < u64::MAX,
        ensures
            final(self)@ == bump(old(self)@, 1),
            r == rd(old(self)@, a),
    {
        self.clock_cycle();
        self.memory.read(a)
    }

    /// Writes one byte, costing one cycle.
    fn write_memory(&mut self, a: u16, v: u8)
        requires
            old(self)@.wf(),
            old(self)@.cycle < u64::MAX,
        ensures
            final(self)@ == (CpuV {
                mem: old(self)@.mem.update(a as int, v),
                cycle: old(self)@.cycle + 1,
                ..old(self)@
            }),
    {
        self.clock_cycle();
        self.memory.write(a, v)
    }

    /// Fetches the byte at PC and advances PC.
    fn next(&mut self) -> (r: u8)
        requires
            old(self)@.wf(),
            old(self)@.cycle < u64::MAX,
        ensures
            final(self)@ == fetched(old(self)@),
            r == rd(old(self)@, old(self)@.pc),
    {
        let current = self.read_memory(self.registers.pc);
        self.registers.pc = inc16(self.registers.pc);
        current
    }

    // -- Effective-address computation, one method per addressing mode. --

    fn addr_zeropage(&mut self) -> (r: u16)
        requires
            old(self)@.wf(),
            old(self)@.cycle + 1 <= u64::MAX,
        ensures
            final(self)@ == after_operand(old(self)@, Mode::ZeroPage, Access::Read),
            r == eff_addr(old(self)@, Mode::ZeroPage),
    {
        let addr = self.next();
        addr as u16
    }

    fn addr_zeropage_x(&mut self) -> (r: u16)
        requires
            old(self)@.wf(),
            old(self)@.cycle + 2 <= u64::MAX,
        ensures
            final(self)@ == after_operand(old(self)@, Mode::ZeroPageX, Access::Read),
            r == eff_addr(old(self)@, Mode::ZeroPageX),
    {
        let addr = self.next();
        let addr = add8(addr, self.registers.x);
        self.clock_cycle();
        addr as u16
    }

    fn addr_zeropage_y(&mut self) -> (r: u16)
        requires
            old(self)@.wf(),
            old(self)@.cycle + 2 <= u64::MAX,
        ensures
            final(self)@ == after_operand(old(self)@, Mode::ZeroPageY, Access::Read),
            r == eff_addr(old(self)@, Mode::ZeroPageY),
    {
        let addr = self.next();
        let addr = add8(addr, self.registers.y);
        self.clock_cycle();
        addr as u16
    }

    fn addr_absolute(&mut self) -> (r: u16)
        requires
            old(self)@.wf(),
            old(self)@.cycle + 2 <= u64::MAX,
        ensures
            final(self)@ == after_operand(old(self)@, Mode::Absolute, Access::Read),
            r == eff_addr(old(self)@, Mode::Absolute),
    {
        let lo = self.next();
        let hi = self.next();
        mk16(lo, hi)
    }

    fn addr_absolute_x(&mut self, access: Access) -> (r: u16)
        requires
            old(self)@.wf(),
            old(self)@.cycle + 3 <= u64::MAX,
        ensures
            final(self)@ == after_operand(old(self)@, Mode::AbsoluteX, access),
            r == eff_addr(old(self)@, Mode::AbsoluteX),
    {
        let lo = self.next();
        let hi = self.next();
        let base = mk16(lo, hi);
        let addr = add16(base, self.registers.x as u16);

        let page_cross = base / 256 != addr / 256;
        match access {
            Access::Read => {
                if page_cross {
                    self.clock_cycle();
                }
            },
            Access::Write | Access::ReadModify => {
                self.clock_cycle();
            },
        }
        addr
    }

    fn addr_absolute_y(&mut self, access: Access) -> (r: u16)
        requires
            old(self)@.wf(),
            old(self)@.cycle + 3 <= u64::MAX,
        ensures
            final(self)@ == after_operand(old(self)@, Mode::AbsoluteY, access),
            r == eff_addr(old(self)@, Mode::AbsoluteY),
    {
        let lo = self.next();
        let hi = self.next();
        let base = mk16(lo, hi);
        let addr = add16(base, self.registers.y as u16);

        let page_cross = base / 256 != addr / 256;
        match access {
            Access::Read => {
                if page_cross {
                    self.clock_cycle();
                }
            },
            Access::Write | Access::ReadModify => {
                self.clock_cycle();
            },
        }
        addr
    }

    fn addr_preindexed_indirect_zeropage_x(&mut self) -> (r: u16)
        requires
            old(self)@.wf(),
            old(self)@.cycle + 4 <= u64::MAX,
        ensures
            final(self)@ == after_operand(old(self)@, Mode::IndirectX, Access::Read),
            r == eff_addr(old(self)@, Mode::IndirectX),
    {
        let first_addr = self.next();
        let first_addr = add8(first_addr, self.registers.x);
        self.clock_cycle();

        let lo = self.read_memory(first_addr as u16);
        let hi = self.read_memory(add8(first_addr, 1) as u16);
        mk16(lo, hi)
    }

    fn addr_postindexed_indirect_zeropage_y(&mut self, access: Access) -> (r: u16)
        requires
            old(self)@.wf(),
            old(self)@.cycle + 4 <= u64::MAX,
        ensures
            final(self)@ == after_operand(old(self)@, Mode::IndirectY, access),
            r == eff_addr(old(self)@, Mode::IndirectY),
    {
        let addr = self.next();
        let lo = self.read_memory(addr as u16);
        let hi = self.read_memory(add8(addr, 1) as u16);

        let base = mk16(lo, hi);
        let eff = add16(base, self.registers.y as u16);

        let page_cross = base / 256 != eff / 256;
        match access {
            Access::Read => {
                if page_cross {
                    self.clock_cycle();
                }
            },
            Access::Write | Access::ReadModify => {
                self.clock_cycle();
            },
        }
        eff
    }

    // -- Operand reads and writes through the addressing modes. --

    fn read_zeropage(&mut self) -> (r: u8)
        requires
            old(self)@.wf(),
            old(self)@.cycle + 2 <= u64::MAX,
        ensures
            final(self)@ == read_mode(old(self)@, Mode::ZeroPage).0,
            r == read_mode(old(self)@, Mode::ZeroPage).1,
    {
        let addr = self.addr_zeropage();
        self.read_memory(addr)
    }

    fn read_zeropage_x(&mut self) -> (r: u8)
        requires
            old(self)@.wf(),
            old(self)@.cycle + 3 <= u64::MAX,
        ensures
            final(self)@ == read_mode(old(self)@, Mode::ZeroPageX).0,
            r == read_mode(old(self)@, Mode::ZeroPageX).1,
    {
        let addr = self.addr_zeropage_x();
        self.read_memory(addr)
    }

    fn read_zeropage_y(&mut self) -> (r: u8)
        requires
            old(self)@.wf(),
            old(self)@.cycle + 3 <= u64::MAX,
        ensures
            final(self)@ == read_mode(old(self)@, Mode::ZeroPageY).0,
            r == read_mode(old(self)@, Mode::ZeroPageY).1,
    {
        let addr = self.addr_zeropage_y();
        self.read_memory(addr)
    }

    fn read_absolute(&mut self) -> (r: u8)
        requires
            old(self)@.wf(),
            old(self)@.cycle + 3 <= u64::MAX,
        ensures
            final(self)@ == read_mode(old(self)@, Mode::Absolute).0,
            r == read_mode(old(self)@, Mode::Absolute).1,
    {
        let addr = self.addr_absolute();
        self.read_memory(addr)
    }

    fn read_absolute_x(&mut self) -> (r: u8)
        requires
            old(self)@.wf(),
            old(self)@.cycle + 4 <= u64::MAX,
        ensures
            final(self)@ == read_mode(old(self)@, Mode::AbsoluteX).0,
            r == read_mode(old(self)@, Mode::AbsoluteX).1,
    {
        let addr = self.addr_absolute_x(Access::Read);
        self.read_memory(addr)
    }

    fn read_absolute_y(&mut self) -> (r: u8)
        requires
            old(self)@.wf(),
            old(self)@.cycle + 4 <= u64::MAX,
        ensures
            final(self)@ == read_mode(old(self)@, Mode::AbsoluteY).0,
            r == read_mode(old(self)@, Mode::AbsoluteY).1,
    {
        let addr = self.addr_absolute_y(Access::Read);
        self.read_memory(addr)
    }

    fn read_preindexed_indirect_zeropage_x(&mut self) -> (r: u8)
        requires
            old(self)@.wf(),
            old(self)@.cycle + 5 <= u64::MAX,
        ensures
            final(self)@ == read_mode(old(self)@, Mode::IndirectX).0,
            r == read_mode(old(self)@, Mode::IndirectX).1,
    {
        let addr = self.addr_preindexed_indirect_zeropage_x();
        self.read_memory(addr)
    }

    fn read_postindexed_indirect_zeropage_y(&mut self) -> (r: u8)
        requires
            old(self)@.wf(),
            old(self)@.cycle + 5 <= u64::MAX,
        ensures
            final(self)@ == read_mode(old(self)@, Mode::IndirectY).0,
            r == read_mode(old(self)@, Mode::IndirectY).1,
    {
        let addr = self.addr_postindexed_indirect_zeropage_y(Access::Read);
        self.read_memory(addr)
    }

    fn write_zeropage(&mut self, data: u8)
        requires
            old(self)@.wf(),
            old(self)@.cycle + 2 <= u64::MAX,
        ensures
            final(self)@ == (CpuV {
                mem: old(self)@.mem.update(eff_addr(old(self)@, Mode::ZeroPage) as int, data),
                cycle: after_operand(old(self)@, Mode::ZeroPage, Access::Write).cycle + 1,
                ..after_operand(old(self)@, Mode::ZeroPage, Access::Write)
            }),
    {
        let addr = self.addr_zeropage();
        self.write_memory(addr, data);
    }

    fn write_zeropage_x(&mut self, data: u8)
        requires
            old(self)@.wf(),
            old(self)@.cycle + 3 <= u64::MAX,
        ensures
            final(self)@ == (CpuV {
                mem: old(self)@.mem.update(eff_addr(old(self)@, Mode::ZeroPageX) as int, data),
                cycle: after_operand(old(self)@, Mode::ZeroPageX, Access::Write).cycle + 1,
                ..after_operand(old(self)@, Mode::ZeroPageX, Access::Write)
            }),
    {
        let addr = self.addr_zeropage_x();
        self.write_memory(addr, data);
    }

    fn write_zeropage_y(&mut self, data: u8)
        requires
            old(self)@.wf(),
            old(self)@.cycle + 3 <= u64::MAX,
        ensures
            final(self)@ == (CpuV {
                mem: old(self)@.mem.update(eff_addr(old(self)@, Mode::ZeroPageY) as int, data),
                cycle: after_operand(old(self)@, Mode::ZeroPageY, Access::Write).cycle + 1,
                ..after_operand(old(self)@, Mode::ZeroPageY, Access::Write)
            }),
    {
        let addr = self.addr_zeropage_y();
        self.write_memory(addr, data);
    }

    fn write_absolute(&mut self, data: u8)
        requires
            old(self)@.wf(),
            old(self)@.cycle + 3 <= u64::MAX,
        ensures
            final(self)@ == (CpuV {
                mem: old(self)@.mem.update(eff_addr(old(self)@, Mode::Absolute) as int, data),
                cycle: after_operand(old(self)@, Mode::Absolute, Access::Write).cycle + 1,
                ..after_operand(old(self)@, Mode::Absolute, Access::Write)
            }),
    {
        let addr = self.addr_absolute();
        self.write_memory(addr, data);
    }

    // -- The arithmetic/logic unit. --

    /// Add with carry (binary or decimal according to the D flag).
    fn adc(&mut self, m: u8)
        ensures
            final(self)@ == apply_adc(old(self)@, m),
    {
        let a = self.registers.a;
        let c: u16 = if self.registers.get_carry_bit() {
            1
        } else {
            0
        };

        let sum: u16 = a as u16 + m as u16 + c;
        let result: u8 = (sum % 256) as u8;

        let v = (!(a ^ m) & (a ^ result) & 0x80) != 0;

        if self.registers.get_decimal_bit() {
            let mut adj: u16 = 0;
            if (a % 16) as u16 + (m % 16) as u16 + c > 9 {
                adj = adj + 0x06;
            }
            if sum > 0x99 {
                adj = adj + 0x60;
            }
            let bcd: u8 = ((result as u16 + adj) % 256) as u8;

            let carry = sum > 0x99;

            self.registers.update_carry_bit(carry);
            self.registers.update_overflow_bit(v);
            self.registers.update_a(bcd);
        } else {
            self.registers.update_carry_bit(sum > 0xFF);
            self.registers.update_overflow_bit(v);
            self.registers.update_a(result);
        }
    }

    /// Subtract with borrow (binary or decimal according to the D flag).
    fn sbc(&mut self, m: u8)
        ensures
            final(self)@ == apply_sbc(old(self)@, m),
    {
        let a = self.registers.a;
        let c: i32 = if self.registers.get_carry_bit() {
            1
        } else {
            0
        };

        let diff: i32 = a as i32 - m as i32 - (1 - c);
        let result: u8 = if diff < 0 {
            (diff + 256) as u8
        } else {
            diff as u8
        };

        let v = ((a ^ m) & (a ^ result) & 0x80) != 0;

        if self.registers.get_decimal_bit() {
            let mut adj: i32 = 0;
            if (a % 16) as i32 - (m % 16) as i32 - (1 - c) < 0 {
                adj = adj - 0x06;
            }
            if diff < 0 {
                adj = adj - 0x60;
            }
            let t: i32 = result as i32 + adj;
            let bcd: u8 = if t < 0 {
                (t + 256) as u8
            } else {
                t as u8
            };

            let carry = diff >= 0;

            self.registers.update_carry_bit(carry);
            self.registers.update_overflow_bit(v);
            self.registers.update_a(bcd);
        } else {
            self.registers.update_carry_bit(diff >= 0);
            self.registers.update_overflow_bit(v);
            self.registers.update_a(result);
        }
    }

    fn ora(&mut self, data: u8)
        ensures
            final(self)@ == apply_read_op(ReadOp::Ora, old(self)@, data),
    {
        let v = self.registers.a | data;
        self.registers.update_a(v);
    }

    fn eor(&mut self, data: u8)
        ensures
            final(self)@ == apply_read_op(ReadOp::Eor, old(self)@, data),
    {
        let v = self.registers.a ^ data;
        self.registers.update_a(v);
    }

    fn and(&mut self, data: u8)
        ensures
            final(self)@ == apply_read_op(ReadOp::And, old(self)@, data),
    {
        let v = self.registers.a & data;
        self.registers.update_a(v);
    }

    fn inc(&mut self, data: u8) -> (r: u8)
        ensures
            final(self)@ == (CpuV { p: apply_rmw(RmwOp::Inc, old(self)@.p, data).0, ..old(self)@ }),
            r == apply_rmw(RmwOp::Inc, old(self)@.p, data).1,
    {
        let result = inc8(data);
        self.registers.update_zn_flags(result);
        result
    }

    fn dec(&mut self, data: u8) -> (r: u8)
        ensures
            final(self)@ == (CpuV { p: apply_rmw(RmwOp::Dec, old(self)@.p, data).0, ..old(self)@ }),
            r == apply_rmw(RmwOp::Dec, old(self)@.p, data).1,
    {
        let result = dec8(data);
        self.registers.update_zn_flags(result);
        result
    }

    fn asl(&mut self, data: u8) -> (r: u8)
        ensures
            final(self)@ == (CpuV { p: apply_rmw(RmwOp::Asl, old(self)@.p, data).0, ..old(self)@ }),
            r == apply_rmw(RmwOp::Asl, old(self)@.p, data).1,
    {
        let carry = data >= 0x80;
        let result: u8 = ((data as u16 * 2) % 256) as u8;
        self.registers.update_carry_bit(carry);
        self.registers.update_zn_flags(result);
        result
    }

    fn rol(&mut self, data: u8) -> (r: u8)
        ensures
            final(self)@ == (CpuV { p: apply_rmw(RmwOp::Rol, old(self)@.p, data).0, ..old(self)@ }),
            r == apply_rmw(RmwOp::Rol, old(self)@.p, data).1,
    {
        let carry = data >= 0x80;
        let cin: u8 = if self.registers.get_carry_bit() {
            1
        } else {
            0
        };
        let result: u8 = ((data as u16 * 2) % 256) as u8 + cin;
        self.registers.update_zn_flags(result);
        self.registers.update_carry_bit(carry);
        result
    }

    fn lsr(&mut self, data: u8) -> (r: u8)
        ensures
            final(self)@ == (CpuV { p: apply_rmw(RmwOp::Lsr, old(self)@.p, data).0, ..old(self)@ }),
            r == apply_rmw(RmwOp::Lsr, old(self)@.p, data).1,
    {
        let carry = data % 2 == 1;
        let result = data / 2;
        self.registers.update_zn_flags(result);
        self.registers.update_carry_bit(carry);
        result
    }

    fn ror(&mut self, data: u8) -> (r: u8)
        ensures
            final(self)@ == (CpuV { p: apply_rmw(RmwOp::Ror, old(self)@.p, data).0, ..old(self)@ }),
            r == apply_rmw(RmwOp::Ror, old(self)@.p, data).1,
    {
        let carry = data % 2 == 1;
        let cin: u8 = if self.registers.get_carry_bit() {
            0x80
        } else {
            0
        };
        let result = data / 2 + cin;
        self.registers.update_zn_flags(result);
        self.registers.update_carry_bit(carry);
        result
    }

    fn cmp(&mut self, data: u8)
        ensures
            final(self)@ == (CpuV {
                p: apply_compare(old(self)@, old(self)@.a, data),
                ..old(self)@
            }),
    {
        let reg = self.registers.a;
        let result: u8 = if reg >= data {
            reg - data
        } else {
            (reg as u16 + 256 - data as u16) as u8
        };
        self.registers.update_carry_bit(reg >= data);
        self.registers.update_zn_flags(result);
    }

    fn cpx(&mut self, data: u8)
        ensures
            final(self)@ == (CpuV {
                p: apply_compare(old(self)@, old(self)@.x, data),
                ..old(self)@
            }),
    {
        let reg = self.registers.x;
        let result: u8 = if reg >= data {
            reg - data
        } else {
            (reg as u16 + 256 - data as u16) as u8
        };
        self.registers.update_carry_bit(reg >= data);
        self.registers.update_zn_flags(result);
    }

    fn cpy(&mut self, data: u8)
        ensures
            final(self)@ == (CpuV {
                p: apply_compare(old(self)@, old(self)@.y, data),
                ..old(self)@
            }),
    {
        let reg = self.registers.y;
        let result: u8 = if reg >= data {
            reg - data
        } else {
            (reg as u16 + 256 - data as u16) as u8
        };
        self.registers.update_carry_bit(reg >= data);
        self.registers.update_zn_flags(result);
    }

    fn bit(&mut self, data: u8)
        ensures
            final(self)@ == apply_bit(old(self)@, data),
    {
        let a = self.registers.a;
        self.registers.update_zero_bit(a & data == 0);
        self.registers.update_negative_bit(data & 0x80 != 0);
        self.registers.update_overflow_bit(data & 0x40 != 0);
    }

    /// Consumes the relative offset; if `cond` holds, branches to
    /// PC + offset, paying one cycle plus one more on a page cross.
    fn branch_on_condition(&mut self, cond: bool)
        requires
            old(self)@.wf(),
            old(self)@.cycle + 3 <= u64::MAX,
        ensures
            final(self)@ == branch_step(old(self)@, cond),
    {
        let offset = self.next();
        if cond {
            self.clock_cycle();

            let old_pc = self.registers.pc;
            let target = add16(old_pc, ext16(offset));

            if old_pc / 256 != target / 256 {
                self.clock_cycle();
            }

            self.registers.pc = target;
        }
    }

    /// Pushes one byte at $0100+S, then decrements S.
    fn push_stack(&mut self, data: u8)
        requires
            old(self)@.wf(),
            old(self)@.cycle + 1 <= u64::MAX,
        ensures
            final(self)@ == push_spec(old(self)@, data),
    {
        let sp = self.registers.s;
        self.write_memory(0x100 + sp as u16, data);
        self.registers.s = dec8(sp);
    }

    /// Increments S, then pulls the byte at $0100+S.
    fn pull_stack(&mut self) -> (r: u8)
        requires
            old(self)@.wf(),
            old(self)@.cycle + 1 <= u64::MAX,
        ensures
            final(self)@ == pull_spec(old(self)@).0,
            r == pull_spec(old(self)@).1,
    {
        let sp = inc8(self.registers.s);
        self.registers.s = sp;
        self.read_memory(0x100 + sp as u16)
    }
}

impl CPU {
    fn adc_immediate(&mut self)
        requires
            old(self)@.wf(),
            old(self)@.cycle + 7 <= u64::MAX,
        ensures
            final(self)@ == read_op_step(old(self)@, Mode::Immediate, ReadOp::Adc),
    {
        let data = self.next();
        self.adc(data);
    }

    fn adc_zeropage(&mut self)
        requires
            old(self)@.wf(),
            old(self)@.cycle + 7 <= u64::MAX,
        ensures
            final(self)@ == read_op_step(old(self)@, Mode::ZeroPage, ReadOp::Adc),
    {
        let data = self.read_zeropage();
        self.adc(data);
    }

    fn adc_zeropage_x(&mut self)
        requires
            old(self)@.wf(),
            old(self)@.cycle + 7 <= u64::MAX,
        ensures
            final(self)@ == read_op_step(old(self)@, Mode::ZeroPageX, ReadOp::Adc),
    {
        let data = self.read_zeropage_x();
        self.adc(data);
    }

    fn adc_absolute(&mut self)
        requires
            old(self)@.wf(),
            old(self)@.cycle + 7 <= u64::MAX,
        ensures
            final(self)@ == read_op_step(old(self)@, Mode::Absolute, ReadOp::Adc),
    {
        let data = self.read_absolute();
        self.adc(data);
    }

    fn adc_absolute_x(&mut self)
        requires
            old(self)@.wf(),
            old(self)@.cycle + 7 <= u64::MAX,
        ensures
            final(self)@ == read_op_step(old(self)@, Mode::AbsoluteX, ReadOp::Adc),
    {
        let data = self.read_absolute_x();
        self.adc(data);
    }

    fn adc_absolute_y(&mut self)
        requires
            old(self)@.wf(),
            old(self)@.cycle + 7 <= u64::MAX,
        ensures
            final(self)@ == read_op_step(old(self)@, Mode::AbsoluteY, ReadOp::Adc),
    {
        let data = self.read_absolute_y();
        self.adc(data);
    }

    fn adc_preindexed_indirect_zeropage_x(&mut self)
        requires
            old(self)@.wf(),
            old(self)@.cycle + 7 <= u64::MAX,
        ensures
            final(self)@ == read_op_step(old(self)@, Mode::IndirectX, ReadOp::Adc),
    {
        let data = self.read_preindexed_indirect_zeropage_x();
        self.adc(data);
    }

    fn adc_postindexed_indirect_zeropage_y(&mut self)
        requires
            old(self)@.wf(),
            old(self)@.cycle + 7 <= u64::MAX,
        ensures
            final(self)@ == read_op_step(old(self)@, Mode::IndirectY, ReadOp::Adc),
    {
        let data = self.read_postindexed_indirect_zeropage_y();
        self.adc(data);
    }

    fn sbc_immediate(&mut self)
        requires
            old(self)@.wf(),
            old(self)@.cycle + 7 <= u64::MAX,
        ensures
            final(self)@ == read_op_step(old(self)@, Mode::Immediate, ReadOp::Sbc),
    {
        let data = self.next();
        self.sbc(data);
    }

    fn sbc_zeropage(&mut self)
        requires
            old(self)@.wf(),
            old(self)@.cycle + 7 <= u64::MAX,
        ensures
            final(self)@ == read_op_step(old(self)@, Mode::ZeroPage, ReadOp::Sbc),
    {
        let data = self.read_zeropage();
        self.sbc(data);
    }

    fn sbc_zeropage_x(&mut self)
        requires
            old(self)@.wf(),
            old(self)@.cycle + 7 <= u64::MAX,
        ensures
            final(self)@ == read_op_step(old(self)@, Mode::ZeroPageX, ReadOp::Sbc),
    {
        let data = self.read_zeropage_x();
        self.sbc(data);
    }

    fn sbc_absolute(&mut self)
        requires
            old(self)@.wf(),
            old(self)@.cycle + 7 <= u64::MAX,
        ensures
            final(self)@ == read_op_step(old(self)@, Mode::Absolute, ReadOp::Sbc),
    {
        let data = self.read_absolute();
        self.sbc(data);
    }

    fn sbc_absolute_x(&mut self)
        requires
            old(self)@.wf(),
            old(self)@.cycle + 7 <= u64::MAX,
        ensures
            final(self)@ == read_op_step(old(self)@, Mode::AbsoluteX, ReadOp::Sbc),
    {
        let data = self.read_absolute_x();
        self.sbc(data);
    }

    fn sbc_absolute_y(&mut self)
        requires
            old(self)@.wf(),
            old(self)@.cycle + 7 <= u64::MAX,
        ensures
            final(self)@ == read_op_step(old(self)@, Mode::AbsoluteY, ReadOp::Sbc),
    {
        let data = self.read_absolute_y();
        self.sbc(data);
    }

    fn sbc_preindexed_indirect_zeropage_x(&mut self)
        requires
            old(self)@.wf(),
            old(self)@.cycle + 7 <= u64::MAX,
        ensures
            final(self)@ == read_op_step(old(self)@, Mode::IndirectX, ReadOp::Sbc),
    {
        let data = self.read_preindexed_indirect_zeropage_x();
        self.sbc(data);
    }

    fn sbc_postindexed_indirect_zeropage_y(&mut self)
        requires
            old(self)@.wf(),
            old(self)@.cycle + 7 <= u64::MAX,
        ensures
            final(self)@ == read_op_step(old(self)@, Mode::IndirectY, ReadOp::Sbc),
    {
        let data = self.read_postindexed_indirect_zeropage_y();
        self.sbc(data);
    }

    fn and_immediate(&mut self)
        requires
            old(self)@.wf(),
            old(self)@.cycle + 7 <= u64::MAX,
        ensures
            final(self)@ == read_op_step(old(self)@, Mode::Immediate, ReadOp::And),
    {
        let data = self.next();
        self.and(data);
    }

    fn and_zeropage(&mut self)
        requires
            old(self)@.wf(),
            old(self)@.cycle + 7 <= u64::MAX,
        ensures
            final(self)@ == read_op_step(old(self)@, Mode::ZeroPage, ReadOp::And),
    {
        let data = self.read_zeropage();
        self.and(data);
    }

    fn and_zeropage_x(&mut self)
        requires
            old(self)@.wf(),
            old(self)@.cycle + 7 <= u64::MAX,
        ensures
            final(self)@ == read_op_step(old(self)@, Mode::ZeroPageX, ReadOp::And),
    {
        let data = self.read_zeropage_x();
        self.and(data);
    }

    fn and_absolute(&mut self)
        requires
            old(self)@.wf(),
            old(self)@.cycle + 7 <= u64::MAX,
        ensures
            final(self)@ == read_op_step(old(self)@, Mode::Absolute, ReadOp::And),
    {
        let data = self.read_absolute();
        self.and(data);
    }

    fn and_absolute_x(&mut self)
        requires
            old(self)@.wf(),
            old(self)@.cycle + 7 <= u64::MAX,
        ensures
            final(self)@ == read_op_step(old(self)@, Mode::AbsoluteX, ReadOp::And),
    {
        let data = self.read_absolute_x();
        self.and(data);
    }

    fn and_absolute_y(&mut self)
        requires
            old(self)@.wf(),
            old(self)@.cycle + 7 <= u64::MAX,
        ensures
            final(self)@ == read_op_step(old(self)@, Mode::AbsoluteY, ReadOp::And),
    {
        let data = self.read_absolute_y();
        self.and(data);
    }

    fn and_preindexed_indirect_zeropage_x(&mut self)
        requires
            old(self)@.wf(),
            old(self)@.cycle + 7 <= u64::MAX,
        ensures
            final(self)@ == read_op_step(old(self)@, Mode::IndirectX, ReadOp::And),
    {
        let data = self.read_preindexed_indirect_zeropage_x();
        self.and(data);
    }

    fn and_postindexed_indirect_zeropage_y(&mut self)
        requires
            old(self)@.wf(),
            old(self)@.cycle + 7 <= u64::MAX,
        ensures
            final(self)@ == read_op_step(old(self)@, Mode::IndirectY, ReadOp::And),
    {
        let data = self.read_postindexed_indirect_zeropage_y();
        self.and(data);
    }

    fn ora_immediate(&mut self)
        requires
            old(self)@.wf(),
            old(self)@.cycle + 7 <= u64::MAX,
        ensures
            final(self)@ == read_op_step(old(self)@, Mode::Immediate, ReadOp::Ora),
    {
        let data = self.next();
        self.ora(data);
    }

    fn ora_zeropage(&mut self)
        requires
            old(self)@.wf(),
            old(self)@.cycle + 7 <= u64::MAX,
        ensures
            final(self)@ == read_op_step(old(self)@, Mode::ZeroPage, ReadOp::Ora),
    {
        let data = self.read_zeropage();
        self.ora(data);
    }

    fn ora_zeropage_x(&mut self)
        requires
            old(self)@.wf(),
            old(self)@.cycle + 7 <= u64::MAX,
        ensures
            final(self)@ == read_op_step(old(self)@, Mode::ZeroPageX, ReadOp::Ora),
    {
        let data = self.read_zeropage_x();
        self.ora(data);
    }

    fn ora_absolute(&mut self)
        requires
            old(self)@.wf(),
            old(self)@.cycle + 7 <= u64::MAX,
        ensures
            final(self)@ == read_op_step(old(self)@, Mode::Absolute, ReadOp::Ora),
    {
        let data = self.read_absolute();
        self.ora(data);
    }

    fn ora_absolute_x(&mut self)
        requires
            old(self)@.wf(),
            old(self)@.cycle + 7 <= u64::MAX,
        ensures
            final(self)@ == read_op_step(old(self)@, Mode::AbsoluteX, ReadOp::Ora),
    {
        let data = self.read_absolute_x();
        self.ora(data);
    }

    fn ora_absolute_y(&mut self)
        requires
            old(self)@.wf(),
            old(self)@.cycle + 7 <= u64::MAX,
        ensures
            final(self)@ == read_op_step(old(self)@, Mode::AbsoluteY, ReadOp::Ora),
    {
        let data = self.read_absolute_y();
        self.ora(data);
    }

    fn ora_preindexed_indirect_zeropage_x(&mut self)
        requires
            old(self)@.wf(),
            old(self)@.cycle + 7 <= u64::MAX,
        ensures
            final(self)@ == read_op_step(old(self)@, Mode::IndirectX, ReadOp::Ora),
    {
        let data = self.read_preindexed_indirect_zeropage_x();
        self.ora(data);
    }

    fn ora_postindexed_indirect_zeropage_y(&mut self)
        requires
            old(self)@.wf(),
            old(self)@.cycle + 7 <= u64::MAX,
        ensures
            final(self)@ == read_op_step(old(self)@, Mode::IndirectY, ReadOp::Ora),
    {
        let data = self.read_postindexed_indirect_zeropage_y();
        self.ora(data);
    }

    fn eor_immediate(&mut self)
        requires
            old(self)@.wf(),
            old(self)@.cycle + 7 <= u64::MAX,
        ensures
            final(self)@ == read_op_step(old(self)@, Mode::Immediate, ReadOp::Eor),
    {
        let data = self.next();
        self.eor(data);
    }

    fn eor_zeropage(&mut self)
        requires
            old(self)@.wf(),
            old(self)@.cycle + 7 <= u64::MAX,
        ensures
            final(self)@ == read_op_step(old(self)@, Mode::ZeroPage, ReadOp::Eor),
    {
        let data = self.read_zeropage();
        self.eor(data);
    }

    fn eor_zeropage_x(&mut self)
        requires
            old(self)@.wf(),
            old(self)@.cycle + 7 <= u64::MAX,
        ensures
            final(self)@ == read_op_step(old(self)@, Mode::ZeroPageX, ReadOp::Eor),
    {
        let data = self.read_zeropage_x();
        self.eor(data);
    }

    fn eor_absolute(&mut self)
        requires
            old(self)@.wf(),
            old(self)@.cycle + 7 <= u64::MAX,
        ensures
            final(self)@ == read_op_step(old(self)@, Mode::Absolute, ReadOp::Eor),
    {
        let data = self.read_absolute();
        self.eor(data);
    }

    fn eor_absolute_x(&mut self)
        requires
            old(self)@.wf(),
            old(self)@.cycle + 7 <= u64::MAX,
        ensures
            final(self)@ == read_op_step(old(self)@, Mode::AbsoluteX, ReadOp::Eor),
    {
        let data = self.read_absolute_x();
        self.eor(data);
    }

    fn eor_absolute_y(&mut self)
        requires
            old(self)@.wf(),
            old(self)@.cycle + 7 <= u64::MAX,
        ensures
            final(self)@ == read_op_step(old(self)@, Mode::AbsoluteY, ReadOp::Eor),
    {
        let data = self.read_absolute_y();
        self.eor(data);
    }

    fn eor_preindexed_indirect_zeropage_x(&mut self)
        requires
            old(self)@.wf(),
            old(self)@.cycle + 7 <= u64::MAX,
        ensures
            final(self)@ == read_op_step(old(self)@, Mode::IndirectX, ReadOp::Eor),
    {
        let data = self.read_preindexed_indirect_zeropage_x();
        self.eor(data);
    }

    fn eor_postindexed_indirect_zeropage_y(&mut self)
        requires
            old(self)@.wf(),
            old(self)@.cycle + 7 <= u64::MAX,
        ensures
            final(self)@ == read_op_step(old(self)@, Mode::IndirectY, ReadOp::Eor),
    {
        let data = self.read_postindexed_indirect_zeropage_y();
        self.eor(data);
    }

    fn lda_immediate(&mut self)
        requires
            old(self)@.wf(),
            old(self)@.cycle + 7 <= u64::MAX,
        ensures
            final(self)@ == read_op_step(old(self)@, Mode::Immediate, ReadOp::Lda),
    {
        let data = self.next();
        self.registers.update_a(data);
    }

    fn lda_zeropage(&mut self)
        requires
            old(self)@.wf(),
            old(self)@.cycle + 7 <= u64::MAX,
        ensures
            final(self)@ == read_op_step(old(self)@, Mode::ZeroPage, ReadOp::Lda),
    {
        let data = self.read_zeropage();
        self.registers.update_a(data);
    }

    fn lda_zeropage_x(&mut self)
        requires
            old(self)@.wf(),
            old(self)@.cycle + 7 <= u64::MAX,
        ensures
            final(self)@ == read_op_step(old(self)@, Mode::ZeroPageX, ReadOp::Lda),
    {
        let data = self.read_zeropage_x();
        self.registers.update_a(data);
    }

    fn lda_absolute(&mut self)
        requires
            old(self)@.wf(),
            old(self)@.cycle + 7 <= u64::MAX,
        ensures
            final(self)@ == read_op_step(old(self)@, Mode::Absolute, ReadOp::Lda),
    {
        let data = self.read_absolute();
        self.registers.update_a(data);
    }

    fn lda_absolute_x(&mut self)
        requires
            old(self)@.wf(),
            old(self)@.cycle + 7 <= u64::MAX,
        ensures
            final(self)@ == read_op_step(old(self)@, Mode::AbsoluteX, ReadOp::Lda),
    {
        let data = self.read_absolute_x();
        self.registers.update_a(data);
    }

    fn lda_absolute_y(&mut self)
        requires
            old(self)@.wf(),
            old(self)@.cycle + 7 <= u64::MAX,
        ensures
            final(self)@ == read_op_step(old(self)@, Mode::AbsoluteY, ReadOp::Lda),
    {
        let data = self.read_absolute_y();
        self.registers.update_a(data);
    }

    fn lda_preindexed_indirect_zeropage_x(&mut self)
        requires
            old(self)@.wf(),
            old(self)@.cycle + 7 <= u64::MAX,
        ensures
            final(self)@ == read_op_step(old(self)@, Mode::IndirectX, ReadOp::Lda),
    {
        let data = self.read_preindexed_indirect_zeropage_x();
        self.registers.update_a(data);
    }

    fn lda_postindexed_indirect_zeropage_y(&mut self)
        requires
            old(self)@.wf(),
            old(self)@.cycle + 7 <= u64::MAX,
        ensures
            final(self)@ == read_op_step(old(self)@, Mode::IndirectY, ReadOp::Lda),
    {
        let data = self.read_postindexed_indirect_zeropage_y();
        self.registers.update_a(data);
    }

    fn ldx_immediate(&mut self)
        requires
            old(self)@.wf(),
            old(self)@.cycle + 7 <= u64::MAX,
        ensures
            final(self)@ == read_op_step(old(self)@, Mode::Immediate, ReadOp::Ldx),
    {
        let data = self.next();
        self.registers.update_x(data);
    }

    fn ldx_zeropage(&mut self)
        requires
            old(self)@.wf(),
            old(self)@.cycle + 7 <= u64::MAX,
        ensures
            final(self)@ == read_op_step(old(self)@, Mode::ZeroPage, ReadOp::Ldx),
    {
        let data = self.read_zeropage();
        self.registers.update_x(data);
    }

    fn ldx_zeropage_y(&mut self)
        requires
            old(self)@.wf(),
            old(self)@.cycle + 7 <= u64::MAX,
        ensures
            final(self)@ == read_op_step(old(self)@, Mode::ZeroPageY, ReadOp::Ldx),
    {
        let data = self.read_zeropage_y();
        self.registers.update_x(data);
    }

    fn ldx_absolute(&mut self)
        requires
            old(self)@.wf(),
            old(self)@.cycle + 7 <= u64::MAX,
        ensures
            final(self)@ == read_op_step(old(self)@, Mode::Absolute, ReadOp::Ldx),
    {
        let data = self.read_absolute();
        self.registers.update_x(data);
    }

    fn ldx_absolute_y(&mut self)
        requires
            old(self)@.wf(),
            old(self)@.cycle + 7 <= u64::MAX,
        ensures
            final(self)@ == read_op_step(old(self)@, Mode::AbsoluteY, ReadOp::Ldx),
    {
        let data = self.read_absolute_y();
        self.registers.update_x(data);
    }

    fn ldy_immediate(&mut self)
        requires
            old(self)@.wf(),
            old(self)@.cycle + 7 <= u64::MAX,
        ensures
            final(self)@ == read_op_step(old(self)@, Mode::Immediate, ReadOp::Ldy),
    {
        let data = self.next();
        self.registers.update_y(data);
    }

    fn ldy_zeropage(&mut self)
        requires
            old(self)@.wf(),
            old(self)@.cycle + 7 <= u64::MAX,
        ensures
            final(self)@ == read_op_step(old(self)@, Mode::ZeroPage, ReadOp::Ldy),
    {
        let data = self.read_zeropage();
        self.registers.update_y(data);
    }

    fn ldy_zeropage_x(&mut self)
        requires
            old(self)@.wf(),
            old(self)@.cycle + 7 <= u64::MAX,
        ensures
            final(self)@ == read_op_step(old(self)@, Mode::ZeroPageX, ReadOp::Ldy),
    {
        let data = self.read_zeropage_x();
        self.registers.update_y(data);
    }

    fn ldy_absolute(&mut self)
        requires
            old(self)@.wf(),
            old(self)@.cycle + 7 <= u64::MAX,
        ensures
            final(self)@ == read_op_step(old(self)@, Mode::Absolute, ReadOp::Ldy),
    {
        let data = self.read_absolute();
        self.registers.update_y(data);
    }

    fn ldy_absolute_x(&mut self)
        requires
            old(self)@.wf(),
            old(self)@.cycle + 7 <= u64::MAX,
        ensures
            final(self)@ == read_op_step(old(self)@, Mode::AbsoluteX, ReadOp::Ldy),
    {
        let data = self.read_absolute_x();
        self.registers.update_y(data);
    }

    fn cmp_immediate(&mut self)
        requires
            old(self)@.wf(),
            old(self)@.cycle + 7 <= u64::MAX,
        ensures
            final(self)@ == read_op_step(old(self)@, Mode::Immediate, ReadOp::Cmp),
    {
        let data = self.next();
        self.cmp(data);
    }

    fn cmp_zeropage(&mut self)
        requires
            old(self)@.wf(),
            old(self)@.cycle + 7 <= u64::MAX,
        ensures
            final(self)@ == read_op_step(old(self)@, Mode::ZeroPage, ReadOp::Cmp),
    {
        let data = self.read_zeropage();
        self.cmp(data);
    }

    fn cmp_zeropage_x(&mut self)
        requires
            old(self)@.wf(),
            old(self)@.cycle + 7 <= u64::MAX,
        ensures
            final(self)@ == read_op_step(old(self)@, Mode::ZeroPageX, ReadOp::Cmp),
    {
        let data = self.read_zeropage_x();
        self.cmp(data);
    }

    fn cmp_absolute(&mut self)
        requires
            old(self)@.wf(),
            old(self)@.cycle + 7 <= u64::MAX,
        ensures
            final(self)@ == read_op_step(old(self)@, Mode::Absolute, ReadOp::Cmp),
    {
        let data = self.read_absolute();
        self.cmp(data);
    }

    fn cmp_absolute_x(&mut self)
        requires
            old(self)@.wf(),
            old(self)@.cycle + 7 <= u64::MAX,
        ensures
            final(self)@ == read_op_step(old(self)@, Mode::AbsoluteX, ReadOp::Cmp),
    {
        let data = self.read_absolute_x();
        self.cmp(data);
    }

    fn cmp_absolute_y(&mut self)
        requires
            old(self)@.wf(),
            old(self)@.cycle + 7 <= u64::MAX,
        ensures
            final(self)@ == read_op_step(old(self)@, Mode::AbsoluteY, ReadOp::Cmp),
    {
        let data = self.read_absolute_y();
        self.cmp(data);
    }

    fn cmp_preindexed_indirect_zeropage_x(&mut self)
        requires
            old(self)@.wf(),
            old(self)@.cycle + 7 <= u64::MAX,
        ensures
            final(self)@ == read_op_step(old(self)@, Mode::IndirectX, ReadOp::Cmp),
    {
        let data = self.read_preindexed_indirect_zeropage_x();
        self.cmp(data);
    }

    fn cmp_postindexed_indirect_zeropage_y(&mut self)
        requires
            old(self)@.wf(),
            old(self)@.cycle + 7 <= u64::MAX,
        ensures
            final(self)@ == read_op_step(old(self)@, Mode::IndirectY, ReadOp::Cmp),
    {
        let data = self.read_postindexed_indirect_zeropage_y();
        self.cmp(data);
    }

    fn cpx_immediate(&mut self)
        requires
            old(self)@.wf(),
            old(self)@.cycle + 7 <= u64::MAX,
        ensures
            final(self)@ == read_op_step(old(self)@, Mode::Immediate, ReadOp::Cpx),
    {
        let data = self.next();
        self.cpx(data);
    }

    fn cpx_zeropage(&mut self)
        requires
            old(self)@.wf(),
            old(self)@.cycle + 7 <= u64::MAX,
        ensures
            final(self)@ == read_op_step(old(self)@, Mode::ZeroPage, ReadOp::Cpx),
    {
        let data = self.read_zeropage();
        self.cpx(data);
    }

    fn cpx_absolute(&mut self)
        requires
            old(self)@.wf(),
            old(self)@.cycle + 7 <= u64::MAX,
        ensures
            final(self)@ == read_op_step(old(self)@, Mode::Absolute, ReadOp::Cpx),
    {
        let data = self.read_absolute();
        self.cpx(data);
    }

    fn cpy_immediate(&mut self)
        requires
            old(self)@.wf(),
            old(self)@.cycle + 7 <= u64::MAX,
        ensures
            final(self)@ == read_op_step(old(self)@, Mode::Immediate, ReadOp::Cpy),
    {
        let data = self.next();
        self.cpy(data);
    }

    fn cpy_zeropage(&mut self)
        requires
            old(self)@.wf(),
            old(self)@.cycle + 7 <= u64::MAX,
        ensures
            final(self)@ == read_op_step(old(self)@, Mode::ZeroPage, ReadOp::Cpy),
    {
        let data = self.read_zeropage();
        self.cpy(data);
    }

    fn cpy_absolute(&mut self)
        requires
            old(self)@.wf(),
            old(self)@.cycle + 7 <= u64::MAX,
        ensures
            final(self)@ == read_op_step(old(self)@, Mode::Absolute, ReadOp::Cpy),
    {
        let data = self.read_absolute();
        self.cpy(data);
    }

    fn bit_zeropage(&mut self)
        requires
            old(self)@.wf(),
            old(self)@.cycle + 7 <= u64::MAX,
        ensures
            final(self)@ == read_op_step(old(self)@, Mode::ZeroPage, ReadOp::Bit),
    {
        let data = self.read_zeropage();
        self.bit(data);
    }

    fn bit_absolute(&mut self)
        requires
            old(self)@.wf(),
            old(self)@.cycle + 7 <= u64::MAX,
        ensures
            final(self)@ == read_op_step(old(self)@, Mode::Absolute, ReadOp::Bit),
    {
        let data = self.read_absolute();
        self.bit(data);
    }

    fn sta_zeropage(&mut self)
        requires
            old(self)@.wf(),
            old(self)@.cycle + 7 <= u64::MAX,
        ensures
            final(self)@ == store_op_step(old(self)@, Mode::ZeroPage, RegSel::A),
    {
        let v = self.registers.a;
        self.write_zeropage(v);
    }

    fn sta_zeropage_x(&mut self)
        requires
            old(self)@.wf(),
            old(self)@.cycle + 7 <= u64::MAX,
        ensures
            final(self)@ == store_op_step(old(self)@, Mode::ZeroPageX, RegSel::A),
    {
        let v = self.registers.a;
        self.write_zeropage_x(v);
    }

    fn sta_absolute(&mut self)
        requires
            old(self)@.wf(),
            old(self)@.cycle + 7 <= u64::MAX,
        ensures
            final(self)@ == store_op_step(old(self)@, Mode::Absolute, RegSel::A),
    {
        let v = self.registers.a;
        self.write_absolute(v);
    }

    fn sta_absolute_x(&mut self)
        requires
            old(self)@.wf(),
            old(self)@.cycle + 7 <= u64::MAX,
        ensures
            final(self)@ == store_op_step(old(self)@, Mode::AbsoluteX, RegSel::A),
    {
        let addr = self.addr_absolute_x(Access::Write);
        let v = self.registers.a;
        self.write_memory(addr, v);
    }

    fn sta_absolute_y(&mut self)
        requires
            old(self)@.wf(),
            old(self)@.cycle + 7 <= u64::MAX,
        ensures
            final(self)@ == store_op_step(old(self)@, Mode::AbsoluteY, RegSel::A),
    {
        let addr = self.addr_absolute_y(Access::Write);
        let v = self.registers.a;
        self.write_memory(addr, v);
    }

    fn sta_preindexed_indirect_zeropage_x(&mut self)
        requires
            old(self)@.wf(),
            old(self)@.cycle + 7 <= u64::MAX,
        ensures
            final(self)@ == store_op_step(old(self)@, Mode::IndirectX, RegSel::A),
    {
        let addr = self.addr_preindexed_indirect_zeropage_x();
        let v = self.registers.a;
        self.write_memory(addr, v);
    }

    fn sta_postindexed_indirect_zeropage_y(&mut self)
        requires
            old(self)@.wf(),
            old(self)@.cycle + 7 <= u64::MAX,
        ensures
            final(self)@ == store_op_step(old(self)@, Mode::IndirectY, RegSel::A),
    {
        let addr = self.addr_postindexed_indirect_zeropage_y(Access::Write);
        let v = self.registers.a;
        self.write_memory(addr, v);
    }

    fn stx_zeropage(&mut self)
        requires
            old(self)@.wf(),
            old(self)@.cycle + 7 <= u64::MAX,
        ensures
            final(self)@ == store_op_step(old(self)@, Mode::ZeroPage, RegSel::X),
    {
        let v = self.registers.x;
        self.write_zeropage(v);
    }

    fn stx_zeropage_y(&mut self)
        requires
            old(self)@.wf(),
            old(self)@.cycle + 7 <= u64::MAX,
        ensures
            final(self)@ == store_op_step(old(self)@, Mode::ZeroPageY, RegSel::X),
    {
        let v = self.registers.x;
        self.write_zeropage_y(v);
    }

    fn stx_absolute(&mut self)
        requires
            old(self)@.wf(),
            old(self)@.cycle + 7 <= u64::MAX,
        ensures
            final(self)@ == store_op_step(old(self)@, Mode::Absolute, RegSel::X),
    {
        let v = self.registers.x;
        self.write_absolute(v);
    }

    fn sty_zeropage(&mut self)
        requires
            old(self)@.wf(),
            old(self)@.cycle + 7 <= u64::MAX,
        ensures
            final(self)@ == store_op_step(old(self)@, Mode::ZeroPage, RegSel::Y),
    {
        let v = self.registers.y;
        self.write_zeropage(v);
    }

    fn sty_zeropage_x(&mut self)
        requires
            old(self)@.wf(),
            old(self)@.cycle + 7 <= u64::MAX,
        ensures
            final(self)@ == store_op_step(old(self)@, Mode::ZeroPageX, RegSel::Y),
    {
        let v = self.registers.y;
        self.write_zeropage_x(v);
    }

    fn sty_absolute(&mut self)
        requires
            old(self)@.wf(),
            old(self)@.cycle + 7 <= u64::MAX,
        ensures
            final(self)@ == store_op_step(old(self)@, Mode::Absolute, RegSel::Y),
    {
        let v = self.registers.y;
        self.write_absolute(v);
    }

    fn asl_accumulator(&mut self)
        requires
            old(self)@.wf(),
            old(self)@.cycle + 7 <= u64::MAX,
        ensures
            final(self)@ == acc_op_step(old(self)@, RmwOp::Asl),
    {
        self.clock_cycle();
        let a = self.registers.a;
        let result = self.asl(a);
        self.registers.update_a(result);
    }

    fn asl_zeropage(&mut self)
        requires
            old(self)@.wf(),
            old(self)@.cycle + 7 <= u64::MAX,
        ensures
            final(self)@ == rmw_op_step(old(self)@, Mode::ZeroPage, RmwOp::Asl),
    {
        let addr = self.addr_zeropage();
        let data = self.read_memory(addr);
        let result = self.asl(data);
        self.clock_cycle();
        self.write_memory(addr, result);
    }

    fn asl_zeropage_x(&mut self)
        requires
            old(self)@.wf(),
            old(self)@.cycle + 7 <= u64::MAX,
        ensures
            final(self)@ == rmw_op_step(old(self)@, Mode::ZeroPageX, RmwOp::Asl),
    {
        let addr = self.addr_zeropage_x();
        let data = self.read_memory(addr);
        let result = self.asl(data);
        self.clock_cycle();
        self.write_memory(addr, result);
    }

    fn asl_absolute(&mut self)
        requires
            old(self)@.wf(),
            old(self)@.cycle + 7 <= u64::MAX,
        ensures
            final(self)@ == rmw_op_step(old(self)@, Mode::Absolute, RmwOp::Asl),
    {
        let addr = self.addr_absolute();
        let data = self.read_memory(addr);
        let result = self.asl(data);
        self.clock_cycle();
        self.write_memory(addr, result);
    }

    fn asl_absolute_x(&mut self)
        requires
            old(self)@.wf(),
            old(self)@.cycle + 7 <= u64::MAX,
        ensures
            final(self)@ == rmw_op_step(old(self)@, Mode::AbsoluteX, RmwOp::Asl),
    {
        let addr = self.addr_absolute_x(Access::ReadModify);
        let data = self.read_memory(addr);
        let result = self.asl(data);
        self.clock_cycle();
        self.write_memory(addr, result);
    }

    fn lsr_accumulator(&mut self)
        requires
            old(self)@.wf(),
            old(self)@.cycle + 7 <= u64::MAX,
        ensures
            final(self)@ == acc_op_step(old(self)@, RmwOp::Lsr),
    {
        self.clock_cycle();
        let a = self.registers.a;
        let result = self.lsr(a);
        self.registers.update_a(result);
    }

    fn lsr_zeropage(&mut self)
        requires
            old(self)@.wf(),
            old(self)@.cycle + 7 <= u64::MAX,
        ensures
            final(self)@ == rmw_op_step(old(self)@, Mode::ZeroPage, RmwOp::Lsr),
    {
        let addr = self.addr_zeropage();
        let data = self.read_memory(addr);
        let result = self.lsr(data);
        self.clock_cycle();
        self.write_memory(addr, result);
    }

    fn lsr_zeropage_x(&mut self)
        requires
            old(self)@.wf(),
            old(self)@.cycle + 7 <= u64::MAX,
        ensures
            final(self)@ == rmw_op_step(old(self)@, Mode::ZeroPageX, RmwOp::Lsr),
    {
        let addr = self.addr_zeropage_x();
        let data = self.read_memory(addr);
        let result = self.lsr(data);
        self.clock_cycle();
        self.write_memory(addr, result);
    }

    fn lsr_absolute(&mut self)
        requires
            old(self)@.wf(),
            old(self)@.cycle + 7 <= u64::MAX,
        ensures
            final(self)@ == rmw_op_step(old(self)@, Mode::Absolute, RmwOp::Lsr),
    {
        let addr = self.addr_absolute();
        let data = self.read_memory(addr);
        let result = self.lsr(data);
        self.clock_cycle();
        self.write_memory(addr, result);
    }

    fn lsr_absolute_x(&mut self)
        requires
            old(self)@.wf(),
            old(self)@.cycle + 7 <= u64::MAX,
        ensures
            final(self)@ == rmw_op_step(old(self)@, Mode::AbsoluteX, RmwOp::Lsr),
    {
        let addr = self.addr_absolute_x(Access::ReadModify);
        let data = self.read_memory(addr);
        let result = self.lsr(data);
        self.clock_cycle();
        self.write_memory(addr, result);
    }

    fn rol_accumulator(&mut self)
        requires
            old(self)@.wf(),
            old(self)@.cycle + 7 <= u64::MAX,
        ensures
            final(self)@ == acc_op_step(old(self)@, RmwOp::Rol),
    {
        self.clock_cycle();
        let a = self.registers.a;
        let result = self.rol(a);
        self.registers.update_a(result);
    }

    fn rol_zeropage(&mut self)
        requires
            old(self)@.wf(),
            old(self)@.cycle + 7 <= u64::MAX,
        ensures
            final(self)@ == rmw_op_step(old(self)@, Mode::ZeroPage, RmwOp::Rol),
    {
        let addr = self.addr_zeropage();
        let data = self.read_memory(addr);
        let result = self.rol(data);
        self.clock_cycle();
        self.write_memory(addr, result);
    }

    fn rol_zeropage_x(&mut self)
        requires
            old(self)@.wf(),
            old(self)@.cycle + 7 <= u64::MAX,
        ensures
            final(self)@ == rmw_op_step(old(self)@, Mode::ZeroPageX, RmwOp::Rol),
    {
        let addr = self.addr_zeropage_x();
        let data = self.read_memory(addr);
        let result = self.rol(data);
        self.clock_cycle();
        self.write_memory(addr, result);
    }

    fn rol_absolute(&mut self)
        requires
            old(self)@.wf(),
            old(self)@.cycle + 7 <= u64::MAX,
        ensures
            final(self)@ == rmw_op_step(old(self)@, Mode::Absolute, RmwOp::Rol),
    {
        let addr = self.addr_absolute();
        let data = self.read_memory(addr);
        let result = self.rol(data);
        self.clock_cycle();
        self.write_memory(addr, result);
    }

    fn rol_absolute_x(&mut self)
        requires
            old(self)@.wf(),
            old(self)@.cycle + 7 <= u64::MAX,
        ensures
            final(self)@ == rmw_op_step(old(self)@, Mode::AbsoluteX, RmwOp::Rol),
    {
        let addr = self.addr_absolute_x(Access::ReadModify);
        let data = self.read_memory(addr);
        let result = self.rol(data);
        self.clock_cycle();
        self.write_memory(addr, result);
    }

    fn ror_accumulator(&mut self)
        requires
            old(self)@.wf(),
            old(self)@.cycle + 7 <= u64::MAX,
        ensures
            final(self)@ == acc_op_step(old(self)@, RmwOp::Ror),
    {
        self.clock_cycle();
        let a = self.registers.a;
        let result = self.ror(a);
        self.registers.update_a(result);
    }

    fn ror_zeropage(&mut self)
        requires
            old(self)@.wf(),
            old(self)@.cycle + 7 <= u64::MAX,
        ensures
            final(self)@ == rmw_op_step(old(self)@, Mode::ZeroPage, RmwOp::Ror),
    {
        let addr = self.addr_zeropage();
        let data = self.read_memory(addr);
        let result = self.ror(data);
        self.clock_cycle();
        self.write_memory(addr, result);
    }

    fn ror_zeropage_x(&mut self)
        requires
            old(self)@.wf(),
            old(self)@.cycle + 7 <= u64::MAX,
        ensures
            final(self)@ == rmw_op_step(old(self)@, Mode::ZeroPageX, RmwOp::Ror),
    {
        let addr = self.addr_zeropage_x();
        let data = self.read_memory(addr);
        let result = self.ror(data);
        self.clock_cycle();
        self.write_memory(addr, result);
    }

    fn ror_absolute(&mut self)
        requires
            old(self)@.wf(),
            old(self)@.cycle + 7 <= u64::MAX,
        ensures
            final(self)@ == rmw_op_step(old(self)@, Mode::Absolute, RmwOp::Ror),
    {
        let addr = self.addr_absolute();
        let data = self.read_memory(addr);
        let result = self.ror(data);
        self.clock_cycle();
        self.write_memory(addr, result);
    }

    fn ror_absolute_x(&mut self)
        requires
            old(self)@.wf(),
            old(self)@.cycle + 7 <= u64::MAX,
        ensures
            final(self)@ == rmw_op_step(old(self)@, Mode::AbsoluteX, RmwOp::Ror),
    {
        let addr = self.addr_absolute_x(Access::ReadModify);
        let data = self.read_memory(addr);
        let result = self.ror(data);
        self.clock_cycle();
        self.write_memory(addr, result);
    }

    fn inc_zeropage(&mut self)
        requires
            old(self)@.wf(),
            old(self)@.cycle + 7 <= u64::MAX,
        ensures
            final(self)@ == rmw_op_step(old(self)@, Mode::ZeroPage, RmwOp::Inc),
    {
        let addr = self.addr_zeropage();
        let data = self.read_memory(addr);
        let result = self.inc(data);
        self.clock_cycle();
        self.write_memory(addr, result);
    }

    fn inc_zeropage_x(&mut self)
        requires
            old(self)@.wf(),
            old(self)@.cycle + 7 <= u64::MAX,
        ensures
            final(self)@ == rmw_op_step(old(self)@, Mode::ZeroPageX, RmwOp::Inc),
    {
        let addr = self.addr_zeropage_x();
        let data = self.read_memory(addr);
        let result = self.inc(data);
        self.clock_cycle();
        self.write_memory(addr, result);
    }

    fn inc_absolute(&mut self)
        requires
            old(self)@.wf(),
            old(self)@.cycle + 7 <= u64::MAX,
        ensures
            final(self)@ == rmw_op_step(old(self)@, Mode::Absolute, RmwOp::Inc),
    {
        let addr = self.addr_absolute();
        let data = self.read_memory(addr);
        let result = self.inc(data);
        self.clock_cycle();
        self.write_memory(addr, result);
    }

    fn inc_absolute_x(&mut self)
        requires
            old(self)@.wf(),
            old(self)@.cycle + 7 <= u64::MAX,
        ensures
            final(self)@ == rmw_op_step(old(self)@, Mode::AbsoluteX, RmwOp::Inc),
    {
        let addr = self.addr_absolute_x(Access::ReadModify);
        let data = self.read_memory(addr);
        let result = self.inc(data);
        self.clock_cycle();
        self.write_memory(addr, result);
    }

    fn dec_zeropage(&mut self)
        requires
            old(self)@.wf(),
            old(self)@.cycle + 7 <= u64::MAX,
        ensures
            final(self)@ == rmw_op_step(old(self)@, Mode::ZeroPage, RmwOp::Dec),
    {
        let addr = self.addr_zeropage();
        let data = self.read_memory(addr);
        let result = self.dec(data);
        self.clock_cycle();
        self.write_memory(addr, result);
    }

    fn dec_zeropage_x(&mut self)
        requires
            old(self)@.wf(),
            old(self)@.cycle + 7 <= u64::MAX,
        ensures
            final(self)@ == rmw_op_step(old(self)@, Mode::ZeroPageX, RmwOp::Dec),
    {
        let addr = self.addr_zeropage_x();
        let data = self.read_memory(addr);
        let result = self.dec(data);
        self.clock_cycle();
        self.write_memory(addr, result);
    }

    fn dec_absolute(&mut self)
        requires
            old(self)@.wf(),
            old(self)@.cycle + 7 <= u64::MAX,
        ensures
            final(self)@ == rmw_op_step(old(self)@, Mode::Absolute, RmwOp::Dec),
    {
        let addr = self.addr_absolute();
        let data = self.read_memory(addr);
        let result = self.dec(data);
        self.clock_cycle();
        self.write_memory(addr, result);
    }

    fn dec_absolute_x(&mut self)
        requires
            old(self)@.wf(),
            old(self)@.cycle + 7 <= u64::MAX,
        ensures
            final(self)@ == rmw_op_step(old(self)@, Mode::AbsoluteX, RmwOp::Dec),
    {
        let addr = self.addr_absolute_x(Access::ReadModify);
        let data = self.read_memory(addr);
        let result = self.dec(data);
        self.clock_cycle();
        self.write_memory(addr, result);
    }

    fn tax(&mut self)
        requires
            old(self)@.wf(),
            old(self)@.cycle + 7 <= u64::MAX,
        ensures
            final(self)@ == implied_step(old(self)@, ImpliedOp::Tax),
    {
        let v = self.registers.a;
        self.registers.update_x(v);
        self.clock_cycle();
    }

    fn tay(&mut self)
        requires
            old(self)@.wf(),
            old(self)@.cycle + 7 <= u64::MAX,
        ensures
            final(self)@ == implied_step(old(self)@, ImpliedOp::Tay),
    {
        let v = self.registers.a;
        self.registers.update_y(v);
        self.clock_cycle();
    }

    fn tsx(&mut self)
        requires
            old(self)@.wf(),
            old(self)@.cycle + 7 <= u64::MAX,
        ensures
            final(self)@ == implied_step(old(self)@, ImpliedOp::Tsx),
    {
        let v = self.registers.s;
        self.registers.update_x(v);
        self.clock_cycle();
    }

    fn txa(&mut self)
        requires
            old(self)@.wf(),
            old(self)@.cycle + 7 <= u64::MAX,
        ensures
            final(self)@ == implied_step(old(self)@, ImpliedOp::Txa),
    {
        let v = self.registers.x;
        self.registers.update_a(v);
        self.clock_cycle();
    }

    fn txs(&mut self)
        requires
            old(self)@.wf(),
            old(self)@.cycle + 7 <= u64::MAX,
        ensures
            final(self)@ == implied_step(old(self)@, ImpliedOp::Txs),
    {
        self.registers.s = self.registers.x;
        self.clock_cycle();
    }

    fn tya(&mut self)
        requires
            old(self)@.wf(),
            old(self)@.cycle + 7 <= u64::MAX,
        ensures
            final(self)@ == implied_step(old(self)@, ImpliedOp::Tya),
    {
        let v = self.registers.y;
        self.registers.update_a(v);
        self.clock_cycle();
    }

    fn clc(&mut self)
        requires
            old(self)@.wf(),
            old(self)@.cycle + 7 <= u64::MAX,
        ensures
            final(self)@ == implied_step(old(self)@, ImpliedOp::Clc),
    {
        self.registers.update_carry_bit(false);
        self.clock_cycle();
    }

    fn cld(&mut self)
        requires
            old(self)@.wf(),
            old(self)@.cycle + 7 <= u64::MAX,
        ensures
            final(self)@ == implied_step(old(self)@, ImpliedOp::Cld),
    {
        self.registers.update_decimal_bit(false);
        self.clock_cycle();
    }

    fn cli(&mut self)
        requires
            old(self)@.wf(),
            old(self)@.cycle + 7 <= u64::MAX,
        ensures
            final(self)@ == implied_step(old(self)@, ImpliedOp::Cli),
    {
        self.registers.update_interupt_bit(false);
        self.clock_cycle();
    }

    fn clv(&mut self)
        requires
            old(self)@.wf(),
            old(self)@.cycle + 7 <= u64::MAX,
        ensures
            final(self)@ == implied_step(old(self)@, ImpliedOp::Clv),
    {
        self.registers.update_overflow_bit(false);
        self.clock_cycle();
    }

    fn sec(&mut self)
        requires
            old(self)@.wf(),
            old(self)@.cycle + 7 <= u64::MAX,
        ensures
            final(self)@ == implied_step(old(self)@, ImpliedOp::Sec),
    {
        self.registers.update_carry_bit(true);
        self.clock_cycle();
    }

    fn sed(&mut self)
        requires
            old(self)@.wf(),
            old(self)@.cycle + 7 <= u64::MAX,
        ensures
            final(self)@ == implied_step(old(self)@, ImpliedOp::Sed),
    {
        self.registers.update_decimal_bit(true);
        self.clock_cycle();
    }

    fn sei(&mut self)
        requires
            old(self)@.wf(),
            old(self)@.cycle + 7 <= u64::MAX,
        ensures
            final(self)@ == implied_step(old(self)@, ImpliedOp::Sei),
    {
        self.registers.update_interupt_bit(true);
        self.clock_cycle();
    }

    fn dex(&mut self)
        requires
            old(self)@.wf(),
            old(self)@.cycle + 7 <= u64::MAX,
        ensures
            final(self)@ == implied_step(old(self)@, ImpliedOp::Dex),
    {
        let v = dec8(self.registers.x);
        self.registers.update_x(v);
        self.clock_cycle();
    }

    fn dey(&mut self)
        requires
            old(self)@.wf(),
            old(self)@.cycle + 7 <= u64::MAX,
        ensures
            final(self)@ == implied_step(old(self)@, ImpliedOp::Dey),
    {
        let v = dec8(self.registers.y);
        self.registers.update_y(v);
        self.clock_cycle();
    }

    fn inx(&mut self)
        requires
            old(self)@.wf(),
            old(self)@.cycle + 7 <= u64::MAX,
        ensures
            final(self)@ == implied_step(old(self)@, ImpliedOp::Inx),
    {
        let v = inc8(self.registers.x);
        self.registers.update_x(v);
        self.clock_cycle();
    }

    fn iny(&mut self)
        requires
            old(self)@.wf(),
            old(self)@.cycle + 7 <= u64::MAX,
        ensures
            final(self)@ == implied_step(old(self)@, ImpliedOp::Iny),
    {
        let v = inc8(self.registers.y);
        self.registers.update_y(v);
        self.clock_cycle();
    }

    fn nop(&mut self)
        requires
            old(self)@.wf(),
            old(self)@.cycle + 7 <= u64::MAX,
        ensures
            final(self)@ == implied_step(old(self)@, ImpliedOp::Nop),
    {
        self.clock_cycle();
    }

    fn bcc(&mut self)
        requires
            old(self)@.wf(),
            old(self)@.cycle + 7 <= u64::MAX,
        ensures
            final(self)@ == branch_step(old(self)@, !get_flag(old(self)@.p, FLAG_CARRY)),
    {
        let cond = !self.registers.get_carry_bit();
        self.branch_on_condition(cond);
    }

    fn bcs(&mut self)
        requires
            old(self)@.wf(),
            old(self)@.cycle + 7 <= u64::MAX,
        ensures
            final(self)@ == branch_step(old(self)@, get_flag(old(self)@.p, FLAG_CARRY)),
    {
        let cond = self.registers.get_carry_bit();
        self.branch_on_condition(cond);
    }

    fn beq(&mut self)
        requires
            old(self)@.wf(),
            old(self)@.cycle + 7 <= u64::MAX,
        ensures
            final(self)@ == branch_step(old(self)@, get_flag(old(self)@.p, FLAG_ZERO)),
    {
        let cond = self.registers.get_zero_bit();
        self.branch_on_condition(cond);
    }

    fn bne(&mut self)
        requires
            old(self)@.wf(),
            old(self)@.cycle + 7 <= u64::MAX,
        ensures
            final(self)@ == branch_step(old(self)@, !get_flag(old(self)@.p, FLAG_ZERO)),
    {
        let cond = !self.registers.get_zero_bit();
        self.branch_on_condition(cond);
    }

    fn bmi(&mut self)
        requires
            old(self)@.wf(),
            old(self)@.cycle + 7 <= u64::MAX,
        ensures
            final(self)@ == branch_step(old(self)@, get_flag(old(self)@.p, FLAG_NEGATIVE)),
    {
        let cond = self.registers.get_negative_bit();
        self.branch_on_condition(cond);
    }

    fn bpl(&mut self)
        requires
            old(self)@.wf(),
            old(self)@.cycle + 7 <= u64::MAX,
        ensures
            final(self)@ == branch_step(old(self)@, !get_flag(old(self)@.p, FLAG_NEGATIVE)),
    {
        let cond = !self.registers.get_negative_bit();
        self.branch_on_condition(cond);
    }

    fn bvc(&mut self)
        requires
            old(self)@.wf(),
            old(self)@.cycle + 7 <= u64::MAX,
        ensures
            final(self)@ == branch_step(old(self)@, !get_flag(old(self)@.p, FLAG_OVERFLOW)),
    {
        let cond = !self.registers.get_overflow_bit();
        self.branch_on_condition(cond);
    }

    fn bvs(&mut self)
        requires
            old(self)@.wf(),
            old(self)@.cycle + 7 <= u64::MAX,
        ensures
            final(self)@ == branch_step(old(self)@, get_flag(old(self)@.p, FLAG_OVERFLOW)),
    {
        let cond = self.registers.get_overflow_bit();
        self.branch_on_condition(cond);
    }


    fn jmp_absolute(&mut self)
        requires
            old(self)@.wf(),
            old(self)@.cycle + 7 <= u64::MAX,
        ensures
            final(self)@ == jmp_abs_step(old(self)@),
    {
        let lo = self.next();
        let hi = self.next();
        let target = mk16(lo, hi);
        self.registers.pc = target;
    }

    fn jmp_indirect(&mut self)
        requires
            old(self)@.wf(),
            old(self)@.cycle + 7 <= u64::MAX,
        ensures
            final(self)@ == jmp_ind_step(old(self)@),
    {
        let lo = self.next();
        let hi = self.next();
        let ptr = mk16(lo, hi);
        let data_lo = self.read_memory(ptr);
        let data_hi = self.read_memory(same_page_inc(ptr));
        self.registers.pc = mk16(data_lo, data_hi);
    }

    fn jsr(&mut self)
        requires
            old(self)@.wf(),
            old(self)@.cycle + 7 <= u64::MAX,
        ensures
            final(self)@ == jsr_step(old(self)@),
    {
        let target_lo = self.next();
        let target_hi = self.next();
        let target_addr = mk16(target_lo, target_hi);

        let ret = dec16(self.registers.pc);
        let ret_lo = lo8(ret);
        let ret_hi = hi8(ret);

        self.push_stack(ret_hi);
        self.push_stack(ret_lo);

        self.clock_cycle();
        self.registers.pc = target_addr;
    }

    fn rts(&mut self)
        requires
            old(self)@.wf(),
            old(self)@.cycle + 7 <= u64::MAX,
        ensures
            final(self)@ == rts_step(old(self)@),
    {
        self.clock_cycle();

        let ret_lo = self.pull_stack();
        let ret_hi = self.pull_stack();
        let ret_addr = mk16(ret_lo, ret_hi);

        self.registers.pc = inc16(ret_addr);
        self.clock_cycle();

        self.clock_cycle();
    }

    fn pha(&mut self)
        requires
            old(self)@.wf(),
            old(self)@.cycle + 7 <= u64::MAX,
        ensures
            final(self)@ == pha_step(old(self)@),
    {
        self.clock_cycle();
        let a = self.registers.a;
        self.push_stack(a);
    }

    fn php(&mut self)
        requires
            old(self)@.wf(),
            old(self)@.cycle + 7 <= u64::MAX,
        ensures
            final(self)@ == php_step(old(self)@),
    {
        self.clock_cycle();
        let v = self.registers.p | FLAG_BREAK | FLAG_UNUSED;
        self.push_stack(v);
    }

    fn pla(&mut self)
        requires
            old(self)@.wf(),
            old(self)@.cycle + 7 <= u64::MAX,
        ensures
            final(self)@ == pla_step(old(self)@),
    {
        self.clock_cycle();
        self.clock_cycle();
        let data = self.pull_stack();
        self.registers.update_a(data);
    }

    fn plp(&mut self)
        requires
            old(self)@.wf(),
            old(self)@.cycle + 7 <= u64::MAX,
        ensures
            final(self)@ == plp_step(old(self)@),
    {
        self.clock_cycle();
        self.clock_cycle();
        let data = self.pull_stack();
        self.registers.p = data & !FLAG_BREAK & !FLAG_UNUSED;
    }

    fn brk(&mut self)
        requires
            old(self)@.wf(),
            old(self)@.cycle + 7 <= u64::MAX,
        ensures
            final(self)@ == brk_step(old(self)@),
    {
        self.next();

        let ret = self.registers.pc;
        let ret_lo = lo8(ret);
        let ret_hi = hi8(ret);

        self.push_stack(ret_hi);
        self.push_stack(ret_lo);
        let v = self.registers.p | FLAG_BREAK | FLAG_UNUSED;
        self.push_stack(v);

        self.registers.update_interupt_bit(true);

        let pc_lo = self.read_memory(VECTOR_IRQ_LO);
        let pc_hi = self.read_memory(VECTOR_IRQ_HI);
        self.registers.pc = mk16(pc_lo, pc_hi);
    }

    fn rti(&mut self)
        requires
            old(self)@.wf(),
            old(self)@.cycle + 7 <= u64::MAX,
        ensures
            final(self)@ == rti_step(old(self)@),
    {
        self.clock_cycle();

        let data = self.pull_stack();
        self.registers.p = data & !FLAG_BREAK & !FLAG_UNUSED;

        let ret_lo = self.pull_stack();
        let ret_hi = self.pull_stack();
        self.registers.pc = mk16(ret_lo, ret_hi);

        self.clock_cycle();
    }

}


impl CPU {
    /// A CPU over the given memory image. `clock_speed` is the host's target
    /// rate in cycles per second (0 = uncapped); the core only stores it.
    pub fn new(memory: RAM, clock_speed: u32) -> (r: CPU)
        ensures
            r@ == (CpuV {
                pc: 0x0400,
                a: 0,
                x: 0,
                y: 0,
                p: 0,
                sp: 0,
                mem: memory@,
                cycle: 0,
            }),
            r.clock_speed == clock_speed,
    {
        CPU { registers: Registers::new(), memory, clock_speed, cycle: 0 }
    }

    /// Reinitializes the registers, sets the interrupt-disable flag, loads PC
    /// from the reset vector at $FFFC/$FFFD, and consumes seven cycles.
    pub fn reset(&mut self)
        requires
            old(self)@.wf(),
            old(self)@.cycle + 7 <= u64::MAX,
        ensures
            final(self)@ == reset_spec(old(self)@),
    {
        self.registers.a = 0;
        self.registers.x = 0;
        self.registers.y = 0;
        self.registers.s = 0xFD;
        self.registers.p = FLAG_INTERRUPT | FLAG_UNUSED;
        let lo = self.memory.read(VECTOR_RESET_LO);
        let hi = self.memory.read(VECTOR_RESET_HI);
        self.registers.pc = mk16(lo, hi);
        self.cycle = self.cycle + 7;
    }

    /// Fetches, decodes and executes one instruction and returns the number
    /// of cycles it consumed. A byte outside the documented set is a fatal
    /// decode error: `Err(UndefinedOpcode)`, with PC already past the byte.
    pub fn step(&mut self) -> (r: Result<u32, EmuError>)
        requires
            old(self)@.ready(),
        ensures
            is_documented(rd(old(self)@, old(self)@.pc)) ==> {
                &&& final(self)@ == step_spec(old(self)@)
                &&& r == Ok::<u32, EmuError>(
                    ((step_spec(old(self)@).cycle - old(self)@.cycle) as u32),
                )
            },
            !is_documented(rd(old(self)@, old(self)@.pc)) ==> {
                &&& r == Err::<u32, EmuError>(EmuError::UndefinedOpcode)
                &&& final(self)@ == fetched(old(self)@)
            },
    {
        let start: u64 = self.cycle;
        let instruction = self.next();

        match instruction {
            0x00 => self.brk(),
            0x01 => self.ora_preindexed_indirect_zeropage_x(),
            0x05 => self.ora_zeropage(),
            0x06 => self.asl_zeropage(),
            0x08 => self.php(),
            0x09 => self.ora_immediate(),
            0x0A => self.asl_accumulator(),
            0x0D => self.ora_absolute(),
            0x0E => self.asl_absolute(),
            0x10 => self.bpl(),
            0x11 => self.ora_postindexed_indirect_zeropage_y(),
            0x15 => self.ora_zeropage_x(),
            0x16 => self.asl_zeropage_x(),
            0x18 => self.clc(),
            0x19 => self.ora_absolute_y(),
            0x1D => self.ora_absolute_x(),
            0x1E => self.asl_absolute_x(),
            0x20 => self.jsr(),
            0x21 => self.and_preindexed_indirect_zeropage_x(),
            0x24 => self.bit_zeropage(),
            0x25 => self.and_zeropage(),
            0x26 => self.rol_zeropage(),
            0x28 => self.plp(),
            0x29 => self.and_immediate(),
            0x2A => self.rol_accumulator(),
            0x2C => self.bit_absolute(),
            0x2D => self.and_absolute(),
            0x2E => self.rol_absolute(),
            0x30 => self.bmi(),
            0x31 => self.and_postindexed_indirect_zeropage_y(),
            0x35 => self.and_zeropage_x(),
            0x36 => self.rol_zeropage_x(),
            0x38 => self.sec(),
            0x39 => self.and_absolute_y(),
            0x3D => self.and_absolute_x(),
            0x3E => self.rol_absolute_x(),
            0x40 => self.rti(),
            0x41 => self.eor_preindexed_indirect_zeropage_x(),
            0x45 => self.eor_zeropage(),
            0x46 => self.lsr_zeropage(),
            0x48 => self.pha(),
            0x49 => self.eor_immediate(),
            0x4A => self.lsr_accumulator(),
            0x4C => self.jmp_absolute(),
            0x4D => self.eor_absolute(),
            0x4E => self.lsr_absolute(),
            0x50 => self.bvc(),
            0x51 => self.eor_postindexed_indirect_zeropage_y(),
            0x55 => self.eor_zeropage_x(),
            0x56 => self.lsr_zeropage_x(),
            0x58 => self.cli(),
            0x59 => self.eor_absolute_y(),
            0x5D => self.eor_absolute_x(),
            0x5E => self.lsr_absolute_x(),
            0x60 => self.rts(),
            0x61 => self.adc_preindexed_indirect_zeropage_x(),
            0x65 => self.adc_zeropage(),
            0x66 => self.ror_zeropage(),
            0x68 => self.pla(),
            0x69 => self.adc_immediate(),
            0x6A => self.ror_accumulator(),
            0x6C => self.jmp_indirect(),
            0x6D => self.adc_absolute(),
            0x6E => self.ror_absolute(),
            0x70 => self.bvs(),
            0x71 => self.adc_postindexed_indirect_zeropage_y(),
            0x75 => self.adc_zeropage_x(),
            0x76 => self.ror_zeropage_x(),
            0x78 => self.sei(),
            0x79 => self.adc_absolute_y(),
            0x7D => self.adc_absolute_x(),
            0x7E => self.ror_absolute_x(),
            0x81 => self.sta_preindexed_indirect_zeropage_x(),
            0x84 => self.sty_zeropage(),
            0x85 => self.sta_zeropage(),
            0x86 => self.stx_zeropage(),
            0x88 => self.dey(),
            0x8A => self.txa(),
            0x8C => self.sty_absolute(),
            0x8D => self.sta_absolute(),
            0x8E => self.stx_absolute(),
            0x90 => self.bcc(),
            0x91 => self.sta_postindexed_indirect_zeropage_y(),
            0x94 => self.sty_zeropage_x(),
            0x95 => self.sta_zeropage_x(),
            0x96 => self.stx_zeropage_y(),
            0x98 => self.tya(),
            0x99 => self.sta_absolute_y(),
            0x9A => self.txs(),
            0x9D => self.sta_absolute_x(),
            0xA0 => self.ldy_immediate(),
            0xA1 => self.lda_preindexed_indirect_zeropage_x(),
            0xA2 => self.ldx_immediate(),
            0xA4 => self.ldy_zeropage(),
            0xA5 => self.lda_zeropage(),
            0xA6 => self.ldx_zeropage(),
            0xA8 => self.tay(),
            0xA9 => self.lda_immediate(),
            0xAA => self.tax(),
            0xAC => self.ldy_absolute(),
            0xAD => self.lda_absolute(),
            0xAE => self.ldx_absolute(),
            0xB0 => self.bcs(),
            0xB1 => self.lda_postindexed_indirect_zeropage_y(),
            0xB4 => self.ldy_zeropage_x(),
            0xB5 => self.lda_zeropage_x(),
            0xB6 => self.ldx_zeropage_y(),
            0xB8 => self.clv(),
            0xB9 => self.lda_absolute_y(),
            0xBA => self.tsx(),
            0xBC => self.ldy_absolute_x(),
            0xBD => self.lda_absolute_x(),
            0xBE => self.ldx_absolute_y(),
            0xC0 => self.cpy_immediate(),
            0xC1 => self.cmp_preindexed_indirect_zeropage_x(),
            0xC4 => self.cpy_zeropage(),
            0xC5 => self.cmp_zeropage(),
            0xC6 => self.dec_zeropage(),
            0xC8 => self.iny(),
            0xC9 => self.cmp_immediate(),
            0xCA => self.dex(),
            0xCC => self.cpy_absolute(),
            0xCD => self.cmp_absolute(),
            0xCE => self.dec_absolute(),
            0xD0 => self.bne(),
            0xD1 => self.cmp_postindexed_indirect_zeropage_y(),
            0xD5 => self.cmp_zeropage_x(),
            0xD6 => self.dec_zeropage_x(),
            0xD8 => self.cld(),
            0xD9 => self.cmp_absolute_y(),
            0xDD => self.cmp_absolute_x(),
            0xDE => self.dec_absolute_x(),
            0xE0 => self.cpx_immediate(),
            0xE1 => self.sbc_preindexed_indirect_zeropage_x(),
            0xE4 => self.cpx_zeropage(),
            0xE5 => self.sbc_zeropage(),
            0xE6 => self.inc_zeropage(),
            0xE8 => self.inx(),
            0xE9 => self.sbc_immediate(),
            0xEA => self.nop(),
            0xEC => self.cpx_absolute(),
            0xED => self.sbc_absolute(),
            0xEE => self.inc_absolute(),
            0xF0 => self.beq(),
            0xF1 => self.sbc_postindexed_indirect_zeropage_y(),
            0xF5 => self.sbc_zeropage_x(),
            0xF6 => self.inc_zeropage_x(),
            0xF8 => self.sed(),
            0xF9 => self.sbc_absolute_y(),
            0xFD => self.sbc_absolute_x(),
            0xFE => self.inc_absolute_x(),
            _ => {
                return Err(EmuError::UndefinedOpcode);
            },
        }

        Ok((self.cycle - start) as u32)
    }
}

} // verus!
