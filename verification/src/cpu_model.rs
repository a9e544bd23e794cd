//! Ghost model of the 6502 execution engine.
//!
//! `CpuV` is the mathematical machine state: registers, the 64 KiB memory
//! image, and the running cycle count. Every public operation of the
//! executable [`crate::cpu::CPU`] is specified as equal to one of the
//! transition functions defined here, so the whole instruction set has a
//! single spec-level description that the laws in [`crate::cpu_laws`] reason
//! about.

use vstd::prelude::*;

verus! {

// Status flag masks (bit 7 down to bit 0: N V - B D I Z C).
pub const FLAG_CARRY: u8 = 0x01;

pub const FLAG_ZERO: u8 = 0x02;

pub const FLAG_INTERRUPT: u8 = 0x04;

pub const FLAG_DECIMAL: u8 = 0x08;

pub const FLAG_BREAK: u8 = 0x10;

pub const FLAG_UNUSED: u8 = 0x20;

pub const FLAG_OVERFLOW: u8 = 0x40;

pub const FLAG_NEGATIVE: u8 = 0x80;

// Interrupt vector locations.
pub const VECTOR_NMI_LO: u16 = 0xFFFA;

pub const VECTOR_NMI_HI: u16 = 0xFFFB;

pub const VECTOR_RESET_LO: u16 = 0xFFFC;

pub const VECTOR_RESET_HI: u16 = 0xFFFD;

pub const VECTOR_IRQ_LO: u16 = 0xFFFE;

pub const VECTOR_IRQ_HI: u16 = 0xFFFF;

/// The machine state: registers, memory image, cycle count.
#[verifier::ext_equal]
pub ghost struct CpuV {
    pub pc: u16,
    pub a: u8,
    pub x: u8,
    pub y: u8,
    pub p: u8,
    pub sp: u8,
    pub mem: Seq<u8>,
    pub cycle: int,
}

impl CpuV {
    /// The memory image covers the full 16-bit address space.
    pub open spec fn wf(&self) -> bool {
        self.mem.len() == 0x10000
    }

    /// Well-formed, with cycle-counter headroom for one instruction.
    pub open spec fn ready(&self) -> bool {
        self.wf() && self.cycle >= 0 && self.cycle + 8 <= u64::MAX
    }
}

/// The byte at address `a`.
pub open spec fn rd(s: CpuV, a: u16) -> u8 {
    s.mem[a as int]
}

/// Same state, `k` cycles later.
pub open spec fn bump(s: CpuV, k: int) -> CpuV {
    CpuV { cycle: s.cycle + k, ..s }
}

// ---------------------------------------------------------------------------
// Modular arithmetic on 8- and 16-bit values.
// ---------------------------------------------------------------------------

pub open spec fn spec_inc8(x: u8) -> u8 {
    if x == 0xFF {
        0
    } else {
        (x + 1) as u8
    }
}

/// `x + 1` modulo 256.
#[verifier::when_used_as_spec(spec_inc8)]
pub fn inc8(x: u8) -> (r: u8)
    ensures
        r == spec_inc8(x),
{
    if x == 0xFF {
        0
    } else {
        x + 1
    }
}

pub open spec fn spec_dec8(x: u8) -> u8 {
    if x == 0 {
        0xFF
    } else {
        (x - 1) as u8
    }
}

/// `x - 1` modulo 256.
#[verifier::when_used_as_spec(spec_dec8)]
pub fn dec8(x: u8) -> (r: u8)
    ensures
        r == spec_dec8(x),
{
    if x == 0 {
        0xFF
    } else {
        x - 1
    }
}

pub open spec fn spec_add8(x: u8, y: u8) -> u8 {
    if x + y > 0xFF {
        (x + y - 0x100) as u8
    } else {
        (x + y) as u8
    }
}

/// `x + y` modulo 256.
#[verifier::when_used_as_spec(spec_add8)]
pub fn add8(x: u8, y: u8) -> (r: u8)
    ensures
        r == spec_add8(x, y),
{
    let t: u16 = x as u16 + y as u16;
    if t > 0xFF {
        (t - 0x100) as u8
    } else {
        t as u8
    }
}

pub open spec fn spec_inc16(x: u16) -> u16 {
    if x == 0xFFFF {
        0
    } else {
        (x + 1) as u16
    }
}

/// `x + 1` modulo 65536.
#[verifier::when_used_as_spec(spec_inc16)]
pub fn inc16(x: u16) -> (r: u16)
    ensures
        r == spec_inc16(x),
{
    if x == 0xFFFF {
        0
    } else {
        x + 1
    }
}

pub open spec fn spec_dec16(x: u16) -> u16 {
    if x == 0 {
        0xFFFF
    } else {
        (x - 1) as u16
    }
}

/// `x - 1` modulo 65536.
#[verifier::when_used_as_spec(spec_dec16)]
pub fn dec16(x: u16) -> (r: u16)
    ensures
        r == spec_dec16(x),
{
    if x == 0 {
        0xFFFF
    } else {
        x - 1
    }
}

pub open spec fn spec_add16(x: u16, y: u16) -> u16 {
    if x + y > 0xFFFF {
        (x + y - 0x10000) as u16
    } else {
        (x + y) as u16
    }
}

/// `x + y` modulo 65536.
#[verifier::when_used_as_spec(spec_add16)]
pub fn add16(x: u16, y: u16) -> (r: u16)
    ensures
        r == spec_add16(x, y),
{
    let t: u32 = x as u32 + y as u32;
    if t > 0xFFFF {
        (t - 0x10000) as u16
    } else {
        t as u16
    }
}

pub open spec fn spec_mk16(lo: u8, hi: u8) -> u16 {
    ((hi as int) * 256 + (lo as int)) as u16
}

/// The 16-bit value with low byte `lo` and high byte `hi`.
#[verifier::when_used_as_spec(spec_mk16)]
pub fn mk16(lo: u8, hi: u8) -> (r: u16)
    ensures
        r == spec_mk16(lo, hi),
{
    (hi as u16) * 256 + (lo as u16)
}

pub open spec fn spec_lo8(x: u16) -> u8 {
    (x % 256) as u8
}

/// The low byte of `x`.
#[verifier::when_used_as_spec(spec_lo8)]
pub fn lo8(x: u16) -> (r: u8)
    ensures
        r == spec_lo8(x),
{
    (x % 256) as u8
}

pub open spec fn spec_hi8(x: u16) -> u8 {
    (x / 256) as u8
}

/// The high byte of `x`.
#[verifier::when_used_as_spec(spec_hi8)]
pub fn hi8(x: u16) -> (r: u8)
    ensures
        r == spec_hi8(x),
{
    (x / 256) as u8
}

pub open spec fn spec_ext16(off: u8) -> u16 {
    if off >= 0x80 {
        (off + 0xFF00) as u16
    } else {
        off as u16
    }
}

/// Sign extension of a relative branch offset to 16 bits.
#[verifier::when_used_as_spec(spec_ext16)]
pub fn ext16(off: u8) -> (r: u16)
    ensures
        r == spec_ext16(off),
{
    if off >= 0x80 {
        off as u16 + 0xFF00
    } else {
        off as u16
    }
}

pub open spec fn spec_same_page_inc(ptr: u16) -> u16 {
    ((ptr as int / 256) * 256 + (ptr as int % 256 + 1) % 256) as u16
}

/// `ptr + 1` with the carry into the high byte dropped: the low byte wraps
/// within the same 256-byte page. This is the pointer increment the indirect
/// `JMP` uses in hardware.
#[verifier::when_used_as_spec(spec_same_page_inc)]
pub fn same_page_inc(ptr: u16) -> (r: u16)
    ensures
        r == spec_same_page_inc(ptr),
{
    (ptr / 256) * 256 + (ptr % 256 + 1) % 256
}

/// Whether `a` and `b` lie on different 256-byte pages.
pub open spec fn page_crossed(a: u16, b: u16) -> bool {
    a / 256 != b / 256
}

// ---------------------------------------------------------------------------
// Status flags.
// ---------------------------------------------------------------------------

/// Whether the flag selected by mask `m` is set in `p`.
pub open spec fn get_flag(p: u8, m: u8) -> bool {
    p & m != 0
}

/// `p` with the flag selected by mask `m` forced to `v`.
pub open spec fn set_flag(p: u8, m: u8, v: bool) -> u8 {
    if v {
        p | m
    } else {
        p & !m
    }
}

/// `p` with Z and N reflecting the value `v`.
pub open spec fn set_zn(p: u8, v: u8) -> u8 {
    set_flag(set_flag(p, FLAG_ZERO, v == 0), FLAG_NEGATIVE, v >= 0x80)
}

// ---------------------------------------------------------------------------
// Operand fetch and addressing modes.
// ---------------------------------------------------------------------------

/// State after consuming the byte at PC (one memory access).
pub open spec fn fetched(s: CpuV) -> CpuV {
    CpuV { pc: spec_inc16(s.pc), cycle: s.cycle + 1, ..s }
}

/// The addressing modes of the documented instruction set, beyond
/// implied/accumulator/relative which need no effective address.
pub enum Mode {
    Immediate,
    ZeroPage,
    ZeroPageX,
    ZeroPageY,
    Absolute,
    AbsoluteX,
    AbsoluteY,
    IndirectX,
    IndirectY,
}

/// Memory-access flavor: indexed modes charge their extra cycle differently
/// for plain reads than for writes and read-modify-write operations.
pub enum Access {
    Read,
    Write,
    ReadModify,
}

/// The 16-bit operand of an absolute-mode instruction (little endian).
pub open spec fn abs_operand(s: CpuV) -> u16 {
    spec_mk16(rd(s, s.pc), rd(s, spec_inc16(s.pc)))
}

/// The zero-page pointer of an `(indirect,X)` instruction.
pub open spec fn indx_ptr(s: CpuV) -> u8 {
    spec_add8(rd(s, s.pc), s.x)
}

/// The base address read through the zero-page pointer of an `(indirect),Y`
/// instruction.
pub open spec fn indy_base(s: CpuV) -> u16 {
    spec_mk16(rd(s, rd(s, s.pc) as u16), rd(s, spec_add8(rd(s, s.pc), 1) as u16))
}

/// The effective address of a mode, evaluated in the pre-operand state `s`
/// (PC at the first operand byte).
pub open spec fn eff_addr(s: CpuV, m: Mode) -> u16 {
    match m {
        Mode::Immediate => s.pc,
        Mode::ZeroPage => rd(s, s.pc) as u16,
        Mode::ZeroPageX => spec_add8(rd(s, s.pc), s.x) as u16,
        Mode::ZeroPageY => spec_add8(rd(s, s.pc), s.y) as u16,
        Mode::Absolute => abs_operand(s),
        Mode::AbsoluteX => spec_add16(abs_operand(s), s.x as u16),
        Mode::AbsoluteY => spec_add16(abs_operand(s), s.y as u16),
        Mode::IndirectX => spec_mk16(
            rd(s, indx_ptr(s) as u16),
            rd(s, spec_add8(indx_ptr(s), 1) as u16),
        ),
        Mode::IndirectY => spec_add16(indy_base(s), s.y as u16),
    }
}

/// How many operand bytes the mode consumes.
pub open spec fn operand_len(m: Mode) -> int {
    match m {
        Mode::Absolute | Mode::AbsoluteX | Mode::AbsoluteY => 2,
        _ => 1,
    }
}

/// Cycles spent fetching the operand bytes and computing the effective
/// address (index and pointer work included), not counting the final data
/// access.
pub open spec fn addr_cycles(s: CpuV, m: Mode, acc: Access) -> int {
    match m {
        Mode::Immediate => 1,
        Mode::ZeroPage => 1,
        Mode::ZeroPageX | Mode::ZeroPageY => 2,
        Mode::Absolute => 2,
        Mode::AbsoluteX => 2 + extra_index_cycle(abs_operand(s), eff_addr(s, m), acc),
        Mode::AbsoluteY => 2 + extra_index_cycle(abs_operand(s), eff_addr(s, m), acc),
        Mode::IndirectX => 4,
        Mode::IndirectY => 3 + extra_index_cycle(indy_base(s), eff_addr(s, m), acc),
    }
}

/// The surcharge of an indexed mode: reads pay one cycle only on a page
/// cross, writes and read-modify-writes always pay it.
pub open spec fn extra_index_cycle(base: u16, eff: u16, acc: Access) -> int {
    match acc {
        Access::Read => if page_crossed(base, eff) {
            1
        } else {
            0
        },
        Access::Write | Access::ReadModify => 1,
    }
}

/// State after the operand bytes of mode `m` have been consumed and the
/// effective address computed, for an access of kind `acc`.
pub open spec fn after_operand(s: CpuV, m: Mode, acc: Access) -> CpuV {
    CpuV {
        pc: if operand_len(m) == 2 {
            spec_inc16(spec_inc16(s.pc))
        } else {
            spec_inc16(s.pc)
        },
        cycle: s.cycle + addr_cycles(s, m, acc),
        ..s
    }
}

/// State and data after reading the operand of mode `m` (including the data
/// access cycle; immediate mode's data byte is the operand itself).
pub open spec fn read_mode(s: CpuV, m: Mode) -> (CpuV, u8) {
    match m {
        Mode::Immediate => (fetched(s), rd(s, s.pc)),
        _ => (bump(after_operand(s, m, Access::Read), 1), rd(s, eff_addr(s, m))),
    }
}

// ---------------------------------------------------------------------------
// Operations on registers.
// ---------------------------------------------------------------------------

/// The operations that read one byte of data and update registers and flags.
pub enum ReadOp {
    Adc,
    Sbc,
    And,
    Ora,
    Eor,
    Lda,
    Ldx,
    Ldy,
    Cmp,
    Cpx,
    Cpy,
    Bit,
}

/// The register a store instruction writes to memory.
pub enum RegSel {
    A,
    X,
    Y,
}

/// The read-modify-write (and accumulator) operations.
pub enum RmwOp {
    Asl,
    Lsr,
    Rol,
    Ror,
    Inc,
    Dec,
}

/// The single-byte operations on registers and flags.
pub enum ImpliedOp {
    Tax,
    Tay,
    Tsx,
    Txa,
    Txs,
    Tya,
    Clc,
    Cld,
    Cli,
    Clv,
    Sec,
    Sed,
    Sei,
    Dex,
    Dey,
    Inx,
    Iny,
    Nop,
}

/// Add with carry. In binary mode: `r = A + M + C`, C set on a carry out of
/// bit 7, V from `(!(A^M) & (A^r) & 0x80) != 0`. In decimal mode the binary
/// sum is corrected by +$06 when the low-nibble sum exceeds 9 and by +$60
/// (setting C) when the total exceeds $99; V comes from the pre-adjustment
/// binary result.
pub open spec fn apply_adc(s: CpuV, m: u8) -> CpuV {
    let a = s.a;
    let c: int = if get_flag(s.p, FLAG_CARRY) {
        1
    } else {
        0
    };
    let sum: int = a + m + c;
    let result: u8 = ((sum % 256) as u8);
    let v = (!(a ^ m) & (a ^ result) & 0x80) != 0;
    if get_flag(s.p, FLAG_DECIMAL) {
        let lo_adj: int = if (a % 16) + (m % 16) + c > 9 {
            6
        } else {
            0
        };
        let hi_adj: int = if sum > 0x99 {
            0x60int
        } else {
            0int
        };
        let adj: int = lo_adj + hi_adj;
        let bcd: u8 = (((result + adj) % 256) as u8);
        let p1 = set_zn(set_flag(set_flag(s.p, FLAG_CARRY, sum > 0x99), FLAG_OVERFLOW, v), bcd);
        CpuV { a: bcd, p: p1, ..s }
    } else {
        let p1 = set_zn(set_flag(set_flag(s.p, FLAG_CARRY, sum > 0xFF), FLAG_OVERFLOW, v), result);
        CpuV { a: result, p: p1, ..s }
    }
}

/// Subtract with borrow: `r = A - M - (1 - C)`; C set iff no borrow
/// (difference non-negative); V from `((A^M) & (A^r) & 0x80) != 0`. In
/// decimal mode symmetric -$06/-$60 corrections apply when the low nibble or
/// the total borrows.
pub open spec fn apply_sbc(s: CpuV, m: u8) -> CpuV {
    let a = s.a;
    let c: int = if get_flag(s.p, FLAG_CARRY) {
        1
    } else {
        0
    };
    let diff: int = a - m - (1 - c);
    let result: u8 = (if diff < 0 {
        (diff + 256) as u8
    } else {
        diff as u8
    });
    let v = ((a ^ m) & (a ^ result) & 0x80) != 0;
    if get_flag(s.p, FLAG_DECIMAL) {
        let lo_adj: int = if (a % 16) - (m % 16) - (1 - c) < 0 {
            -6
        } else {
            0
        };
        let hi_adj: int = if diff < 0 {
            -0x60int
        } else {
            0int
        };
        let adj: int = lo_adj + hi_adj;
        let bcd: u8 = (if result + adj < 0 {
            (result + adj + 256) as u8
        } else {
            (result + adj) as u8
        });
        let p1 = set_zn(set_flag(set_flag(s.p, FLAG_CARRY, diff >= 0), FLAG_OVERFLOW, v), bcd);
        CpuV { a: bcd, p: p1, ..s }
    } else {
        let p1 = set_zn(set_flag(set_flag(s.p, FLAG_CARRY, diff >= 0), FLAG_OVERFLOW, v), result);
        CpuV { a: result, p: p1, ..s }
    }
}

/// Compare `reg` against `m`: C = (reg >= m), Z and N from `reg - m` mod 256.
pub open spec fn apply_compare(s: CpuV, reg: u8, m: u8) -> u8 {
    let result: u8 = (if reg >= m {
        (reg - m) as u8
    } else {
        (reg + 256 - m) as u8
    });
    set_zn(set_flag(s.p, FLAG_CARRY, reg >= m), result)
}

/// Bit test: Z from `(A & M) == 0`, N from M bit 7, V from M bit 6.
pub open spec fn apply_bit(s: CpuV, m: u8) -> CpuV {
    let p1 = set_flag(
        set_flag(set_flag(s.p, FLAG_ZERO, (s.a & m) == 0), FLAG_NEGATIVE, (m & 0x80) != 0),
        FLAG_OVERFLOW,
        (m & 0x40) != 0,
    );
    CpuV { p: p1, ..s }
}

/// Effect of a data-reading operation on the registers.
pub open spec fn apply_read_op(op: ReadOp, s: CpuV, d: u8) -> CpuV {
    match op {
        ReadOp::Adc => apply_adc(s, d),
        ReadOp::Sbc => apply_sbc(s, d),
        ReadOp::And => {
            let r = s.a & d;
            CpuV { a: r, p: set_zn(s.p, r), ..s }
        },
        ReadOp::Ora => {
            let r = s.a | d;
            CpuV { a: r, p: set_zn(s.p, r), ..s }
        },
        ReadOp::Eor => {
            let r = s.a ^ d;
            CpuV { a: r, p: set_zn(s.p, r), ..s }
        },
        ReadOp::Lda => CpuV { a: d, p: set_zn(s.p, d), ..s },
        ReadOp::Ldx => CpuV { x: d, p: set_zn(s.p, d), ..s },
        ReadOp::Ldy => CpuV { y: d, p: set_zn(s.p, d), ..s },
        ReadOp::Cmp => CpuV { p: apply_compare(s, s.a, d), ..s },
        ReadOp::Cpx => CpuV { p: apply_compare(s, s.x, d), ..s },
        ReadOp::Cpy => CpuV { p: apply_compare(s, s.y, d), ..s },
        ReadOp::Bit => apply_bit(s, d),
    }
}

/// The value of the selected register.
pub open spec fn reg_val(s: CpuV, r: RegSel) -> u8 {
    match r {
        RegSel::A => s.a,
        RegSel::X => s.x,
        RegSel::Y => s.y,
    }
}

/// Shift, rotate, increment or decrement one byte; returns the new status
/// byte and the result. Shifts and rotates update flags in the order the
/// hardware commits them (ASL: carry then Z/N; LSR/ROL/ROR: Z/N then carry).
pub open spec fn apply_rmw(op: RmwOp, p: u8, d: u8) -> (u8, u8) {
    match op {
        RmwOp::Asl => {
            let r = (((d * 2) % 256) as u8);
            (set_zn(set_flag(p, FLAG_CARRY, d >= 0x80), r), r)
        },
        RmwOp::Lsr => {
            let r = ((d / 2) as u8);
            (set_flag(set_zn(p, r), FLAG_CARRY, d % 2 == 1), r)
        },
        RmwOp::Rol => {
            let cin: int = if get_flag(p, FLAG_CARRY) {
                1
            } else {
                0
            };
            let r = (((d * 2) % 256 + cin) as u8);
            (set_flag(set_zn(p, r), FLAG_CARRY, d >= 0x80), r)
        },
        RmwOp::Ror => {
            let cin: int = if get_flag(p, FLAG_CARRY) {
                0x80
            } else {
                0
            };
            let r = ((d / 2 + cin) as u8);
            (set_flag(set_zn(p, r), FLAG_CARRY, d % 2 == 1), r)
        },
        RmwOp::Inc => {
            let r = spec_inc8(d);
            (set_zn(p, r), r)
        },
        RmwOp::Dec => {
            let r = spec_dec8(d);
            (set_zn(p, r), r)
        },
    }
}

// ---------------------------------------------------------------------------
// Whole-instruction transitions. Each starts from the state just after the
// opcode byte has been fetched.
// ---------------------------------------------------------------------------

/// A data-reading instruction (loads, arithmetic, logic, compares, BIT).
pub open spec fn read_op_step(s: CpuV, m: Mode, op: ReadOp) -> CpuV {
    let (s1, d) = read_mode(s, m);
    apply_read_op(op, s1, d)
}

/// A store instruction (STA/STX/STY).
pub open spec fn store_op_step(s: CpuV, m: Mode, r: RegSel) -> CpuV {
    let s1 = after_operand(s, m, Access::Write);
    let a = eff_addr(s, m);
    CpuV { mem: s1.mem.update(a as int, reg_val(s, r)), cycle: s1.cycle + 1, ..s1 }
}

/// A read-modify-write instruction on memory.
pub open spec fn rmw_op_step(s: CpuV, m: Mode, op: RmwOp) -> CpuV {
    let s1 = after_operand(s, m, Access::ReadModify);
    let a = eff_addr(s, m);
    let (p1, r) = apply_rmw(op, s.p, rd(s, a));
    CpuV { mem: s1.mem.update(a as int, r), p: p1, cycle: s1.cycle + 3, ..s1 }
}

/// A shift or rotate on the accumulator.
pub open spec fn acc_op_step(s: CpuV, op: RmwOp) -> CpuV {
    let (p1, r) = apply_rmw(op, s.p, s.a);
    CpuV { a: r, p: set_zn(p1, r), cycle: s.cycle + 1, ..s }
}

/// A single-byte register or flag operation.
pub open spec fn implied_step(s: CpuV, op: ImpliedOp) -> CpuV {
    let s1 = bump(s, 1);
    match op {
        ImpliedOp::Tax => CpuV { x: s.a, p: set_zn(s.p, s.a), ..s1 },
        ImpliedOp::Tay => CpuV { y: s.a, p: set_zn(s.p, s.a), ..s1 },
        ImpliedOp::Tsx => CpuV { x: s.sp, p: set_zn(s.p, s.sp), ..s1 },
        ImpliedOp::Txa => CpuV { a: s.x, p: set_zn(s.p, s.x), ..s1 },
        ImpliedOp::Txs => CpuV { sp: s.x, ..s1 },
        ImpliedOp::Tya => CpuV { a: s.y, p: set_zn(s.p, s.y), ..s1 },
        ImpliedOp::Clc => CpuV { p: set_flag(s.p, FLAG_CARRY, false), ..s1 },
        ImpliedOp::Cld => CpuV { p: set_flag(s.p, FLAG_DECIMAL, false), ..s1 },
        ImpliedOp::Cli => CpuV { p: set_flag(s.p, FLAG_INTERRUPT, false), ..s1 },
        ImpliedOp::Clv => CpuV { p: set_flag(s.p, FLAG_OVERFLOW, false), ..s1 },
        ImpliedOp::Sec => CpuV { p: set_flag(s.p, FLAG_CARRY, true), ..s1 },
        ImpliedOp::Sed => CpuV { p: set_flag(s.p, FLAG_DECIMAL, true), ..s1 },
        ImpliedOp::Sei => CpuV { p: set_flag(s.p, FLAG_INTERRUPT, true), ..s1 },
        ImpliedOp::Dex => {
            let r = spec_dec8(s.x);
            CpuV { x: r, p: set_zn(s.p, r), ..s1 }
        },
        ImpliedOp::Dey => {
            let r = spec_dec8(s.y);
            CpuV { y: r, p: set_zn(s.p, r), ..s1 }
        },
        ImpliedOp::Inx => {
            let r = spec_inc8(s.x);
            CpuV { x: r, p: set_zn(s.p, r), ..s1 }
        },
        ImpliedOp::Iny => {
            let r = spec_inc8(s.y);
            CpuV { y: r, p: set_zn(s.p, r), ..s1 }
        },
        ImpliedOp::Nop => s1,
    }
}

/// A conditional branch. The offset byte is always consumed; a taken branch
/// costs one extra cycle, and one more when the target lies on a different
/// page than the instruction's end.
pub open spec fn branch_step(s: CpuV, taken: bool) -> CpuV {
    let off = rd(s, s.pc);
    let s1 = fetched(s);
    if taken {
        let target = spec_add16(s1.pc, spec_ext16(off));
        CpuV {
            pc: target,
            cycle: s1.cycle + 1 + (if page_crossed(s1.pc, target) {
                1int
            } else {
                0int
            }),
            ..s1
        }
    } else {
        s1
    }
}

/// Push one byte: write at $0100+S, then decrement S.
pub open spec fn push_spec(s: CpuV, v: u8) -> CpuV {
    CpuV {
        mem: s.mem.update(0x100 + s.sp as int, v),
        sp: spec_dec8(s.sp),
        cycle: s.cycle + 1,
        ..s
    }
}

/// Pull one byte: increment S, then read at $0100+S.
pub open spec fn pull_spec(s: CpuV) -> (CpuV, u8) {
    let sp1 = spec_inc8(s.sp);
    (CpuV { sp: sp1, cycle: s.cycle + 1, ..s }, s.mem[0x100 + sp1 as int])
}

/// PHA: one internal cycle, then push A.
pub open spec fn pha_step(s: CpuV) -> CpuV {
    push_spec(bump(s, 1), s.a)
}

/// PHP: one internal cycle, then push P with B and bit 5 forced to 1.
pub open spec fn php_step(s: CpuV) -> CpuV {
    push_spec(bump(s, 1), s.p | FLAG_BREAK | FLAG_UNUSED)
}

/// PLA: two internal cycles, pull into A, set Z/N.
pub open spec fn pla_step(s: CpuV) -> CpuV {
    let (s1, d) = pull_spec(bump(s, 2));
    CpuV { a: d, p: set_zn(s1.p, d), ..s1 }
}

/// PLP: two internal cycles, pull into P with B and bit 5 cleared.
pub open spec fn plp_step(s: CpuV) -> CpuV {
    let (s1, d) = pull_spec(bump(s, 2));
    CpuV { p: d & !FLAG_BREAK & !FLAG_UNUSED, ..s1 }
}

/// JMP absolute: PC from the 16-bit operand.
pub open spec fn jmp_abs_step(s: CpuV) -> CpuV {
    CpuV { pc: abs_operand(s), cycle: s.cycle + 2, ..s }
}

/// JMP indirect, with the hardware quirk: when the pointer's low byte is $FF
/// the high byte of the target is fetched from the start of the *same* page.
pub open spec fn jmp_ind_step(s: CpuV) -> CpuV {
    let ptr = abs_operand(s);
    let target = spec_mk16(rd(s, ptr), rd(s, spec_same_page_inc(ptr)));
    CpuV { pc: target, cycle: s.cycle + 4, ..s }
}

/// JSR: push the address of the instruction's last byte (PC+2-1 counted from
/// the opcode), high byte first, then jump.
pub open spec fn jsr_step(s: CpuV) -> CpuV {
    let target = abs_operand(s);
    let s1 = CpuV { pc: spec_inc16(spec_inc16(s.pc)), cycle: s.cycle + 2, ..s };
    let ret = spec_dec16(s1.pc);
    let s2 = push_spec(s1, spec_hi8(ret));
    let s3 = push_spec(s2, spec_lo8(ret));
    CpuV { pc: target, cycle: s3.cycle + 1, ..s3 }
}

/// RTS: pull the return address and resume one byte past it.
pub open spec fn rts_step(s: CpuV) -> CpuV {
    let s1 = bump(s, 1);
    let (s2, lo) = pull_spec(s1);
    let (s3, hi) = pull_spec(s2);
    CpuV { pc: spec_inc16(spec_mk16(lo, hi)), cycle: s3.cycle + 2, ..s3 }
}

/// BRK: consume the padding byte, push PC (high then low) and P with B and
/// bit 5 set, set I, and load PC from the IRQ vector.
pub open spec fn brk_step(s: CpuV) -> CpuV {
    let s1 = fetched(s);
    let s2 = push_spec(s1, spec_hi8(s1.pc));
    let s3 = push_spec(s2, spec_lo8(s1.pc));
    let s4 = push_spec(s3, s.p | FLAG_BREAK | FLAG_UNUSED);
    let s5 = CpuV { p: set_flag(s4.p, FLAG_INTERRUPT, true), ..s4 };
    let target = spec_mk16(rd(s5, VECTOR_IRQ_LO), rd(s5, VECTOR_IRQ_HI));
    CpuV { pc: target, cycle: s5.cycle + 2, ..s5 }
}

/// RTI: pull P (with B and bit 5 cleared), then PC low, then PC high; no +1
/// adjustment.
pub open spec fn rti_step(s: CpuV) -> CpuV {
    let s1 = bump(s, 1);
    let (s2, d) = pull_spec(s1);
    let s3 = CpuV { p: d & !FLAG_BREAK & !FLAG_UNUSED, ..s2 };
    let (s4, lo) = pull_spec(s3);
    let (s5, hi) = pull_spec(s4);
    CpuV { pc: spec_mk16(lo, hi), cycle: s5.cycle + 1, ..s5 }
}

/// The reset transition: registers reinitialized, I set, PC loaded from the
/// reset vector at $FFFC/$FFFD, seven cycles consumed.
pub open spec fn reset_spec(s: CpuV) -> CpuV {
    CpuV {
        a: 0,
        x: 0,
        y: 0,
        sp: 0xFD,
        p: FLAG_INTERRUPT | FLAG_UNUSED,
        pc: spec_mk16(rd(s, VECTOR_RESET_LO), rd(s, VECTOR_RESET_HI)),
        cycle: s.cycle + 7,
        ..s
    }
}

/// Whether `op` is one of the 151 documented opcodes.
pub open spec fn is_documented(op: u8) -> bool {
    matches!(op,
        0x00 | 0x01 | 0x05 | 0x06 | 0x08 | 0x09 | 0x0A | 0x0D
        | 0x0E | 0x10 | 0x11 | 0x15 | 0x16 | 0x18 | 0x19 | 0x1D
        | 0x1E | 0x20 | 0x21 | 0x24 | 0x25 | 0x26 | 0x28 | 0x29
        | 0x2A | 0x2C | 0x2D | 0x2E | 0x30 | 0x31 | 0x35 | 0x36
        | 0x38 | 0x39 | 0x3D | 0x3E | 0x40 | 0x41 | 0x45 | 0x46
        | 0x48 | 0x49 | 0x4A | 0x4C | 0x4D | 0x4E | 0x50 | 0x51
        | 0x55 | 0x56 | 0x58 | 0x59 | 0x5D | 0x5E | 0x60 | 0x61
        | 0x65 | 0x66 | 0x68 | 0x69 | 0x6A | 0x6C | 0x6D | 0x6E
        | 0x70 | 0x71 | 0x75 | 0x76 | 0x78 | 0x79 | 0x7D | 0x7E
        | 0x81 | 0x84 | 0x85 | 0x86 | 0x88 | 0x8A | 0x8C | 0x8D
        | 0x8E | 0x90 | 0x91 | 0x94 | 0x95 | 0x96 | 0x98 | 0x99
        | 0x9A | 0x9D | 0xA0 | 0xA1 | 0xA2 | 0xA4 | 0xA5 | 0xA6
        | 0xA8 | 0xA9 | 0xAA | 0xAC | 0xAD | 0xAE | 0xB0 | 0xB1
        | 0xB4 | 0xB5 | 0xB6 | 0xB8 | 0xB9 | 0xBA | 0xBC | 0xBD
        | 0xBE | 0xC0 | 0xC1 | 0xC4 | 0xC5 | 0xC6 | 0xC8 | 0xC9
        | 0xCA | 0xCC | 0xCD | 0xCE | 0xD0 | 0xD1 | 0xD5 | 0xD6
        | 0xD8 | 0xD9 | 0xDD | 0xDE | 0xE0 | 0xE1 | 0xE4 | 0xE5
        | 0xE6 | 0xE8 | 0xE9 | 0xEA | 0xEC | 0xED | 0xEE | 0xF0
        | 0xF1 | 0xF5 | 0xF6 | 0xF8 | 0xF9 | 0xFD | 0xFE)
}

/// The machine transition of one instruction: decode the byte at PC and
/// execute it. For a byte outside the documented set the state after the
/// opcode fetch is returned unchanged; `step` reports the decode error.
pub open spec fn step_spec(s: CpuV) -> CpuV {
    let f = fetched(s);
    match rd(s, s.pc) {
        0x00u8 => brk_step(f),
        0x01u8 => read_op_step(f, Mode::IndirectX, ReadOp::Ora),
        0x05u8 => read_op_step(f, Mode::ZeroPage, ReadOp::Ora),
        0x06u8 => rmw_op_step(f, Mode::ZeroPage, RmwOp::Asl),
        0x08u8 => php_step(f),
        0x09u8 => read_op_step(f, Mode::Immediate, ReadOp::Ora),
        0x0Au8 => acc_op_step(f, RmwOp::Asl),
        0x0Du8 => read_op_step(f, Mode::Absolute, ReadOp::Ora),
        0x0Eu8 => rmw_op_step(f, Mode::Absolute, RmwOp::Asl),
        0x10u8 => branch_step(f, !get_flag(f.p, FLAG_NEGATIVE)),
        0x11u8 => read_op_step(f, Mode::IndirectY, ReadOp::Ora),
        0x15u8 => read_op_step(f, Mode::ZeroPageX, ReadOp::Ora),
        0x16u8 => rmw_op_step(f, Mode::ZeroPageX, RmwOp::Asl),
        0x18u8 => implied_step(f, ImpliedOp::Clc),
        0x19u8 => read_op_step(f, Mode::AbsoluteY, ReadOp::Ora),
        0x1Du8 => read_op_step(f, Mode::AbsoluteX, ReadOp::Ora),
        0x1Eu8 => rmw_op_step(f, Mode::AbsoluteX, RmwOp::Asl),
        0x20u8 => jsr_step(f),
        0x21u8 => read_op_step(f, Mode::IndirectX, ReadOp::And),
        0x24u8 => read_op_step(f, Mode::ZeroPage, ReadOp::Bit),
        0x25u8 => read_op_step(f, Mode::ZeroPage, ReadOp::And),
        0x26u8 => rmw_op_step(f, Mode::ZeroPage, RmwOp::Rol),
        0x28u8 => plp_step(f),
        0x29u8 => read_op_step(f, Mode::Immediate, ReadOp::And),
        0x2Au8 => acc_op_step(f, RmwOp::Rol),
        0x2Cu8 => read_op_step(f, Mode::Absolute, ReadOp::Bit),
        0x2Du8 => read_op_step(f, Mode::Absolute, ReadOp::And),
        0x2Eu8 => rmw_op_step(f, Mode::Absolute, RmwOp::Rol),
        0x30u8 => branch_step(f, get_flag(f.p, FLAG_NEGATIVE)),
        0x31u8 => read_op_step(f, Mode::IndirectY, ReadOp::And),
        0x35u8 => read_op_step(f, Mode::ZeroPageX, ReadOp::And),
        0x36u8 => rmw_op_step(f, Mode::ZeroPageX, RmwOp::Rol),
        0x38u8 => implied_step(f, ImpliedOp::Sec),
        0x39u8 => read_op_step(f, Mode::AbsoluteY, ReadOp::And),
        0x3Du8 => read_op_step(f, Mode::AbsoluteX, ReadOp::And),
        0x3Eu8 => rmw_op_step(f, Mode::AbsoluteX, RmwOp::Rol),
        0x40u8 => rti_step(f),
        0x41u8 => read_op_step(f, Mode::IndirectX, ReadOp::Eor),
        0x45u8 => read_op_step(f, Mode::ZeroPage, ReadOp::Eor),
        0x46u8 => rmw_op_step(f, Mode::ZeroPage, RmwOp::Lsr),
        0x48u8 => pha_step(f),
        0x49u8 => read_op_step(f, Mode::Immediate, ReadOp::Eor),
        0x4Au8 => acc_op_step(f, RmwOp::Lsr),
        0x4Cu8 => jmp_abs_step(f),
        0x4Du8 => read_op_step(f, Mode::Absolute, ReadOp::Eor),
        0x4Eu8 => rmw_op_step(f, Mode::Absolute, RmwOp::Lsr),
        0x50u8 => branch_step(f, !get_flag(f.p, FLAG_OVERFLOW)),
        0x51u8 => read_op_step(f, Mode::IndirectY, ReadOp::Eor),
        0x55u8 => read_op_step(f, Mode::ZeroPageX, ReadOp::Eor),
        0x56u8 => rmw_op_step(f, Mode::ZeroPageX, RmwOp::Lsr),
        0x58u8 => implied_step(f, ImpliedOp::Cli),
        0x59u8 => read_op_step(f, Mode::AbsoluteY, ReadOp::Eor),
        0x5Du8 => read_op_step(f, Mode::AbsoluteX, ReadOp::Eor),
        0x5Eu8 => rmw_op_step(f, Mode::AbsoluteX, RmwOp::Lsr),
        0x60u8 => rts_step(f),
        0x61u8 => read_op_step(f, Mode::IndirectX, ReadOp::Adc),
        0x65u8 => read_op_step(f, Mode::ZeroPage, ReadOp::Adc),
        0x66u8 => rmw_op_step(f, Mode::ZeroPage, RmwOp::Ror),
        0x68u8 => pla_step(f),
        0x69u8 => read_op_step(f, Mode::Immediate, ReadOp::Adc),
        0x6Au8 => acc_op_step(f, RmwOp::Ror),
        0x6Cu8 => jmp_ind_step(f),
        0x6Du8 => read_op_step(f, Mode::Absolute, ReadOp::Adc),
        0x6Eu8 => rmw_op_step(f, Mode::Absolute, RmwOp::Ror),
        0x70u8 => branch_step(f, get_flag(f.p, FLAG_OVERFLOW)),
        0x71u8 => read_op_step(f, Mode::IndirectY, ReadOp::Adc),
        0x75u8 => read_op_step(f, Mode::ZeroPageX, ReadOp::Adc),
        0x76u8 => rmw_op_step(f, Mode::ZeroPageX, RmwOp::Ror),
        0x78u8 => implied_step(f, ImpliedOp::Sei),
        0x79u8 => read_op_step(f, Mode::AbsoluteY, ReadOp::Adc),
        0x7Du8 => read_op_step(f, Mode::AbsoluteX, ReadOp::Adc),
        0x7Eu8 => rmw_op_step(f, Mode::AbsoluteX, RmwOp::Ror),
        0x81u8 => store_op_step(f, Mode::IndirectX, RegSel::A),
        0x84u8 => store_op_step(f, Mode::ZeroPage, RegSel::Y),
        0x85u8 => store_op_step(f, Mode::ZeroPage, RegSel::A),
        0x86u8 => store_op_step(f, Mode::ZeroPage, RegSel::X),
        0x88u8 => implied_step(f, ImpliedOp::Dey),
        0x8Au8 => implied_step(f, ImpliedOp::Txa),
        0x8Cu8 => store_op_step(f, Mode::Absolute, RegSel::Y),
        0x8Du8 => store_op_step(f, Mode::Absolute, RegSel::A),
        0x8Eu8 => store_op_step(f, Mode::Absolute, RegSel::X),
        0x90u8 => branch_step(f, !get_flag(f.p, FLAG_CARRY)),
        0x91u8 => store_op_step(f, Mode::IndirectY, RegSel::A),
        0x94u8 => store_op_step(f, Mode::ZeroPageX, RegSel::Y),
        0x95u8 => store_op_step(f, Mode::ZeroPageX, RegSel::A),
        0x96u8 => store_op_step(f, Mode::ZeroPageY, RegSel::X),
        0x98u8 => implied_step(f, ImpliedOp::Tya),
        0x99u8 => store_op_step(f, Mode::AbsoluteY, RegSel::A),
        0x9Au8 => implied_step(f, ImpliedOp::Txs),
        0x9Du8 => store_op_step(f, Mode::AbsoluteX, RegSel::A),
        0xA0u8 => read_op_step(f, Mode::Immediate, ReadOp::Ldy),
        0xA1u8 => read_op_step(f, Mode::IndirectX, ReadOp::Lda),
        0xA2u8 => read_op_step(f, Mode::Immediate, ReadOp::Ldx),
        0xA4u8 => read_op_step(f, Mode::ZeroPage, ReadOp::Ldy),
        0xA5u8 => read_op_step(f, Mode::ZeroPage, ReadOp::Lda),
        0xA6u8 => read_op_step(f, Mode::ZeroPage, ReadOp::Ldx),
        0xA8u8 => implied_step(f, ImpliedOp::Tay),
        0xA9u8 => read_op_step(f, Mode::Immediate, ReadOp::Lda),
        0xAAu8 => implied_step(f, ImpliedOp::Tax),
        0xACu8 => read_op_step(f, Mode::Absolute, ReadOp::Ldy),
        0xADu8 => read_op_step(f, Mode::Absolute, ReadOp::Lda),
        0xAEu8 => read_op_step(f, Mode::Absolute, ReadOp::Ldx),
        0xB0u8 => branch_step(f, get_flag(f.p, FLAG_CARRY)),
        0xB1u8 => read_op_step(f, Mode::IndirectY, ReadOp::Lda),
        0xB4u8 => read_op_step(f, Mode::ZeroPageX, ReadOp::Ldy),
        0xB5u8 => read_op_step(f, Mode::ZeroPageX, ReadOp::Lda),
        0xB6u8 => read_op_step(f, Mode::ZeroPageY, ReadOp::Ldx),
        0xB8u8 => implied_step(f, ImpliedOp::Clv),
        0xB9u8 => read_op_step(f, Mode::AbsoluteY, ReadOp::Lda),
        0xBAu8 => implied_step(f, ImpliedOp::Tsx),
        0xBCu8 => read_op_step(f, Mode::AbsoluteX, ReadOp::Ldy),
        0xBDu8 => read_op_step(f, Mode::AbsoluteX, ReadOp::Lda),
        0xBEu8 => read_op_step(f, Mode::AbsoluteY, ReadOp::Ldx),
        0xC0u8 => read_op_step(f, Mode::Immediate, ReadOp::Cpy),
        0xC1u8 => read_op_step(f, Mode::IndirectX, ReadOp::Cmp),
        0xC4u8 => read_op_step(f, Mode::ZeroPage, ReadOp::Cpy),
        0xC5u8 => read_op_step(f, Mode::ZeroPage, ReadOp::Cmp),
        0xC6u8 => rmw_op_step(f, Mode::ZeroPage, RmwOp::Dec),
        0xC8u8 => implied_step(f, ImpliedOp::Iny),
        0xC9u8 => read_op_step(f, Mode::Immediate, ReadOp::Cmp),
        0xCAu8 => implied_step(f, ImpliedOp::Dex),
        0xCCu8 => read_op_step(f, Mode::Absolute, ReadOp::Cpy),
        0xCDu8 => read_op_step(f, Mode::Absolute, ReadOp::Cmp),
        0xCEu8 => rmw_op_step(f, Mode::Absolute, RmwOp::Dec),
        0xD0u8 => branch_step(f, !get_flag(f.p, FLAG_ZERO)),
        0xD1u8 => read_op_step(f, Mode::IndirectY, ReadOp::Cmp),
        0xD5u8 => read_op_step(f, Mode::ZeroPageX, ReadOp::Cmp),
        0xD6u8 => rmw_op_step(f, Mode::ZeroPageX, RmwOp::Dec),
        0xD8u8 => implied_step(f, ImpliedOp::Cld),
        0xD9u8 => read_op_step(f, Mode::AbsoluteY, ReadOp::Cmp),
        0xDDu8 => read_op_step(f, Mode::AbsoluteX, ReadOp::Cmp),
        0xDEu8 => rmw_op_step(f, Mode::AbsoluteX, RmwOp::Dec),
        0xE0u8 => read_op_step(f, Mode::Immediate, ReadOp::Cpx),
        0xE1u8 => read_op_step(f, Mode::IndirectX, ReadOp::Sbc),
        0xE4u8 => read_op_step(f, Mode::ZeroPage, ReadOp::Cpx),
        0xE5u8 => read_op_step(f, Mode::ZeroPage, ReadOp::Sbc),
        0xE6u8 => rmw_op_step(f, Mode::ZeroPage, RmwOp::Inc),
        0xE8u8 => implied_step(f, ImpliedOp::Inx),
        0xE9u8 => read_op_step(f, Mode::Immediate, ReadOp::Sbc),
        0xEAu8 => implied_step(f, ImpliedOp::Nop),
        0xECu8 => read_op_step(f, Mode::Absolute, ReadOp::Cpx),
        0xEDu8 => read_op_step(f, Mode::Absolute, ReadOp::Sbc),
        0xEEu8 => rmw_op_step(f, Mode::Absolute, RmwOp::Inc),
        0xF0u8 => branch_step(f, get_flag(f.p, FLAG_ZERO)),
        0xF1u8 => read_op_step(f, Mode::IndirectY, ReadOp::Sbc),
        0xF5u8 => read_op_step(f, Mode::ZeroPageX, ReadOp::Sbc),
        0xF6u8 => rmw_op_step(f, Mode::ZeroPageX, RmwOp::Inc),
        0xF8u8 => implied_step(f, ImpliedOp::Sed),
        0xF9u8 => read_op_step(f, Mode::AbsoluteY, ReadOp::Sbc),
        0xFDu8 => read_op_step(f, Mode::AbsoluteX, ReadOp::Sbc),
        0xFEu8 => rmw_op_step(f, Mode::AbsoluteX, RmwOp::Inc),
        _ => f,
    }
}

} // verus!
