//! The quantified guarantees of the CPU core, proved over the machine model.
//!
//! Each lemma states a property of the spec-level transitions that the
//! executable instruction methods are specified against, so it holds of
//! every execution of the corresponding instructions.

use vstd::prelude::*;

use crate::cpu_model::{
    abs_operand, apply_adc, eff_addr, fetched, get_flag, indy_base,
    is_documented, jmp_ind_step, page_crossed, pull_spec, push_spec, rd, set_flag, set_zn,
    spec_add16, spec_ext16, spec_inc16, spec_mk16, spec_same_page_inc, step_spec, CpuV, Mode,
    FLAG_BREAK, FLAG_CARRY, FLAG_DECIMAL, FLAG_INTERRUPT, FLAG_NEGATIVE, FLAG_OVERFLOW,
    FLAG_UNUSED, FLAG_ZERO,
};

verus! {

/// Flags selected by disjoint masks do not disturb one another.
pub proof fn lemma_flag_other(p: u8, m1: u8, b: bool, m2: u8)
    requires
        m1 & m2 == 0,
    ensures
        get_flag(set_flag(p, m1, b), m2) == get_flag(p, m2),
{
    assert(((p | m1) & m2 == p & m2) && ((p & !m1) & m2 == p & m2)) by (bit_vector)
        requires
            m1 & m2 == 0,
    ;
}

/// Setting a flag leaves exactly that flag with the requested value.
pub proof fn lemma_flag_same(p: u8, m: u8, b: bool)
    requires
        m != 0,
    ensures
        get_flag(set_flag(p, m, b), m) == b,
{
    assert(((p | m) & m != 0) && ((p & !m) & m == 0)) by (bit_vector)
        requires
            m != 0,
    ;
}

/// The flag masks are pairwise disjoint single bits.
pub proof fn lemma_flag_masks_disjoint()
    ensures
        FLAG_CARRY & FLAG_ZERO == 0,
        FLAG_CARRY & FLAG_INTERRUPT == 0,
        FLAG_CARRY & FLAG_DECIMAL == 0,
        FLAG_CARRY & FLAG_BREAK == 0,
        FLAG_CARRY & FLAG_UNUSED == 0,
        FLAG_CARRY & FLAG_OVERFLOW == 0,
        FLAG_CARRY & FLAG_NEGATIVE == 0,
        FLAG_ZERO & FLAG_CARRY == 0,
        FLAG_ZERO & FLAG_INTERRUPT == 0,
        FLAG_ZERO & FLAG_DECIMAL == 0,
        FLAG_ZERO & FLAG_BREAK == 0,
        FLAG_ZERO & FLAG_UNUSED == 0,
        FLAG_ZERO & FLAG_OVERFLOW == 0,
        FLAG_ZERO & FLAG_NEGATIVE == 0,
        FLAG_INTERRUPT & FLAG_CARRY == 0,
        FLAG_INTERRUPT & FLAG_ZERO == 0,
        FLAG_INTERRUPT & FLAG_DECIMAL == 0,
        FLAG_INTERRUPT & FLAG_BREAK == 0,
        FLAG_INTERRUPT & FLAG_UNUSED == 0,
        FLAG_INTERRUPT & FLAG_OVERFLOW == 0,
        FLAG_INTERRUPT & FLAG_NEGATIVE == 0,
        FLAG_DECIMAL & FLAG_CARRY == 0,
        FLAG_DECIMAL & FLAG_ZERO == 0,
        FLAG_DECIMAL & FLAG_INTERRUPT == 0,
        FLAG_DECIMAL & FLAG_BREAK == 0,
        FLAG_DECIMAL & FLAG_UNUSED == 0,
        FLAG_DECIMAL & FLAG_OVERFLOW == 0,
        FLAG_DECIMAL & FLAG_NEGATIVE == 0,
        FLAG_BREAK & FLAG_CARRY == 0,
        FLAG_BREAK & FLAG_ZERO == 0,
        FLAG_BREAK & FLAG_INTERRUPT == 0,
        FLAG_BREAK & FLAG_DECIMAL == 0,
        FLAG_BREAK & FLAG_UNUSED == 0,
        FLAG_BREAK & FLAG_OVERFLOW == 0,
        FLAG_BREAK & FLAG_NEGATIVE == 0,
        FLAG_UNUSED & FLAG_CARRY == 0,
        FLAG_UNUSED & FLAG_ZERO == 0,
        FLAG_UNUSED & FLAG_INTERRUPT == 0,
        FLAG_UNUSED & FLAG_DECIMAL == 0,
        FLAG_UNUSED & FLAG_BREAK == 0,
        FLAG_UNUSED & FLAG_OVERFLOW == 0,
        FLAG_UNUSED & FLAG_NEGATIVE == 0,
        FLAG_OVERFLOW & FLAG_CARRY == 0,
        FLAG_OVERFLOW & FLAG_ZERO == 0,
        FLAG_OVERFLOW & FLAG_INTERRUPT == 0,
        FLAG_OVERFLOW & FLAG_DECIMAL == 0,
        FLAG_OVERFLOW & FLAG_BREAK == 0,
        FLAG_OVERFLOW & FLAG_UNUSED == 0,
        FLAG_OVERFLOW & FLAG_NEGATIVE == 0,
        FLAG_NEGATIVE & FLAG_CARRY == 0,
        FLAG_NEGATIVE & FLAG_ZERO == 0,
        FLAG_NEGATIVE & FLAG_INTERRUPT == 0,
        FLAG_NEGATIVE & FLAG_DECIMAL == 0,
        FLAG_NEGATIVE & FLAG_BREAK == 0,
        FLAG_NEGATIVE & FLAG_UNUSED == 0,
        FLAG_NEGATIVE & FLAG_OVERFLOW == 0,
        FLAG_CARRY != 0,
        FLAG_ZERO != 0,
        FLAG_INTERRUPT != 0,
        FLAG_DECIMAL != 0,
        FLAG_BREAK != 0,
        FLAG_UNUSED != 0,
        FLAG_OVERFLOW != 0,
        FLAG_NEGATIVE != 0,
{
    assert((0x01u8 & 0x02u8 == 0)
        && (0x01u8 & 0x04u8 == 0)
        && (0x01u8 & 0x08u8 == 0)
        && (0x01u8 & 0x10u8 == 0)
        && (0x01u8 & 0x20u8 == 0)
        && (0x01u8 & 0x40u8 == 0)
        && (0x01u8 & 0x80u8 == 0)
        && (0x02u8 & 0x01u8 == 0)
        && (0x02u8 & 0x04u8 == 0)
        && (0x02u8 & 0x08u8 == 0)
        && (0x02u8 & 0x10u8 == 0)
        && (0x02u8 & 0x20u8 == 0)
        && (0x02u8 & 0x40u8 == 0)
        && (0x02u8 & 0x80u8 == 0)
        && (0x04u8 & 0x01u8 == 0)
        && (0x04u8 & 0x02u8 == 0)
        && (0x04u8 & 0x08u8 == 0)
        && (0x04u8 & 0x10u8 == 0)
        && (0x04u8 & 0x20u8 == 0)
        && (0x04u8 & 0x40u8 == 0)
        && (0x04u8 & 0x80u8 == 0)
        && (0x08u8 & 0x01u8 == 0)
        && (0x08u8 & 0x02u8 == 0)
        && (0x08u8 & 0x04u8 == 0)
        && (0x08u8 & 0x10u8 == 0)
        && (0x08u8 & 0x20u8 == 0)
        && (0x08u8 & 0x40u8 == 0)
        && (0x08u8 & 0x80u8 == 0)
        && (0x10u8 & 0x01u8 == 0)
        && (0x10u8 & 0x02u8 == 0)
        && (0x10u8 & 0x04u8 == 0)
        && (0x10u8 & 0x08u8 == 0)
        && (0x10u8 & 0x20u8 == 0)
        && (0x10u8 & 0x40u8 == 0)
        && (0x10u8 & 0x80u8 == 0)
        && (0x20u8 & 0x01u8 == 0)
        && (0x20u8 & 0x02u8 == 0)
        && (0x20u8 & 0x04u8 == 0)
        && (0x20u8 & 0x08u8 == 0)
        && (0x20u8 & 0x10u8 == 0)
        && (0x20u8 & 0x40u8 == 0)
        && (0x20u8 & 0x80u8 == 0)
        && (0x40u8 & 0x01u8 == 0)
        && (0x40u8 & 0x02u8 == 0)
        && (0x40u8 & 0x04u8 == 0)
        && (0x40u8 & 0x08u8 == 0)
        && (0x40u8 & 0x10u8 == 0)
        && (0x40u8 & 0x20u8 == 0)
        && (0x40u8 & 0x80u8 == 0)
        && (0x80u8 & 0x01u8 == 0)
        && (0x80u8 & 0x02u8 == 0)
        && (0x80u8 & 0x04u8 == 0)
        && (0x80u8 & 0x08u8 == 0)
        && (0x80u8 & 0x10u8 == 0)
        && (0x80u8 & 0x20u8 == 0)
        && (0x80u8 & 0x40u8 == 0)) by (bit_vector);
}

/// Every operation that records a result through `set_zn` - the loads,
/// transfers, pulls, increments, decrements, shifts and ALU operations -
/// sets Z exactly when the value is zero and N exactly when bit 7 of the
/// value is set, and leaves the other six flags alone.
pub proof fn lemma_zn_flags(p: u8, v: u8)
    ensures
        get_flag(set_zn(p, v), FLAG_ZERO) == (v == 0),
        get_flag(set_zn(p, v), FLAG_NEGATIVE) == (v >= 0x80),
        get_flag(set_zn(p, v), FLAG_CARRY) == get_flag(p, FLAG_CARRY),
        get_flag(set_zn(p, v), FLAG_INTERRUPT) == get_flag(p, FLAG_INTERRUPT),
        get_flag(set_zn(p, v), FLAG_DECIMAL) == get_flag(p, FLAG_DECIMAL),
        get_flag(set_zn(p, v), FLAG_BREAK) == get_flag(p, FLAG_BREAK),
        get_flag(set_zn(p, v), FLAG_UNUSED) == get_flag(p, FLAG_UNUSED),
        get_flag(set_zn(p, v), FLAG_OVERFLOW) == get_flag(p, FLAG_OVERFLOW),
{
    lemma_flag_masks_disjoint();
    let p1 = set_flag(p, FLAG_ZERO, v == 0);
    lemma_flag_same(p1, FLAG_NEGATIVE, v >= 0x80);
    lemma_flag_same(p, FLAG_ZERO, v == 0);
    lemma_flag_other(p1, FLAG_NEGATIVE, v >= 0x80, FLAG_ZERO);
    lemma_flag_other(p, FLAG_ZERO, v == 0, FLAG_NEGATIVE);
    lemma_flag_other(p, FLAG_ZERO, v == 0, FLAG_CARRY);
    lemma_flag_other(p1, FLAG_NEGATIVE, v >= 0x80, FLAG_CARRY);
    lemma_flag_other(p, FLAG_ZERO, v == 0, FLAG_INTERRUPT);
    lemma_flag_other(p1, FLAG_NEGATIVE, v >= 0x80, FLAG_INTERRUPT);
    lemma_flag_other(p, FLAG_ZERO, v == 0, FLAG_DECIMAL);
    lemma_flag_other(p1, FLAG_NEGATIVE, v >= 0x80, FLAG_DECIMAL);
    lemma_flag_other(p, FLAG_ZERO, v == 0, FLAG_BREAK);
    lemma_flag_other(p1, FLAG_NEGATIVE, v >= 0x80, FLAG_BREAK);
    lemma_flag_other(p, FLAG_ZERO, v == 0, FLAG_UNUSED);
    lemma_flag_other(p1, FLAG_NEGATIVE, v >= 0x80, FLAG_UNUSED);
    lemma_flag_other(p, FLAG_ZERO, v == 0, FLAG_OVERFLOW);
    lemma_flag_other(p1, FLAG_NEGATIVE, v >= 0x80, FLAG_OVERFLOW);
}

/// Binary-mode ADC (D = 0): the result is `(A + M + C) mod 256`, the carry
/// flag records `A + M + C > 255`, the overflow flag records
/// `(!(A ^ M) & (A ^ r) & 0x80) != 0`, and Z and N reflect the result.
pub proof fn lemma_adc_binary(s: CpuV, m: u8)
    requires
        !get_flag(s.p, FLAG_DECIMAL),
    ensures
        ({
            let r = apply_adc(s, m);
            let c: int = if get_flag(s.p, FLAG_CARRY) {
                1int
            } else {
                0int
            };
            &&& r.a == (s.a + m + c) % 256
            &&& get_flag(r.p, FLAG_CARRY) == (s.a + m + c > 255)
            &&& get_flag(r.p, FLAG_OVERFLOW) == ((!(s.a ^ m) & (s.a ^ r.a) & 0x80) != 0)
            &&& get_flag(r.p, FLAG_ZERO) == (r.a == 0)
            &&& get_flag(r.p, FLAG_NEGATIVE) == (r.a >= 0x80)
        }),
{
    lemma_flag_masks_disjoint();
    let c: int = if get_flag(s.p, FLAG_CARRY) {
        1int
    } else {
        0int
    };
    let sum: int = s.a + m + c;
    let result: u8 = ((sum % 256) as u8);
    let v = (!(s.a ^ m) & (s.a ^ result) & 0x80) != 0;
    let p1 = set_flag(s.p, FLAG_CARRY, sum > 0xFF);
    let p2 = set_flag(p1, FLAG_OVERFLOW, v);
    lemma_flag_same(s.p, FLAG_CARRY, sum > 0xFF);
    lemma_flag_other(p1, FLAG_OVERFLOW, v, FLAG_CARRY);
    lemma_flag_same(p1, FLAG_OVERFLOW, v);
    lemma_zn_flags(p2, result);
}

/// Push then pull returns the pushed byte and restores the stack pointer;
/// the only memory change is the byte written into the stack page, and the
/// pair costs two cycles.
pub proof fn lemma_stack_round_trip(s: CpuV, v: u8)
    requires
        s.wf(),
    ensures
        ({
            let s1 = push_spec(s, v);
            let (s2, r) = pull_spec(s1);
            &&& r == v
            &&& s2.sp == s.sp
            &&& s2.pc == s.pc
            &&& s2.a == s.a
            &&& s2.x == s.x
            &&& s2.y == s.y
            &&& s2.p == s.p
            &&& s2.mem == s.mem.update(0x100 + s.sp as int, v)
            &&& s2.cycle == s.cycle + 2
        }),
{
}

/// The indirect `JMP` page-wrap quirk: when the operand pointer's low byte
/// is $FF, the target's high byte is fetched from offset $00 of the *same*
/// page, not from the following page.
pub proof fn lemma_jmp_indirect_page_wrap(s: CpuV)
    requires
        abs_operand(s) % 256 == 0xFF,
    ensures
        spec_same_page_inc(abs_operand(s)) == (abs_operand(s) / 256) * 256,
        jmp_ind_step(s).pc == spec_mk16(
            rd(s, abs_operand(s)),
            rd(s, ((abs_operand(s) / 256) * 256) as u16),
        ),
{
}

/// The documented cycle cost of the instruction at PC in state `s`:
/// the base count from the 6502 data sheet, plus one for an indexed read
/// crossing a page, plus one for a taken branch and one more when the
/// branch target lies on a different page.
pub open spec fn instruction_cycles(s: CpuV) -> int {
    let f = fetched(s);
    match rd(s, s.pc) {
        0x00u8 => 7int,
        0x01u8 => 6int,
        0x05u8 => 3int,
        0x06u8 => 5int,
        0x08u8 => 3int,
        0x09u8 => 2int,
        0x0Au8 => 2int,
        0x0Du8 => 4int,
        0x0Eu8 => 6int,
        0x10u8 => 2int + (if !get_flag(s.p, FLAG_NEGATIVE) {
            1 + (if page_crossed(spec_inc16(f.pc), spec_add16(spec_inc16(f.pc), spec_ext16(rd(f, f.pc)))) {
                1int
            } else {
                0int
            })
        } else {
            0int
        }),
        0x11u8 => 5int + (if page_crossed(indy_base(f), eff_addr(f, Mode::IndirectY)) {
            1int
        } else {
            0int
        }),
        0x15u8 => 4int,
        0x16u8 => 6int,
        0x18u8 => 2int,
        0x19u8 => 4int + (if page_crossed(abs_operand(f), eff_addr(f, Mode::AbsoluteY)) {
            1int
        } else {
            0int
        }),
        0x1Du8 => 4int + (if page_crossed(abs_operand(f), eff_addr(f, Mode::AbsoluteX)) {
            1int
        } else {
            0int
        }),
        0x1Eu8 => 7int,
        0x20u8 => 6int,
        0x21u8 => 6int,
        0x24u8 => 3int,
        0x25u8 => 3int,
        0x26u8 => 5int,
        0x28u8 => 4int,
        0x29u8 => 2int,
        0x2Au8 => 2int,
        0x2Cu8 => 4int,
        0x2Du8 => 4int,
        0x2Eu8 => 6int,
        0x30u8 => 2int + (if get_flag(s.p, FLAG_NEGATIVE) {
            1 + (if page_crossed(spec_inc16(f.pc), spec_add16(spec_inc16(f.pc), spec_ext16(rd(f, f.pc)))) {
                1int
            } else {
                0int
            })
        } else {
            0int
        }),
        0x31u8 => 5int + (if page_crossed(indy_base(f), eff_addr(f, Mode::IndirectY)) {
            1int
        } else {
            0int
        }),
        0x35u8 => 4int,
        0x36u8 => 6int,
        0x38u8 => 2int,
        0x39u8 => 4int + (if page_crossed(abs_operand(f), eff_addr(f, Mode::AbsoluteY)) {
            1int
        } else {
            0int
        }),
        0x3Du8 => 4int + (if page_crossed(abs_operand(f), eff_addr(f, Mode::AbsoluteX)) {
            1int
        } else {
            0int
        }),
        0x3Eu8 => 7int,
        0x40u8 => 6int,
        0x41u8 => 6int,
        0x45u8 => 3int,
        0x46u8 => 5int,
        0x48u8 => 3int,
        0x49u8 => 2int,
        0x4Au8 => 2int,
        0x4Cu8 => 3int,
        0x4Du8 => 4int,
        0x4Eu8 => 6int,
        0x50u8 => 2int + (if !get_flag(s.p, FLAG_OVERFLOW) {
            1 + (if page_crossed(spec_inc16(f.pc), spec_add16(spec_inc16(f.pc), spec_ext16(rd(f, f.pc)))) {
                1int
            } else {
                0int
            })
        } else {
            0int
        }),
        0x51u8 => 5int + (if page_crossed(indy_base(f), eff_addr(f, Mode::IndirectY)) {
            1int
        } else {
            0int
        }),
        0x55u8 => 4int,
        0x56u8 => 6int,
        0x58u8 => 2int,
        0x59u8 => 4int + (if page_crossed(abs_operand(f), eff_addr(f, Mode::AbsoluteY)) {
            1int
        } else {
            0int
        }),
        0x5Du8 => 4int + (if page_crossed(abs_operand(f), eff_addr(f, Mode::AbsoluteX)) {
            1int
        } else {
            0int
        }),
        0x5Eu8 => 7int,
        0x60u8 => 6int,
        0x61u8 => 6int,
        0x65u8 => 3int,
        0x66u8 => 5int,
        0x68u8 => 4int,
        0x69u8 => 2int,
        0x6Au8 => 2int,
        0x6Cu8 => 5int,
        0x6Du8 => 4int,
        0x6Eu8 => 6int,
        0x70u8 => 2int + (if get_flag(s.p, FLAG_OVERFLOW) {
            1 + (if page_crossed(spec_inc16(f.pc), spec_add16(spec_inc16(f.pc), spec_ext16(rd(f, f.pc)))) {
                1int
            } else {
                0int
            })
        } else {
            0int
        }),
        0x71u8 => 5int + (if page_crossed(indy_base(f), eff_addr(f, Mode::IndirectY)) {
            1int
        } else {
            0int
        }),
        0x75u8 => 4int,
        0x76u8 => 6int,
        0x78u8 => 2int,
        0x79u8 => 4int + (if page_crossed(abs_operand(f), eff_addr(f, Mode::AbsoluteY)) {
            1int
        } else {
            0int
        }),
        0x7Du8 => 4int + (if page_crossed(abs_operand(f), eff_addr(f, Mode::AbsoluteX)) {
            1int
        } else {
            0int
        }),
        0x7Eu8 => 7int,
        0x81u8 => 6int,
        0x84u8 => 3int,
        0x85u8 => 3int,
        0x86u8 => 3int,
        0x88u8 => 2int,
        0x8Au8 => 2int,
        0x8Cu8 => 4int,
        0x8Du8 => 4int,
        0x8Eu8 => 4int,
        0x90u8 => 2int + (if !get_flag(s.p, FLAG_CARRY) {
            1 + (if page_crossed(spec_inc16(f.pc), spec_add16(spec_inc16(f.pc), spec_ext16(rd(f, f.pc)))) {
                1int
            } else {
                0int
            })
        } else {
            0int
        }),
        0x91u8 => 6int,
        0x94u8 => 4int,
        0x95u8 => 4int,
        0x96u8 => 4int,
        0x98u8 => 2int,
        0x99u8 => 5int,
        0x9Au8 => 2int,
        0x9Du8 => 5int,
        0xA0u8 => 2int,
        0xA1u8 => 6int,
        0xA2u8 => 2int,
        0xA4u8 => 3int,
        0xA5u8 => 3int,
        0xA6u8 => 3int,
        0xA8u8 => 2int,
        0xA9u8 => 2int,
        0xAAu8 => 2int,
        0xACu8 => 4int,
        0xADu8 => 4int,
        0xAEu8 => 4int,
        0xB0u8 => 2int + (if get_flag(s.p, FLAG_CARRY) {
            1 + (if page_crossed(spec_inc16(f.pc), spec_add16(spec_inc16(f.pc), spec_ext16(rd(f, f.pc)))) {
                1int
            } else {
                0int
            })
        } else {
            0int
        }),
        0xB1u8 => 5int + (if page_crossed(indy_base(f), eff_addr(f, Mode::IndirectY)) {
            1int
        } else {
            0int
        }),
        0xB4u8 => 4int,
        0xB5u8 => 4int,
        0xB6u8 => 4int,
        0xB8u8 => 2int,
        0xB9u8 => 4int + (if page_crossed(abs_operand(f), eff_addr(f, Mode::AbsoluteY)) {
            1int
        } else {
            0int
        }),
        0xBAu8 => 2int,
        0xBCu8 => 4int + (if page_crossed(abs_operand(f), eff_addr(f, Mode::AbsoluteX)) {
            1int
        } else {
            0int
        }),
        0xBDu8 => 4int + (if page_crossed(abs_operand(f), eff_addr(f, Mode::AbsoluteX)) {
            1int
        } else {
            0int
        }),
        0xBEu8 => 4int + (if page_crossed(abs_operand(f), eff_addr(f, Mode::AbsoluteY)) {
            1int
        } else {
            0int
        }),
        0xC0u8 => 2int,
        0xC1u8 => 6int,
        0xC4u8 => 3int,
        0xC5u8 => 3int,
        0xC6u8 => 5int,
        0xC8u8 => 2int,
        0xC9u8 => 2int,
        0xCAu8 => 2int,
        0xCCu8 => 4int,
        0xCDu8 => 4int,
        0xCEu8 => 6int,
        0xD0u8 => 2int + (if !get_flag(s.p, FLAG_ZERO) {
            1 + (if page_crossed(spec_inc16(f.pc), spec_add16(spec_inc16(f.pc), spec_ext16(rd(f, f.pc)))) {
                1int
            } else {
                0int
            })
        } else {
            0int
        }),
        0xD1u8 => 5int + (if page_crossed(indy_base(f), eff_addr(f, Mode::IndirectY)) {
            1int
        } else {
            0int
        }),
        0xD5u8 => 4int,
        0xD6u8 => 6int,
        0xD8u8 => 2int,
        0xD9u8 => 4int + (if page_crossed(abs_operand(f), eff_addr(f, Mode::AbsoluteY)) {
            1int
        } else {
            0int
        }),
        0xDDu8 => 4int + (if page_crossed(abs_operand(f), eff_addr(f, Mode::AbsoluteX)) {
            1int
        } else {
            0int
        }),
        0xDEu8 => 7int,
        0xE0u8 => 2int,
        0xE1u8 => 6int,
        0xE4u8 => 3int,
        0xE5u8 => 3int,
        0xE6u8 => 5int,
        0xE8u8 => 2int,
        0xE9u8 => 2int,
        0xEAu8 => 2int,
        0xECu8 => 4int,
        0xEDu8 => 4int,
        0xEEu8 => 6int,
        0xF0u8 => 2int + (if get_flag(s.p, FLAG_ZERO) {
            1 + (if page_crossed(spec_inc16(f.pc), spec_add16(spec_inc16(f.pc), spec_ext16(rd(f, f.pc)))) {
                1int
            } else {
                0int
            })
        } else {
            0int
        }),
        0xF1u8 => 5int + (if page_crossed(indy_base(f), eff_addr(f, Mode::IndirectY)) {
            1int
        } else {
            0int
        }),
        0xF5u8 => 4int,
        0xF6u8 => 6int,
        0xF8u8 => 2int,
        0xF9u8 => 4int + (if page_crossed(abs_operand(f), eff_addr(f, Mode::AbsoluteY)) {
            1int
        } else {
            0int
        }),
        0xFDu8 => 4int + (if page_crossed(abs_operand(f), eff_addr(f, Mode::AbsoluteX)) {
            1int
        } else {
            0int
        }),
        0xFEu8 => 7int,
        _ => 1int,
    }
}

/// Every documented instruction consumes exactly the cycle count of the
/// published table: `step_spec` advances the cycle counter by
/// `instruction_cycles`, never one more or less.
pub proof fn lemma_step_cycle_table(s: CpuV)
    requires
        is_documented(rd(s, s.pc)),
    ensures
        step_spec(s).cycle == s.cycle + instruction_cycles(s),
{
}

} // verus!
