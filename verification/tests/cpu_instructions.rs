//! Instruction-level behavior of the CPU core: flags, cycles, stack,
//! branches, jumps, and the documented quirks.

use emurs::cpu::CPU;
use emurs::errors::EmuError;
use emurs::ram::RAM;

const FLAG_CARRY: u8 = 0x01;
const FLAG_ZERO: u8 = 0x02;
const FLAG_INTERRUPT: u8 = 0x04;
const FLAG_DECIMAL: u8 = 0x08;
const FLAG_OVERFLOW: u8 = 0x40;
const FLAG_NEGATIVE: u8 = 0x80;

/// A CPU over 64 KiB with `program` loaded at `addr` and PC set there.
fn cpu_with(addr: u16, program: &[u8]) -> CPU {
    let mut ram = RAM::new(0x10000);
    let mut a = addr;
    for &b in program {
        ram.write(a, b);
        a = a.wrapping_add(1);
    }
    let mut cpu = CPU::new(ram, 0);
    cpu.registers.pc = addr;
    cpu
}

#[test]
fn reset_loads_vector_and_stack() {
    let mut ram = RAM::new(0x10000);
    ram.write(0xFFFC, 0x00);
    ram.write(0xFFFD, 0xC0);
    let mut cpu = CPU::new(ram, 0);
    cpu.reset();
    assert_eq!(cpu.registers.pc, 0xC000);
    assert_eq!(cpu.registers.s, 0xFD);
    assert!(cpu.registers.p & FLAG_INTERRUPT != 0);
    assert_eq!(cpu.registers.a, 0);
    assert_eq!(cpu.registers.x, 0);
    assert_eq!(cpu.registers.y, 0);
    assert_eq!(cpu.cycle, 7);
}

#[test]
fn lda_sta_simple_program() {
    // LDA #$42; STA $10.
    let mut cpu = cpu_with(0x8000, &[0xA9, 0x42, 0x85, 0x10, 0x00]);
    let c1 = cpu.step().unwrap();
    let c2 = cpu.step().unwrap();
    assert_eq!(cpu.registers.a, 0x42);
    assert_eq!(cpu.memory.read(0x0010), 0x42);
    assert_eq!(cpu.registers.p & FLAG_ZERO, 0);
    assert_eq!(cpu.registers.p & FLAG_NEGATIVE, 0);
    assert_eq!(c1 + c2, 5);
}

#[test]
fn lda_sets_zero_and_negative() {
    let mut cpu = cpu_with(0x8000, &[0xA9, 0x00, 0xA9, 0x80, 0xA9, 0x7F]);
    cpu.step().unwrap();
    assert!(cpu.registers.p & FLAG_ZERO != 0);
    assert!(cpu.registers.p & FLAG_NEGATIVE == 0);
    cpu.step().unwrap();
    assert!(cpu.registers.p & FLAG_ZERO == 0);
    assert!(cpu.registers.p & FLAG_NEGATIVE != 0);
    cpu.step().unwrap();
    assert!(cpu.registers.p & FLAG_ZERO == 0);
    assert!(cpu.registers.p & FLAG_NEGATIVE == 0);
}

#[test]
fn transfers_set_zero_and_negative() {
    // LDX #$FF; TXA -> N set; LDX #$00; TXA -> Z set.
    let mut cpu = cpu_with(0x8000, &[0xA2, 0xFF, 0x8A, 0xA2, 0x00, 0x8A]);
    cpu.step().unwrap();
    cpu.step().unwrap();
    assert!(cpu.registers.p & FLAG_NEGATIVE != 0);
    cpu.step().unwrap();
    cpu.step().unwrap();
    assert!(cpu.registers.p & FLAG_ZERO != 0);
}

#[test]
fn adc_binary_carry_and_overflow() {
    // ADC #$80 with A=$80: result 0, carry out, signed overflow.
    let mut cpu = cpu_with(0x8000, &[0x69, 0x80]);
    cpu.registers.a = 0x80;
    cpu.step().unwrap();
    assert_eq!(cpu.registers.a, 0x00);
    assert!(cpu.registers.p & FLAG_CARRY != 0);
    assert!(cpu.registers.p & FLAG_OVERFLOW != 0);
    assert!(cpu.registers.p & FLAG_ZERO != 0);

    // ADC #$50 with A=$50: result $A0, no carry, signed overflow, negative.
    let mut cpu = cpu_with(0x8000, &[0x69, 0x50]);
    cpu.registers.a = 0x50;
    cpu.step().unwrap();
    assert_eq!(cpu.registers.a, 0xA0);
    assert!(cpu.registers.p & FLAG_CARRY == 0);
    assert!(cpu.registers.p & FLAG_OVERFLOW != 0);
    assert!(cpu.registers.p & FLAG_NEGATIVE != 0);

    // Carry-in participates: A=$01, C=1, ADC #$01 -> $03.
    let mut cpu = cpu_with(0x8000, &[0x69, 0x01]);
    cpu.registers.a = 0x01;
    cpu.registers.p = FLAG_CARRY;
    cpu.step().unwrap();
    assert_eq!(cpu.registers.a, 0x03);
    assert!(cpu.registers.p & FLAG_CARRY == 0);
}

#[test]
fn adc_decimal_adjust() {
    // D=1, A=$15, C=0, ADC #$27: binary sum $3C, low-nibble adjust +$06,
    // giving $42 with no carry and no overflow.
    let mut cpu = cpu_with(0x8000, &[0x69, 0x27]);
    cpu.registers.a = 0x15;
    cpu.registers.p = FLAG_DECIMAL;
    cpu.step().unwrap();
    assert_eq!(cpu.registers.a, 0x42);
    assert!(cpu.registers.p & FLAG_CARRY == 0);
    assert!(cpu.registers.p & FLAG_OVERFLOW == 0);
}

#[test]
fn sbc_binary_borrow() {
    // SEC; SBC #$10 with A=$50 -> $40, carry still set (no borrow).
    let mut cpu = cpu_with(0x8000, &[0x38, 0xE9, 0x10]);
    cpu.registers.a = 0x50;
    cpu.step().unwrap();
    cpu.step().unwrap();
    assert_eq!(cpu.registers.a, 0x40);
    assert!(cpu.registers.p & FLAG_CARRY != 0);

    // SEC; SBC #$60 with A=$50 -> $F0 with borrow (carry clear).
    let mut cpu = cpu_with(0x8000, &[0x38, 0xE9, 0x60]);
    cpu.registers.a = 0x50;
    cpu.step().unwrap();
    cpu.step().unwrap();
    assert_eq!(cpu.registers.a, 0xF0);
    assert!(cpu.registers.p & FLAG_CARRY == 0);
}

#[test]
fn compare_sets_flags() {
    // CMP #$30 with A=$40: carry (A >= M), not zero.
    let mut cpu = cpu_with(0x8000, &[0xC9, 0x30]);
    cpu.registers.a = 0x40;
    cpu.step().unwrap();
    assert!(cpu.registers.p & FLAG_CARRY != 0);
    assert!(cpu.registers.p & FLAG_ZERO == 0);

    // CMP #$40 with A=$40: carry and zero.
    let mut cpu = cpu_with(0x8000, &[0xC9, 0x40]);
    cpu.registers.a = 0x40;
    cpu.step().unwrap();
    assert!(cpu.registers.p & FLAG_CARRY != 0);
    assert!(cpu.registers.p & FLAG_ZERO != 0);
}

#[test]
fn stack_push_pull_round_trip() {
    // LDA #$37; PHA; LDA #$00; PLA: A is back and S is unchanged.
    let mut cpu = cpu_with(0x8000, &[0xA9, 0x37, 0x48, 0xA9, 0x00, 0x68]);
    cpu.registers.s = 0xFD;
    cpu.step().unwrap();
    cpu.step().unwrap();
    assert_eq!(cpu.registers.s, 0xFC);
    cpu.step().unwrap();
    assert_eq!(cpu.registers.a, 0x00);
    cpu.step().unwrap();
    assert_eq!(cpu.registers.a, 0x37);
    assert_eq!(cpu.registers.s, 0xFD);
}

#[test]
fn branch_taken_page_cross_cycles() {
    // At $80FD: BNE +5 with Z=0. Target $8104 on the next page:
    // 2 (base) + 1 (taken) + 1 (page cross) = 4 cycles.
    let mut cpu = cpu_with(0x80FD, &[0xD0, 0x05]);
    let c = cpu.step().unwrap();
    assert_eq!(cpu.registers.pc, 0x8104);
    assert_eq!(c, 4);

    // Not taken: 2 cycles, PC falls through.
    let mut cpu = cpu_with(0x80FD, &[0xD0, 0x05]);
    cpu.registers.p = FLAG_ZERO;
    let c = cpu.step().unwrap();
    assert_eq!(cpu.registers.pc, 0x80FF);
    assert_eq!(c, 2);

    // Taken without page cross: 3 cycles.
    let mut cpu = cpu_with(0x8000, &[0xD0, 0x05]);
    let c = cpu.step().unwrap();
    assert_eq!(cpu.registers.pc, 0x8007);
    assert_eq!(c, 3);
}

#[test]
fn branch_backwards() {
    // BEQ -2 with Z set loops back onto the instruction itself.
    let mut cpu = cpu_with(0x8010, &[0xF0, 0xFE]);
    cpu.registers.p = FLAG_ZERO;
    cpu.step().unwrap();
    assert_eq!(cpu.registers.pc, 0x8010);
}

#[test]
fn jsr_rts_round_trip() {
    // At $8000: JSR $1234; at $1234: RTS. Afterwards PC is $8003 and S is
    // back to its pre-JSR value.
    let mut cpu = cpu_with(0x8000, &[0x20, 0x34, 0x12]);
    cpu.memory.write(0x1234, 0x60);
    cpu.registers.s = 0xFD;
    let c1 = cpu.step().unwrap();
    assert_eq!(cpu.registers.pc, 0x1234);
    assert_eq!(cpu.registers.s, 0xFB);
    assert_eq!(c1, 6);
    let c2 = cpu.step().unwrap();
    assert_eq!(cpu.registers.pc, 0x8003);
    assert_eq!(cpu.registers.s, 0xFD);
    assert_eq!(c2, 6);
}

#[test]
fn jmp_indirect_page_wrap_quirk() {
    // JMP ($10FF): the high byte comes from $1000, not $1100.
    let mut cpu = cpu_with(0x8000, &[0x6C, 0xFF, 0x10]);
    cpu.memory.write(0x10FF, 0x34);
    cpu.memory.write(0x1000, 0x12);
    cpu.memory.write(0x1100, 0x99);
    cpu.step().unwrap();
    assert_eq!(cpu.registers.pc, 0x1234);
}

#[test]
fn documented_cycle_counts() {
    // (program bytes, pre-X, expected cycles of the first step)
    let cases: Vec<(Vec<u8>, u8, u32)> = vec![
        (vec![0xEA], 0, 2),              // NOP
        (vec![0xA9, 0x01], 0, 2),        // LDA #
        (vec![0xA5, 0x10], 0, 3),        // LDA zp
        (vec![0xAD, 0x00, 0x20], 0, 4),  // LDA abs
        (vec![0xBD, 0xFF, 0x20], 1, 5),  // LDA abs,X crossing a page
        (vec![0xBD, 0x00, 0x20], 1, 4),  // LDA abs,X without a cross
        (vec![0x9D, 0xFF, 0x20], 1, 5),  // STA abs,X always pays the cycle
        (vec![0x06, 0x10], 0, 5),        // ASL zp
        (vec![0x1E, 0x00, 0x20], 1, 7),  // ASL abs,X
        (vec![0x48], 0, 3),              // PHA
        (vec![0x68], 0, 4),              // PLA
        (vec![0x08], 0, 3),              // PHP
        (vec![0x28], 0, 4),              // PLP
        (vec![0x4C, 0x00, 0x90], 0, 3),  // JMP abs
        (vec![0x6C, 0x00, 0x20], 0, 5),  // JMP ind
        (vec![0x00], 0, 7),              // BRK
        (vec![0x40], 0, 6),              // RTI
        (vec![0xAA], 0, 2),              // TAX
        (vec![0x0A], 0, 2),              // ASL A
        (vec![0xA1, 0x10], 0, 6),        // LDA (ind,X)
        (vec![0xB1, 0x10], 0, 5),        // LDA (ind),Y without a cross
    ];
    for (program, x, expected) in cases {
        let mut cpu = cpu_with(0x8000, &program);
        cpu.registers.x = x;
        let c = cpu.step().unwrap();
        assert_eq!(c, expected, "opcode {:02X}", program[0]);
    }
}

#[test]
fn indexed_indirect_addressing() {
    // LDA ($20,X) with X=4: pointer at $24/$25 -> $3000.
    let mut cpu = cpu_with(0x8000, &[0xA1, 0x20]);
    cpu.registers.x = 4;
    cpu.memory.write(0x24, 0x00);
    cpu.memory.write(0x25, 0x30);
    cpu.memory.write(0x3000, 0x5A);
    cpu.step().unwrap();
    assert_eq!(cpu.registers.a, 0x5A);

    // LDA ($20),Y with Y=4: base $3000 -> $3004.
    let mut cpu = cpu_with(0x8000, &[0xB1, 0x20]);
    cpu.registers.y = 4;
    cpu.memory.write(0x20, 0x00);
    cpu.memory.write(0x21, 0x30);
    cpu.memory.write(0x3004, 0xA5);
    cpu.step().unwrap();
    assert_eq!(cpu.registers.a, 0xA5);
}

#[test]
fn rmw_operates_on_memory() {
    // ASL $10 with $10 = $81: result $02, carry out of bit 7.
    let mut cpu = cpu_with(0x8000, &[0x06, 0x10]);
    cpu.memory.write(0x10, 0x81);
    cpu.step().unwrap();
    assert_eq!(cpu.memory.read(0x10), 0x02);
    assert!(cpu.registers.p & FLAG_CARRY != 0);

    // INC $10 wraps $FF to $00 and sets Z.
    let mut cpu = cpu_with(0x8000, &[0xE6, 0x10]);
    cpu.memory.write(0x10, 0xFF);
    cpu.step().unwrap();
    assert_eq!(cpu.memory.read(0x10), 0x00);
    assert!(cpu.registers.p & FLAG_ZERO != 0);
}

#[test]
fn bit_test_flags() {
    // BIT $10 with $10 = $C0 and A = $0F: Z (no overlap), N, V all set.
    let mut cpu = cpu_with(0x8000, &[0x24, 0x10]);
    cpu.registers.a = 0x0F;
    cpu.memory.write(0x10, 0xC0);
    cpu.step().unwrap();
    assert!(cpu.registers.p & FLAG_ZERO != 0);
    assert!(cpu.registers.p & FLAG_NEGATIVE != 0);
    assert!(cpu.registers.p & FLAG_OVERFLOW != 0);
}

#[test]
fn brk_and_rti() {
    // BRK pushes PC and P and vectors through $FFFE/$FFFF with I set.
    let mut cpu = cpu_with(0x8000, &[0x00]);
    cpu.memory.write(0xFFFE, 0x00);
    cpu.memory.write(0xFFFF, 0x90);
    cpu.memory.write(0x9000, 0x40);  // RTI
    cpu.registers.s = 0xFD;
    cpu.step().unwrap();
    assert_eq!(cpu.registers.pc, 0x9000);
    assert!(cpu.registers.p & FLAG_INTERRUPT != 0);
    // RTI restores P and returns to the byte after the BRK padding.
    cpu.step().unwrap();
    assert_eq!(cpu.registers.pc, 0x8002);
    assert_eq!(cpu.registers.s, 0xFD);
}

#[test]
fn undefined_opcode_is_fatal() {
    let mut cpu = cpu_with(0x8000, &[0x02]);
    assert_eq!(cpu.step(), Err(EmuError::UndefinedOpcode));
}
