//! Arithmetic, logic, shift and compare behaviour, including the
//! documented boundary cases.

use mos6502::cpu;
use mos6502::processor::Processor;
use mos6502::register::{
    Status, StatusRegister, FLAG_CARRY, FLAG_DECIMAL, FLAG_NEGATIVE, FLAG_OVERFLOW, FLAG_UNUSED,
    FLAG_ZERO,
};

fn flags(p: &Processor) -> (bool, bool, bool, bool) {
    let sr = p.registers.sr.0;
    (
        sr & FLAG_NEGATIVE != 0,
        sr & FLAG_OVERFLOW != 0,
        sr & FLAG_ZERO != 0,
        sr & FLAG_CARRY != 0,
    )
}

#[test]
fn adc_signed_overflow_7f_plus_01() {
    let mut p = Processor::new();
    p.registers.a = 0x7f;
    p.registers.sr.clear_flag(Status::Carry);
    p.add_with_carry(0x01);
    assert_eq!(p.registers.a, 0x80);
    let (n, v, z, c) = flags(&p);
    assert!(n);
    assert!(v);
    assert!(!z);
    assert!(!c);
}

#[test]
fn adc_carry_out_ff_plus_01() {
    let mut p = Processor::new();
    p.registers.a = 0xff;
    p.registers.sr.clear_flag(Status::Carry);
    p.add_with_carry(0x01);
    assert_eq!(p.registers.a, 0x00);
    let (n, v, z, c) = flags(&p);
    assert!(!n);
    assert!(!v);
    assert!(z);
    assert!(c);
}

#[test]
fn adc_uses_carry_in() {
    let mut p = Processor::new();
    p.registers.a = 0x10;
    p.registers.sr.set_flag(Status::Carry);
    p.add_with_carry(0x05);
    assert_eq!(p.registers.a, 0x16);
    let (_, _, z, c) = flags(&p);
    assert!(!z);
    assert!(!c);
}

#[test]
fn sbc_borrow_00_minus_01() {
    let mut p = Processor::new();
    p.registers.a = 0x00;
    p.registers.sr.set_flag(Status::Carry);
    p.subtract_with_carry(0x01);
    assert_eq!(p.registers.a, 0xff);
    let (n, v, z, c) = flags(&p);
    assert!(n);
    assert!(!v);
    assert!(!z);
    assert!(!c);
}

#[test]
fn sbc_50_minus_f0_with_carry_set() {
    // SEC; LDA #0x50; SBC #0xF0: the true difference is +96, so the
    // result is 0x60 with a borrow (C=0) and no change of sign bits
    // under the canonical overflow formula.
    let mut p = Processor::new();
    p.registers.sr.set_flag(Status::Carry);
    p.registers.a = 0x50;
    p.subtract_with_carry(0xf0);
    assert_eq!(p.registers.a, 0x60);
    let (n, v, z, c) = flags(&p);
    assert!(!n);
    assert!(!v);
    assert!(!z);
    assert!(!c);
}

#[test]
fn adc_binary_vs_decimal_99_plus_01() {
    // CLD: 0x99 + 0x01 is the plain binary sum 0x9A.
    let mut p = Processor::new();
    p.registers.sr.clear_flag(Status::Decimal);
    p.registers.a = 0x99;
    p.registers.sr.clear_flag(Status::Carry);
    p.add_with_carry(0x01);
    assert_eq!(p.registers.a, 0x9a);

    // SED: 99 + 01 in BCD is 100: the accumulator wraps to 0x00 and
    // the decimal carry comes out.
    let mut q = Processor::new();
    q.registers.sr.set_flag(Status::Decimal);
    q.registers.a = 0x99;
    q.registers.sr.clear_flag(Status::Carry);
    q.add_with_carry(0x01);
    assert_eq!(q.registers.a, 0x00);
    assert!(q.registers.sr.0 & FLAG_CARRY != 0);
}

#[test]
fn adc_decimal_small_digits() {
    // 0x15 + 0x27 in BCD is 0x42.
    let mut p = Processor::new();
    p.registers.sr.set_flag(Status::Decimal);
    p.registers.a = 0x15;
    p.add_with_carry(0x27);
    assert_eq!(p.registers.a, 0x42);
    assert!(p.registers.sr.0 & FLAG_CARRY == 0);
}

#[test]
fn sbc_decimal_42_minus_15() {
    // 0x42 - 0x15 in BCD is 0x27, no borrow.
    let mut p = Processor::new();
    p.registers.sr.set_flag(Status::Decimal);
    p.registers.sr.set_flag(Status::Carry);
    p.registers.a = 0x42;
    p.subtract_with_carry(0x15);
    assert_eq!(p.registers.a, 0x27);
    assert!(p.registers.sr.0 & FLAG_CARRY != 0);
}

#[test]
fn sbc_decimal_with_borrow_out() {
    // 0x10 - 0x20 in BCD borrows: result 0x90, C cleared.
    let mut p = Processor::new();
    p.registers.sr.set_flag(Status::Decimal);
    p.registers.sr.set_flag(Status::Carry);
    p.registers.a = 0x10;
    p.subtract_with_carry(0x20);
    assert_eq!(p.registers.a, 0x90);
    assert!(p.registers.sr.0 & FLAG_CARRY == 0);
}

#[test]
fn asl_of_80_sets_carry_and_zero() {
    // LDA #0x80, ASL A: A=0x00, C=1, Z=1, N=0.
    let mut sr = StatusRegister(FLAG_UNUSED);
    let mut a: u8 = 0x80;
    cpu::shift_left(&mut sr, &mut a);
    assert_eq!(a, 0x00);
    assert!(sr.0 & FLAG_CARRY != 0);
    assert!(sr.0 & FLAG_ZERO != 0);
    assert!(sr.0 & FLAG_NEGATIVE == 0);
}

#[test]
fn lsr_clears_negative() {
    let mut sr = StatusRegister(FLAG_UNUSED | FLAG_NEGATIVE);
    let mut t: u8 = 0x01;
    cpu::shift_right(&mut sr, &mut t);
    assert_eq!(t, 0x00);
    assert!(sr.0 & FLAG_CARRY != 0);
    assert!(sr.0 & FLAG_ZERO != 0);
    assert!(sr.0 & FLAG_NEGATIVE == 0);
}

#[test]
fn rol_shifts_carry_into_bit0() {
    let mut sr = StatusRegister(FLAG_UNUSED | FLAG_CARRY);
    let mut t: u8 = 0x40;
    cpu::rotate_left(&mut sr, &mut t);
    assert_eq!(t, 0x81);
    assert!(sr.0 & FLAG_CARRY == 0);
    assert!(sr.0 & FLAG_NEGATIVE != 0);
}

#[test]
fn ror_shifts_carry_into_bit7() {
    let mut sr = StatusRegister(FLAG_UNUSED | FLAG_CARRY);
    let mut t: u8 = 0x01;
    cpu::rotate_right(&mut sr, &mut t);
    assert_eq!(t, 0x80);
    assert!(sr.0 & FLAG_CARRY != 0);
    assert!(sr.0 & FLAG_NEGATIVE != 0);
}

#[test]
fn rol_then_ror_restores_byte_and_carry() {
    let mut sr = StatusRegister(FLAG_UNUSED);
    let mut t: u8 = 0xa5;
    cpu::rotate_left(&mut sr, &mut t);
    cpu::rotate_right(&mut sr, &mut t);
    assert_eq!(t, 0xa5);
    assert!(sr.0 & FLAG_CARRY == 0, "the original clear carry returns");
}

#[test]
fn compare_orders() {
    let mut sr = StatusRegister(FLAG_UNUSED);
    cpu::compare_u8(&mut sr, 5, 5);
    assert!(sr.0 & FLAG_ZERO != 0);
    assert!(sr.0 & FLAG_CARRY != 0);

    cpu::compare_u8(&mut sr, 4, 5);
    assert!(sr.0 & FLAG_ZERO == 0);
    assert!(sr.0 & FLAG_CARRY == 0);
    assert!(sr.0 & FLAG_NEGATIVE != 0);

    cpu::compare_u8(&mut sr, 6, 5);
    assert!(sr.0 & FLAG_ZERO == 0);
    assert!(sr.0 & FLAG_CARRY != 0);
}

#[test]
fn logical_ops_update_flags() {
    let mut p = Processor::new();
    p.registers.a = 0xf0;
    p.and(0x0f);
    assert_eq!(p.registers.a, 0x00);
    assert!(p.registers.sr.0 & FLAG_ZERO != 0);

    p.registers.a = 0x0f;
    p.or(0x80);
    assert_eq!(p.registers.a, 0x8f);
    assert!(p.registers.sr.0 & FLAG_NEGATIVE != 0);

    p.xor_accumulator(0x8f);
    assert_eq!(p.registers.a, 0x00);
    assert!(p.registers.sr.0 & FLAG_ZERO != 0);
}

#[test]
fn bit_takes_operand_bits() {
    let mut p = Processor::new();
    p.registers.a = 0x01;
    p.bit(0xc0);
    assert!(p.registers.sr.0 & FLAG_NEGATIVE != 0);
    assert!(p.registers.sr.0 & FLAG_OVERFLOW != 0);
    assert!(p.registers.sr.0 & FLAG_ZERO != 0);

    p.registers.a = 0x40;
    p.bit(0x40);
    assert!(p.registers.sr.0 & FLAG_ZERO == 0);
    assert!(p.registers.sr.0 & FLAG_NEGATIVE == 0);
}

#[test]
fn increment_and_decrement_wrap() {
    let mut p = Processor::new();
    p.registers.x = 0xff;
    p.increment_x();
    assert_eq!(p.registers.x, 0x00);
    assert!(p.registers.sr.0 & FLAG_ZERO != 0);

    p.registers.y = 0x00;
    p.decrement_y();
    assert_eq!(p.registers.y, 0xff);
    assert!(p.registers.sr.0 & FLAG_NEGATIVE != 0);

    let mut t: u8 = 0x7f;
    p.increment(&mut t);
    assert_eq!(t, 0x80);
    assert!(p.registers.sr.0 & FLAG_NEGATIVE != 0);

    let mut u: u8 = 0x01;
    p.decrement(&mut u);
    assert_eq!(u, 0x00);
    assert!(p.registers.sr.0 & FLAG_ZERO != 0);
}

#[test]
fn format_bcd_normalises_nibbles() {
    assert_eq!(cpu::format_bcd(0x0a), 0x10);
    assert_eq!(cpu::format_bcd(0x42), 0x42);
    assert_eq!(cpu::format_bcd(0xa0), 0x00);
    assert_eq!(cpu::format_bcd(0x3c), 0x42);
}

#[test]
fn transfers_update_flags_except_txs() {
    let mut p = Processor::new();
    p.registers.a = 0x80;
    p.load_accumulator_in_x();
    assert_eq!(p.registers.x, 0x80);
    assert!(p.registers.sr.0 & FLAG_NEGATIVE != 0);

    p.registers.a = 0x00;
    p.load_accumulator_in_y();
    assert_eq!(p.registers.y, 0x00);
    assert!(p.registers.sr.0 & FLAG_ZERO != 0);

    p.registers.x = 0x42;
    let before = p.registers.sr.0;
    p.load_x_in_stackpointer();
    assert_eq!(p.registers.sp, 0x42);
    assert_eq!(p.registers.sr.0, before, "TXS must not touch the flags");

    p.registers.sp = 0x00;
    p.load_stackpointer_in_x();
    assert_eq!(p.registers.x, 0x00);
    assert!(p.registers.sr.0 & FLAG_ZERO != 0);

    p.registers.x = 0x7f;
    p.load_x_in_accumulator();
    assert_eq!(p.registers.a, 0x7f);
    assert!(p.registers.sr.0 & FLAG_NEGATIVE == 0);

    p.registers.y = 0x90;
    p.load_y_in_accumulator();
    assert_eq!(p.registers.a, 0x90);
    assert!(p.registers.sr.0 & FLAG_NEGATIVE != 0);
}

#[test]
fn decimal_flag_does_not_change_inc_dec() {
    let mut p = Processor::new();
    p.registers.sr.set_flag(Status::Decimal);
    p.registers.x = 0x09;
    p.increment_x();
    assert_eq!(p.registers.x, 0x0a, "INC is binary even in decimal mode");
    assert!(p.registers.sr.0 & FLAG_DECIMAL != 0);
}
