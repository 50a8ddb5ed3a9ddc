//! Whole programs run through `step`, and the stack behaviours.

use mos6502::processor::Processor;
use mos6502::register::{
    Status, FLAG_BREAK, FLAG_CARRY, FLAG_INTERRUPT, FLAG_NEGATIVE, FLAG_UNUSED, FLAG_ZERO,
};

#[test]
fn lda_adc_program() {
    // [LDA #$05, ADC #$03, BRK] at 0x8000: after two steps A=8 and
    // C, Z, N are all clear.
    let mut p = Processor::new();
    p.load_program(&[0xa9, 0x05, 0x69, 0x03, 0x00], 0x8000);
    p.registers.pc = 0x8000;
    p.step();
    assert_eq!(p.registers.a, 0x05);
    p.step();
    assert_eq!(p.registers.a, 0x08);
    let sr = p.registers.sr.0;
    assert_eq!(sr & FLAG_CARRY, 0);
    assert_eq!(sr & FLAG_ZERO, 0);
    assert_eq!(sr & FLAG_NEGATIVE, 0);
    assert_eq!(p.registers.pc, 0x8004);
}

#[test]
fn count_to_five_loop() {
    // LDX #0; loop: INX; CPX #5; BNE loop; BRK — ends with X=5, Z=1, C=1.
    let mut p = Processor::new();
    p.load_program(&[0xa2, 0x00, 0xe8, 0xe0, 0x05, 0xd0, 0xfb, 0x00], 0x8000);
    p.registers.pc = 0x8000;
    // One LDX, then five rounds of INX; CPX; BNE.
    for _ in 0..16 {
        p.step();
    }
    assert_eq!(p.registers.x, 5);
    assert!(p.registers.sr.0 & FLAG_ZERO != 0);
    assert!(p.registers.sr.0 & FLAG_CARRY != 0);
    assert_eq!(p.registers.pc, 0x8007, "stopped at the BRK");
}

#[test]
fn jsr_rts_program() {
    // JSR $8006; LDA #$AA; BRK; ... $8006: LDA #$55; RTS.
    let mut p = Processor::new();
    p.load_program(
        &[0x20, 0x06, 0x80, 0xa9, 0xaa, 0x00, 0xa9, 0x55, 0x60],
        0x8000,
    );
    p.registers.pc = 0x8000;
    p.registers.sp = 0xff;
    p.step();  // JSR
    assert_eq!(p.registers.pc, 0x8006);
    assert_eq!(p.registers.sp, 0xfd);
    p.step();  // LDA #$55
    assert_eq!(p.registers.a, 0x55);
    p.step();  // RTS
    assert_eq!(p.registers.pc, 0x8003);
    assert_eq!(p.registers.sp, 0xff, "stack pointer restored");
    p.step();  // LDA #$AA
    assert_eq!(p.registers.a, 0xaa);
}

#[test]
fn asl_accumulator_program() {
    // LDA #$80; ASL A: A=0, C=1, Z=1, N=0.
    let mut p = Processor::new();
    p.load_program(&[0xa9, 0x80, 0x0a, 0x00], 0x8000);
    p.registers.pc = 0x8000;
    p.step();
    p.step();
    assert_eq!(p.registers.a, 0x00);
    assert!(p.registers.sr.0 & FLAG_CARRY != 0);
    assert!(p.registers.sr.0 & FLAG_ZERO != 0);
    assert_eq!(p.registers.sr.0 & FLAG_NEGATIVE, 0);
}

#[test]
fn sec_lda_sbc_program() {
    // SEC; LDA #$50; SBC #$F0: A=0x60 with C=0, N=0, Z=0.
    let mut p = Processor::new();
    p.load_program(&[0x38, 0xa9, 0x50, 0xe9, 0xf0, 0x00], 0x8000);
    p.registers.pc = 0x8000;
    p.step();
    p.step();
    p.step();
    assert_eq!(p.registers.a, 0x60);
    let sr = p.registers.sr.0;
    assert_eq!(sr & FLAG_CARRY, 0);
    assert_eq!(sr & FLAG_NEGATIVE, 0);
    assert_eq!(sr & FLAG_ZERO, 0);
}

#[test]
fn decimal_mode_program() {
    // CLD; LDA #$99; CLC; ADC #$01 gives the binary 0x9A; with SED the
    // same addition gives BCD 0x00 with the carry out.
    let mut p = Processor::new();
    p.load_program(&[0xd8, 0xa9, 0x99, 0x18, 0x69, 0x01, 0x00], 0x8000);
    p.registers.pc = 0x8000;
    for _ in 0..4 {
        p.step();
    }
    assert_eq!(p.registers.a, 0x9a);

    let mut q = Processor::new();
    q.load_program(&[0xf8, 0xa9, 0x99, 0x18, 0x69, 0x01, 0x00], 0x8000);
    q.registers.pc = 0x8000;
    for _ in 0..4 {
        q.step();
    }
    assert_eq!(q.registers.a, 0x00);
    assert!(q.registers.sr.0 & FLAG_CARRY != 0);
}

#[test]
fn stack_wraps_at_zero() {
    // PHA with SP=0 writes to 0x0100 and leaves SP=0xFF.
    let mut p = Processor::new();
    p.registers.sp = 0x00;
    p.registers.a = 0x3c;
    p.push_accumulator();
    assert_eq!(p.read_memory(0x0100), 0x3c);
    assert_eq!(p.registers.sp, 0xff);
}

#[test]
fn pha_pla_round_trip() {
    let mut p = Processor::new();
    p.registers.sp = 0x80;
    p.registers.a = 0x5e;
    p.push_accumulator();
    assert_eq!(p.registers.sp, 0x7f);
    p.registers.a = 0x00;
    p.pop_accumulator();
    assert_eq!(p.registers.a, 0x5e);
    assert_eq!(p.registers.sp, 0x80);
}

#[test]
fn php_plp_round_trip() {
    let mut p = Processor::new();
    p.registers.sp = 0xff;
    p.registers.sr.0 = FLAG_UNUSED | FLAG_CARRY | FLAG_NEGATIVE;
    p.push_status();
    // The pushed image carries the break mark and the unused bit.
    assert_eq!(
        p.read_memory(0x01ff),
        FLAG_UNUSED | FLAG_CARRY | FLAG_NEGATIVE | FLAG_BREAK
    );
    p.registers.sr.0 = FLAG_UNUSED;
    p.pop_status();
    assert_eq!(p.registers.sr.0, FLAG_UNUSED | FLAG_CARRY | FLAG_NEGATIVE);
    assert_eq!(p.registers.sp, 0xff);
}

#[test]
fn plp_forces_unused_and_clears_break() {
    let mut p = Processor::new();
    p.registers.sp = 0xf0;
    p.write_memory(0x01f1, 0xff);
    p.pop_status();
    assert_eq!(p.registers.sr.0, 0xff & !FLAG_BREAK);

    p.registers.sp = 0xf1;
    p.write_memory(0x01f2, 0x00);
    p.pop_status();
    assert_eq!(p.registers.sr.0, FLAG_UNUSED);
}

#[test]
fn brk_rti_round_trip() {
    // BRK pushes PC+2 of the instruction and P with the break mark, sets
    // I, and jumps through 0xFFFE; RTI comes back to that address with
    // P restored (unused bit forced, break mark cleared).
    let mut p = Processor::new();
    p.load_program(&[0x40], 0x9000);  // RTI at the interrupt handler
    p.write_memory(0xfffe, 0x00);
    p.write_memory(0xffff, 0x90);
    p.load_program(&[0x00, 0x00, 0xa9, 0x07], 0x8000);  // BRK; (pad); LDA #7
    p.registers.pc = 0x8000;
    p.registers.sp = 0xff;
    p.registers.sr.0 = FLAG_UNUSED | FLAG_CARRY;
    p.step();  // BRK
    assert_eq!(p.registers.pc, 0x9000);
    assert!(p.registers.sr.0 & FLAG_INTERRUPT != 0);
    assert_eq!(p.registers.sp, 0xfc);
    p.step();  // RTI
    assert_eq!(p.registers.pc, 0x8002, "PC+2 of the BRK");
    assert_eq!(p.registers.sr.0, FLAG_UNUSED | FLAG_CARRY);
    assert_eq!(p.registers.sp, 0xff);
    p.step();  // LDA #7 right after the BRK slot
    assert_eq!(p.registers.a, 0x07);
}

#[test]
fn illegal_opcode_is_one_byte_nop() {
    let mut p = Processor::new();
    p.load_program(&[0x02, 0xa9, 0x11], 0x8000);  // 0x02 is illegal
    p.registers.pc = 0x8000;
    p.registers.a = 0xee;
    let before_sr = p.registers.sr.0;
    p.step();
    assert_eq!(p.registers.pc, 0x8001, "one byte consumed");
    assert_eq!(p.registers.a, 0xee);
    assert_eq!(p.registers.sr.0, before_sr);
    p.step();
    assert_eq!(p.registers.a, 0x11);
}

#[test]
fn lda_immediate_flags_for_every_value() {
    // For all v: LDA #v gives A=v, Z iff v==0, N iff v>=0x80.
    for v in 0..=255u8 {
        let mut p = Processor::new();
        p.load_program(&[0xa9, v], 0x4000);
        p.registers.pc = 0x4000;
        p.step();
        assert_eq!(p.registers.a, v);
        assert_eq!(p.registers.sr.0 & FLAG_ZERO != 0, v == 0);
        assert_eq!(p.registers.sr.0 & FLAG_NEGATIVE != 0, v >= 0x80);
        assert!(p.registers.sr.0 & FLAG_UNUSED != 0, "unused bit stays set");
    }
}

#[test]
fn branch_backward_and_forward() {
    // BCC +2 skips two bytes when carry is clear.
    let mut p = Processor::new();
    p.load_program(&[0x90, 0x02, 0xa9, 0x01, 0xa9, 0x02, 0x00], 0x8000);
    p.registers.pc = 0x8000;
    p.step();  // BCC taken, over LDA #1
    assert_eq!(p.registers.pc, 0x8004);
    p.step();
    assert_eq!(p.registers.a, 0x02);

    // With carry set the branch falls through.
    let mut q = Processor::new();
    q.load_program(&[0x90, 0x02, 0xa9, 0x01], 0x8000);
    q.registers.pc = 0x8000;
    q.registers.sr.set_flag(Status::Carry);
    q.step();
    assert_eq!(q.registers.pc, 0x8002);
}

#[test]
fn branch_wraps_program_counter() {
    // A backward branch from near address zero wraps to the top.
    let mut p = Processor::new();
    p.load_program(&[0xd0, 0xfb], 0x0000);  // BNE -5 at 0x0000
    p.registers.pc = 0x0000;
    p.registers.sr.clear_flag(Status::Zero);
    p.step();
    assert_eq!(p.registers.pc, 0xfffd);
}

#[test]
fn memory_instructions_through_step() {
    // LDA #$42; STA $0010; INC $0010; LDX $0010.
    let mut p = Processor::new();
    p.load_program(
        &[0xa9, 0x42, 0x85, 0x10, 0xe6, 0x10, 0xa6, 0x10, 0x00],
        0x8000,
    );
    p.registers.pc = 0x8000;
    p.step();
    p.step();
    assert_eq!(p.read_memory(0x0010), 0x42);
    p.step();
    assert_eq!(p.read_memory(0x0010), 0x43);
    p.step();
    assert_eq!(p.registers.x, 0x43);
}

#[test]
fn jmp_indirect_through_step() {
    let mut p = Processor::new();
    p.load_program(&[0x6c, 0x00, 0x02], 0x8000);
    p.write_memory(0x0200, 0x34);
    p.write_memory(0x0201, 0x12);
    p.registers.pc = 0x8000;
    p.step();
    assert_eq!(p.registers.pc, 0x1234);
}

#[test]
fn load_program_copies_bytes() {
    let mut p = Processor::new();
    p.load_program(&[1, 2, 3], 0x1234);
    assert_eq!(p.read_memory(0x1234), 1);
    assert_eq!(p.read_memory(0x1235), 2);
    assert_eq!(p.read_memory(0x1236), 3);
    assert_eq!(p.read_memory(0x1233), 0);
    assert_eq!(p.read_memory(0x1237), 0);
}

#[test]
fn new_processor_reset_state() {
    let p = Processor::new();
    assert_eq!(p.registers.a, 0);
    assert_eq!(p.registers.x, 0);
    assert_eq!(p.registers.y, 0);
    assert_eq!(p.registers.sp, 0);
    assert_eq!(p.registers.pc, 0);
    assert_eq!(p.registers.sr.0, FLAG_UNUSED);
    assert_eq!(p.read_memory(0x0000), 0);
    assert_eq!(p.read_memory(0xffff), 0);
}

#[test]
fn run_drives_many_steps() {
    // The counting loop again, but through the loop driver.
    let mut p = Processor::new();
    p.load_program(&[0xa2, 0x00, 0xe8, 0xe0, 0x05, 0xd0, 0xfb, 0x00], 0x8000);
    p.registers.pc = 0x8000;
    p.run(16);
    assert_eq!(p.registers.x, 5);
    assert_eq!(p.registers.pc, 0x8007);
}

#[test]
fn sta_stx_sty_and_compares_through_step() {
    // LDX #$22; STX $20; LDY #$33; STY $21; CPX $20; CPY $21.
    let mut p = Processor::new();
    p.load_program(
        &[0xa2, 0x22, 0x86, 0x20, 0xa0, 0x33, 0x84, 0x21, 0xe4, 0x20, 0xc4, 0x21, 0x00],
        0x8000,
    );
    p.registers.pc = 0x8000;
    for _ in 0..6 {
        p.step();
    }
    assert_eq!(p.read_memory(0x0020), 0x22);
    assert_eq!(p.read_memory(0x0021), 0x33);
    assert!(p.registers.sr.0 & FLAG_ZERO != 0);
    assert!(p.registers.sr.0 & FLAG_CARRY != 0);
}
