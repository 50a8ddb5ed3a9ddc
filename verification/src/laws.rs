//! Laws of the machine model: the register-width invariant, the N/Z
//! definition, preservation of the always-set unused status bit across
//! every step, the stack round trips (PHA/PLA, PHP/PLP, JSR/RTS,
//! BRK/RTI), and the load contract for LDA immediate.

use vstd::prelude::*;
use vstd::arithmetic::div_mod::{lemma_fundamental_div_mod, lemma_small_mod};
use crate::bus::{hi_byte, lo_byte, w16, w8, word16};
use crate::cpu::{carry_in, overflow_add, overflow_sub, spec_bcd_add, spec_bcd_sub};
use crate::opcode::{spec_opcode, AugmentOpcodeInfo, MemAddressMode, Opcode};
use crate::processor::{
    ivalue, mread, spec_brk, spec_decode, spec_execute, spec_jsr, spec_pha, spec_php, spec_pla,
    spec_plp, spec_pull, spec_rti, spec_rts, spec_step, stack_addr, Mach,
};
use crate::register::{
    flag_set, mask_to, spec_nz, FLAG_BREAK, FLAG_CARRY, FLAG_NEGATIVE, FLAG_OVERFLOW, FLAG_UNUSED,
    FLAG_ZERO,
};

verus! {

/// Every register stays inside its hardware width: PC in sixteen bits,
/// SP, A, X and Y in eight. This is carried by the types of the model.
pub proof fn lemma_register_ranges(m: Mach)
    ensures
        0 <= m.pc <= 0xffff,
        0 <= m.sp <= 0xff,
        0 <= m.a <= 0xff,
        0 <= m.x <= 0xff,
        0 <= m.y <= 0xff,
{
}

/// The N/Z definition: after the shared flag update, Z is set exactly
/// when the defining value is zero, and N equals bit 7 of that value;
/// every other flag, the unused bit among them, keeps its value.
pub proof fn lemma_nz_bits(p: u8, v: u8)
    by (bit_vector)
    ensures
        flag_set(spec_nz(p, v), FLAG_ZERO) == (v == 0),
        flag_set(spec_nz(p, v), FLAG_NEGATIVE) == (v & 0x80 == 0x80),
        spec_nz(p, v) & 0x20 == p & 0x20,
{
}

proof fn lemma_unused_alu(p: u8, v: u8, c: bool, b: bool)
    by (bit_vector)
    ensures
        mask_to(mask_to(spec_nz(p, v), FLAG_CARRY, c), FLAG_OVERFLOW, b) & 0x20 == p & 0x20,
{
}

proof fn lemma_unused_shift(p: u8, v: u8, c: bool)
    by (bit_vector)
    ensures
        mask_to(spec_nz(p, v), FLAG_CARRY, c) & 0x20 == p & 0x20,
{
}

proof fn lemma_unused_bitop(p: u8, a: u8, v: u8)
    by (bit_vector)
    ensures
        crate::cpu::spec_bit_flags(p, a, v) & 0x20 == p & 0x20,
{
}

proof fn lemma_unused_forced(v: u8)
    by (bit_vector)
    ensures
        ((v | FLAG_UNUSED) & !FLAG_BREAK) & 0x20 == 0x20,
{
}

proof fn lemma_unused_set(p: u8)
    by (bit_vector)
    ensures
        (p | FLAG_CARRY) & 0x20 == p & 0x20,
        (p | crate::register::FLAG_DECIMAL) & 0x20 == p & 0x20,
        (p | crate::register::FLAG_INTERRUPT) & 0x20 == p & 0x20,
{
}

proof fn lemma_unused_clear(p: u8)
    by (bit_vector)
    ensures
        (p & !FLAG_CARRY) & 0x20 == p & 0x20,
        (p & !crate::register::FLAG_DECIMAL) & 0x20 == p & 0x20,
        (p & !crate::register::FLAG_INTERRUPT) & 0x20 == p & 0x20,
        (p & !FLAG_OVERFLOW) & 0x20 == p & 0x20,
{
}

proof fn lemma_unused_adc(a: u8, v: u8, p: u8)
    ensures
        crate::cpu::spec_adc(a, v, p).1 & 0x20 == p & 0x20,
{
    let cin = carry_in(p);
    let rbin = w8(a + v + cin);
    if flag_set(p, crate::register::FLAG_DECIMAL) {
        lemma_unused_alu(p, rbin, spec_bcd_add(a, v, cin).1, overflow_add(a, v, rbin));
    } else {
        lemma_unused_alu(p, rbin, a + v + cin > 0xff, overflow_add(a, v, rbin));
    }
}

proof fn lemma_unused_sbc(a: u8, v: u8, p: u8)
    ensures
        crate::cpu::spec_sbc(a, v, p).1 & 0x20 == p & 0x20,
{
    let cin = carry_in(p);
    let rbin = w8(a + (!v) + cin);
    if flag_set(p, crate::register::FLAG_DECIMAL) {
        lemma_unused_alu(p, rbin, spec_bcd_sub(a, v, cin).1, overflow_sub(a, v, rbin));
    } else {
        lemma_unused_alu(p, rbin, a + (!v) + cin > 0xff, overflow_sub(a, v, rbin));
    }
}

/// Executing any mnemonic keeps the unused status bit set.
pub proof fn lemma_execute_unused_bit(m: Mach, op: Opcode, info: AugmentOpcodeInfo)
    requires
        flag_set(m.p, FLAG_UNUSED),
    ensures
        flag_set(spec_execute(m, op, info).p, FLAG_UNUSED),
{
    let v = ivalue(m, info);
    match op {
        Opcode::ADC => lemma_unused_adc(m.a, v, m.p),
        Opcode::SBC => lemma_unused_sbc(m.a, v, m.p),
        Opcode::AND => lemma_nz_bits(m.p, m.a & v),
        Opcode::ORA => lemma_nz_bits(m.p, m.a | v),
        Opcode::EOR => lemma_nz_bits(m.p, m.a ^ v),
        Opcode::ASL => lemma_unused_shift(m.p, v << 1, v & 0x80 == 0x80),
        Opcode::LSR => lemma_unused_shift(m.p, v >> 1, v & 0x01 == 0x01),
        Opcode::ROL => lemma_unused_shift(
            m.p,
            (v << 1) | (if flag_set(m.p, FLAG_CARRY) {
                0x01u8
            } else {
                0u8
            }),
            v & 0x80 == 0x80,
        ),
        Opcode::ROR => lemma_unused_shift(
            m.p,
            (v >> 1) | (if flag_set(m.p, FLAG_CARRY) {
                0x80u8
            } else {
                0u8
            }),
            v & 0x01 == 0x01,
        ),
        Opcode::BIT => lemma_unused_bitop(m.p, m.a, v),
        Opcode::CMP => lemma_unused_shift(m.p, w8(m.a - v), m.a >= v),
        Opcode::CPX => lemma_unused_shift(m.p, w8(m.x - v), m.x >= v),
        Opcode::CPY => lemma_unused_shift(m.p, w8(m.y - v), m.y >= v),
        Opcode::DEC => lemma_nz_bits(m.p, w8(v - 1)),
        Opcode::INC => lemma_nz_bits(m.p, w8(v + 1)),
        Opcode::DEX => lemma_nz_bits(m.p, w8(m.x - 1)),
        Opcode::DEY => lemma_nz_bits(m.p, w8(m.y - 1)),
        Opcode::INX => lemma_nz_bits(m.p, w8(m.x + 1)),
        Opcode::INY => lemma_nz_bits(m.p, w8(m.y + 1)),
        Opcode::LDA => lemma_nz_bits(m.p, v),
        Opcode::LDX => lemma_nz_bits(m.p, v),
        Opcode::LDY => lemma_nz_bits(m.p, v),
        Opcode::TAX => lemma_nz_bits(m.p, m.a),
        Opcode::TAY => lemma_nz_bits(m.p, m.a),
        Opcode::TSX => lemma_nz_bits(m.p, m.sp),
        Opcode::TXA => lemma_nz_bits(m.p, m.x),
        Opcode::TYA => lemma_nz_bits(m.p, m.y),
        Opcode::PLA => lemma_nz_bits(m.p, spec_pull(m).1),
        Opcode::PLP => lemma_unused_forced(spec_pull(m).1),
        Opcode::RTI => lemma_unused_forced(spec_pull(m).1),
        Opcode::SEC => lemma_unused_set(m.p),
        Opcode::SED => lemma_unused_set(m.p),
        Opcode::SEI => lemma_unused_set(m.p),
        Opcode::BRK => lemma_unused_set(m.p),
        Opcode::CLC => lemma_unused_clear(m.p),
        Opcode::CLD => lemma_unused_clear(m.p),
        Opcode::CLI => lemma_unused_clear(m.p),
        Opcode::CLV => lemma_unused_clear(m.p),
        _ => {},
    }
}

/// Bit 5 of P is 1 after every step, whatever instruction runs: the
/// unused bit, once set, is never cleared by execution.
pub proof fn lemma_step_unused_bit(m: Mach)
    requires
        flag_set(m.p, FLAG_UNUSED),
    ensures
        flag_set(spec_step(m).p, FLAG_UNUSED),
{
    let m1 = Mach { pc: w16(m.pc + 1), ..m };
    match spec_opcode(mread(m, m.pc)) {
        Option::Some(inst) => {
            let (info, pc2) = spec_decode(m1, inst.1);
            lemma_execute_unused_bit(Mach { pc: pc2, ..m1 }, inst.0, info);
        },
        Option::None => {},
    }
}

/// An illegal opcode consumes exactly its one byte and has no other
/// effect: registers, flags and memory are untouched.
pub proof fn lemma_illegal_opcode_is_nop(m: Mach)
    requires
        spec_opcode(mread(m, m.pc)) is None,
    ensures
        spec_step(m) == (Mach { pc: w16(m.pc + 1), ..m }),
{
}

proof fn lemma_sp_down_up(sp: u8)
    ensures
        w8(w8(sp - 1) + 1) == sp,
{
    if sp == 0 {
        assert(w8(sp - 1) == 255);
        assert(w8(255int + 1) == 0);
    } else {
        lemma_small_mod((sp - 1) as nat, 0x100);
        lemma_small_mod(sp as nat, 0x100);
    }
}

/// PHA then PLA restores both the accumulator and the stack pointer.
pub proof fn lemma_pha_pla(m: Mach)
    requires
        m.wf(),
    ensures
        spec_pla(spec_pha(m)).a == m.a,
        spec_pla(spec_pha(m)).sp == m.sp,
        spec_pla(spec_pha(m)).pc == m.pc,
{
    lemma_sp_down_up(m.sp);
}

proof fn lemma_plp_image(p: u8)
    by (bit_vector)
    ensures
        ((p | (FLAG_BREAK | FLAG_UNUSED)) | FLAG_UNUSED) & !FLAG_BREAK == (p | FLAG_UNUSED)
            & !FLAG_BREAK,
{
}

/// PHP then PLP restores P up to the forced unused bit and the cleared
/// break mark, and restores the stack pointer.
pub proof fn lemma_php_plp(m: Mach)
    requires
        m.wf(),
    ensures
        spec_plp(spec_php(m)).p == (m.p | FLAG_UNUSED) & !FLAG_BREAK,
        spec_plp(spec_php(m)).sp == m.sp,
        spec_plp(spec_php(m)).a == m.a,
        spec_plp(spec_php(m)).pc == m.pc,
{
    lemma_sp_down_up(m.sp);
    lemma_plp_image(m.p);
}

proof fn lemma_w16_split_round(r: u16)
    ensures
        word16(lo_byte(r), hi_byte(r)) == r,
{
    lemma_fundamental_div_mod(r as int, 0x100);
}

proof fn lemma_w16_pred_succ(pc: u16)
    ensures
        w16(w16(pc - 1) + 1) == pc,
{
    if pc == 0 {
        assert(w16(pc - 1) == 0xffff);
        assert(w16(0xffffint + 1) == 0);
    } else {
        lemma_small_mod((pc - 1) as nat, 0x10000);
        lemma_small_mod(pc as nat, 0x10000);
    }
}

/// JSR to a target followed by RTS brings PC back to the instruction
/// after the JSR (the PC the machine held once the JSR was decoded), and
/// restores the stack pointer.
pub proof fn lemma_jsr_rts(m: Mach, target: u16)
    requires
        m.wf(),
    ensures
        spec_rts(spec_jsr(m, target)).pc == m.pc,
        spec_rts(spec_jsr(m, target)).sp == m.sp,
        spec_rts(spec_jsr(m, target)).a == m.a,
{
    let ret = w16(m.pc - 1);
    lemma_sp_down_up(w8(m.sp - 1));
    lemma_sp_down_up(m.sp);
    assert(stack_addr(m.sp) != stack_addr(w8(m.sp - 1))) by {
        if m.sp == 0 {
            assert(w8(m.sp - 1) == 255);
        } else {
            lemma_small_mod((m.sp - 1) as nat, 0x100);
        }
    };
    lemma_w16_split_round(ret);
    lemma_w16_pred_succ(m.pc);
}

proof fn lemma_sp_three_distinct(sp: u8)
    ensures
        w8(sp - 1) != sp,
        w8(w8(sp - 1) - 1) != sp,
        w8(w8(sp - 1) - 1) != w8(sp - 1),
{
    if sp == 0 {
        assert(w8(sp - 1) == 255);
        lemma_small_mod(254nat, 0x100);
    } else if sp == 1 {
        lemma_small_mod(0nat, 0x100);
        assert(w8(0 - 1) == 255);
    } else {
        lemma_small_mod((sp - 1) as nat, 0x100);
        lemma_small_mod((sp - 2) as nat, 0x100);
    }
}

/// BRK followed by RTI resumes at PC + 1 as seen after the BRK opcode
/// was fetched (PC + 2 of the BRK instruction itself), restores P up to
/// the forced unused bit and the cleared break mark, and restores the
/// stack pointer.
pub proof fn lemma_brk_rti(m: Mach)
    requires
        m.wf(),
    ensures
        spec_rti(spec_brk(m)).pc == w16(m.pc + 1),
        spec_rti(spec_brk(m)).p == (m.p | FLAG_UNUSED) & !FLAG_BREAK,
        spec_rti(spec_brk(m)).sp == m.sp,
{
    let ret = w16(m.pc + 1);
    let sp1 = w8(m.sp - 1);
    let sp2 = w8(sp1 - 1);
    lemma_sp_three_distinct(m.sp);
    lemma_sp_down_up(sp2);
    lemma_sp_down_up(sp1);
    lemma_sp_down_up(m.sp);
    lemma_w16_split_round(ret);
    lemma_plp_image(m.p);
}

/// LDA immediate: for every byte v, running the two-byte instruction
/// A9 v loads v into the accumulator, sets Z exactly when v is zero, and
/// sets N exactly when bit 7 of v is set.
pub proof fn lemma_lda_immediate(m: Mach, v: u8)
    requires
        m.wf(),
        mread(m, m.pc) == 0xa9,
        mread(m, w16(m.pc + 1)) == v,
    ensures
        spec_step(m).a == v,
        flag_set(spec_step(m).p, FLAG_ZERO) == (v == 0),
        flag_set(spec_step(m).p, FLAG_NEGATIVE) == (v & 0x80 == 0x80),
        spec_step(m).mem == m.mem,
{
    assert(spec_opcode(mread(m, m.pc)) == Option::Some(
        (Opcode::LDA, MemAddressMode::Immediate),
    ));
    lemma_nz_bits(m.p, v);
}

} // verus!
