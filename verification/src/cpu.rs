//! The arithmetic/logic core: flag-updating primitives shared by the
//! execution engine, and the mathematical definitions of the ALU results
//! (add/subtract with carry, binary and decimal; shifts and rotates;
//! compares; the N/Z update rule).

use vstd::prelude::*;
use vstd::arithmetic::div_mod::lemma_mod_multiples_vanish;
use crate::bus::{w8, w16};
use crate::register::{
    flag_set, mask_to, spec_nz, Status, StatusRegister, FLAG_CARRY, FLAG_DECIMAL, FLAG_NEGATIVE,
    FLAG_OVERFLOW, FLAG_ZERO,
};

verus! {

/// The numeric carry-in taken from the carry flag of `p`: 0 or 1.
pub open spec fn carry_in(p: u8) -> int {
    if flag_set(p, FLAG_CARRY) {
        1
    } else {
        0
    }
}

/// Signed overflow of an addition: set when both operands agree in sign
/// and the result differs from them.
pub open spec fn overflow_add(a: u8, v: u8, r: u8) -> bool {
    (a ^ r) & (v ^ r) & 0x80 == 0x80
}

/// Signed overflow of a subtraction, phrased over the one's complement of
/// the subtrahend (SBC is ADC of `!v`).
pub open spec fn overflow_sub(a: u8, v: u8, r: u8) -> bool {
    (a ^ r) & ((!v) ^ r) & 0x80 == 0x80
}

/// Decimal (BCD) addition of two packed bytes with carry-in: each nibble
/// is added and, when past 9, reduced by 10 with a carry into the next
/// digit. Returns the packed result and the decimal carry-out.
pub open spec fn spec_bcd_add(a: u8, v: u8, cin: int) -> (u8, bool) {
    let lo = a % 16 + v % 16 + cin;
    let lo2 = if lo > 9 {
        lo - 10
    } else {
        lo
    };
    let hc: int = if lo > 9 {
        1
    } else {
        0
    };
    let hi = a / 16 + v / 16 + hc;
    let hi2 = if hi > 9 {
        hi - 10
    } else {
        hi
    };
    (w8(hi2 * 16 + lo2), hi > 9)
}

/// Decimal (BCD) subtraction with borrow = 1 - carry-in, the mirror of
/// `spec_bcd_add`: each nibble is subtracted and, when it underflows,
/// increased by 10 with a borrow from the next digit. Returns the packed
/// result and the carry-out (set when no borrow left the high digit).
/// Both nibble differences are offset by 16 so that every intermediate
/// value is non-negative; "underflow" then reads as `< 16`.
pub open spec fn spec_bcd_sub(a: u8, v: u8, cin: int) -> (u8, bool) {
    let lo = 16 + a % 16 - v % 16 - (1 - cin);
    let lo2 = if lo < 16 {
        (lo + 10) % 16
    } else {
        lo - 16
    };
    let hb: int = if lo < 16 {
        1
    } else {
        0
    };
    let hi = 16 + a / 16 - v / 16 - hb;
    let hi2 = if hi < 16 {
        (hi + 10) % 16
    } else {
        hi - 16
    };
    ((hi2 * 16 + lo2) as u8, hi >= 16)
}

/// ADC: the new accumulator and status after adding `v` and the carry of
/// `p` to `a`. In binary mode the result is the low byte of the true sum,
/// C its ninth bit and V the signed overflow. In decimal mode the result
/// and C come from the BCD sum while N and Z still reflect the binary sum.
pub open spec fn spec_adc(a: u8, v: u8, p: u8) -> (u8, u8) {
    let cin = carry_in(p);
    let t = a + v + cin;
    let rbin = w8(t);
    let vf = overflow_add(a, v, rbin);
    if flag_set(p, FLAG_DECIMAL) {
        let (rd, cd) = spec_bcd_add(a, v, cin);
        (rd, mask_to(mask_to(spec_nz(p, rbin), FLAG_CARRY, cd), FLAG_OVERFLOW, vf))
    } else {
        (rbin, mask_to(mask_to(spec_nz(p, rbin), FLAG_CARRY, t > 0xff), FLAG_OVERFLOW, vf))
    }
}

/// SBC: the new accumulator and status after subtracting `v` with borrow
/// = NOT carry, defined as ADC of the one's complement of `v`. C is set
/// when no borrow occurred; V is the signed overflow. In decimal mode the
/// result and C come from the BCD difference while N and Z still reflect
/// the binary difference.
pub open spec fn spec_sbc(a: u8, v: u8, p: u8) -> (u8, u8) {
    let cin = carry_in(p);
    let t = a + (!v) + cin;
    let rbin = w8(t);
    let vf = overflow_sub(a, v, rbin);
    if flag_set(p, FLAG_DECIMAL) {
        let (rd, cd) = spec_bcd_sub(a, v, cin);
        (rd, mask_to(mask_to(spec_nz(p, rbin), FLAG_CARRY, cd), FLAG_OVERFLOW, vf))
    } else {
        (rbin, mask_to(mask_to(spec_nz(p, rbin), FLAG_CARRY, t > 0xff), FLAG_OVERFLOW, vf))
    }
}

/// ASL: shift left one bit; carry takes the old bit 7.
pub open spec fn spec_asl(p: u8, t: u8) -> (u8, u8) {
    let r = t << 1;
    (r, mask_to(spec_nz(p, r), FLAG_CARRY, t & 0x80 == 0x80))
}

/// LSR: shift right one bit; carry takes the old bit 0; bit 7 of the
/// result is 0, so N is always cleared.
pub open spec fn spec_lsr(p: u8, t: u8) -> (u8, u8) {
    let r = t >> 1;
    (r, mask_to(spec_nz(p, r), FLAG_CARRY, t & 0x01 == 0x01))
}

/// ROL: rotate left through carry; the old carry enters at bit 0 and the
/// old bit 7 becomes the new carry.
pub open spec fn spec_rol(p: u8, t: u8) -> (u8, u8) {
    let r = (t << 1) | (if flag_set(p, FLAG_CARRY) {
        0x01u8
    } else {
        0u8
    });
    (r, mask_to(spec_nz(p, r), FLAG_CARRY, t & 0x80 == 0x80))
}

/// ROR: rotate right through carry; the old carry enters at bit 7 and the
/// old bit 0 becomes the new carry.
pub open spec fn spec_ror(p: u8, t: u8) -> (u8, u8) {
    let r = (t >> 1) | (if flag_set(p, FLAG_CARRY) {
        0x80u8
    } else {
        0u8
    });
    (r, mask_to(spec_nz(p, r), FLAG_CARRY, t & 0x01 == 0x01))
}

/// CMP/CPX/CPY: C iff `reg >= v`, and N, Z from the wrapped difference
/// (so Z iff `reg == v`).
pub open spec fn spec_compare(p: u8, reg: u8, v: u8) -> u8 {
    mask_to(spec_nz(p, w8(reg - v)), FLAG_CARRY, reg >= v)
}

/// BIT: N takes bit 7 of the operand, V bit 6, and Z is set iff the
/// operand has no bit in common with the accumulator.
pub open spec fn spec_bit_flags(p: u8, a: u8, v: u8) -> u8 {
    mask_to(
        mask_to(mask_to(p, FLAG_NEGATIVE, v & 0x80 == 0x80), FLAG_OVERFLOW, v & 0x40 == 0x40),
        FLAG_ZERO,
        a & v == 0,
    )
}

/// The branch target: `pc` plus the offset taken as a signed byte,
/// wrapping modulo 2^16.
pub open spec fn spec_branch(pc: u16, off: u8) -> u16 {
    if off & 0x80 == 0x80 {
        w16(pc + off - 0x100)
    } else {
        w16(pc + off)
    }
}

/// The BCD normalisation the original exposes on its own: reduce each
/// nibble past 9 by 10, carrying one into the tens digit.
pub open spec fn spec_format_bcd(v: u8) -> u8 {
    let lo = v % 16;
    let hi = v / 16;
    let lo2: int = if lo > 9 {
        lo - 10
    } else {
        lo as int
    };
    let hi2: int = if lo > 9 {
        hi + 1
    } else {
        hi as int
    };
    let hi3 = if hi2 > 9 {
        hi2 - 10
    } else {
        hi2
    };
    (hi3 * 16 + lo2) as u8
}

/// Writes `val` to the target byte and redefines N and Z from it; the
/// single flag-update rule shared by loads, transfers, logical operations
/// and increments.
pub fn load_u8_memory(status: &mut StatusRegister, mem: &mut u8, val: u8)
    ensures
        *final(mem) == val,
        final(status).0 == spec_nz(old(status).0, val),
{
    *mem = val;
    status.0 = (status.0 & 0x7d) | (if val & 0x80 == 0x80 {
        0x80u8
    } else {
        0u8
    }) | (if val == 0 {
        0x02u8
    } else {
        0u8
    });
}

/// Shifts the target left one bit, carry taking the old bit 7 (ASL).
pub fn shift_left(status: &mut StatusRegister, target: &mut u8)
    ensures
        ({
            let (r, p) = spec_asl(old(status).0, *old(target));
            *final(target) == r && final(status).0 == p
        }),
{
    let carry_out = *target & 0x80 == 0x80;
    let r = *target << 1;
    load_u8_memory(status, target, r);
    if carry_out {
        status.set_flag(Status::Carry);
    } else {
        status.clear_flag(Status::Carry);
    }
}

/// Shifts the target right one bit, carry taking the old bit 0 (LSR).
pub fn shift_right(status: &mut StatusRegister, target: &mut u8)
    ensures
        ({
            let (r, p) = spec_lsr(old(status).0, *old(target));
            *final(target) == r && final(status).0 == p
        }),
{
    let carry_out = *target & 0x01 == 0x01;
    let r = *target >> 1;
    load_u8_memory(status, target, r);
    if carry_out {
        status.set_flag(Status::Carry);
    } else {
        status.clear_flag(Status::Carry);
    }
}

/// Rotates the target left through the carry flag (ROL).
pub fn rotate_left(status: &mut StatusRegister, target: &mut u8)
    ensures
        ({
            let (r, p) = spec_rol(old(status).0, *old(target));
            *final(target) == r && final(status).0 == p
        }),
{
    let carry_out = *target & 0x80 == 0x80;
    let r = (*target << 1) | (if status.contains(Status::Carry) {
        0x01u8
    } else {
        0u8
    });
    load_u8_memory(status, target, r);
    if carry_out {
        status.set_flag(Status::Carry);
    } else {
        status.clear_flag(Status::Carry);
    }
}

/// Rotates the target right through the carry flag (ROR).
pub fn rotate_right(status: &mut StatusRegister, target: &mut u8)
    ensures
        ({
            let (r, p) = spec_ror(old(status).0, *old(target));
            *final(target) == r && final(status).0 == p
        }),
{
    let carry_out = *target & 0x01 == 0x01;
    let r = (*target >> 1) | (if status.contains(Status::Carry) {
        0x80u8
    } else {
        0u8
    });
    load_u8_memory(status, target, r);
    if carry_out {
        status.set_flag(Status::Carry);
    } else {
        status.clear_flag(Status::Carry);
    }
}

/// Compares a register with a value: C iff `reg >= val`, N and Z from the
/// wrapped difference.
pub fn compare_u8(status: &mut StatusRegister, reg: u8, val: u8)
    ensures
        final(status).0 == spec_compare(old(status).0, reg, val),
{
    let d8: u8 = ((reg as u16 + 0x100 - val as u16) % 0x100) as u8;
    proof {
        lemma_mod_multiples_vanish(1, reg - val, 0x100);
    }
    let carry = reg >= val;
    let mut scratch: u8 = 0;
    load_u8_memory(status, &mut scratch, d8);
    if carry {
        status.set_flag(Status::Carry);
    } else {
        status.clear_flag(Status::Carry);
    }
}

/// Adds the offset, taken as a signed byte, to the program counter,
/// wrapping modulo 2^16.
pub fn branch(pc: &mut u16, offset: u8)
    ensures
        *final(pc) == spec_branch(*old(pc), offset),
{
    if offset & 0x80 == 0x80 {
        proof {
            lemma_mod_multiples_vanish(1, *pc + offset - 0x100, 0x10000);
        }
        *pc = ((*pc as u32 + offset as u32 + 0xff00) % 0x10000) as u16;
    } else {
        *pc = ((*pc as u32 + offset as u32) % 0x10000) as u16;
    }
}

/// Normalises a byte to packed BCD: each nibble past 9 is reduced by 10,
/// the low one carrying into the high one.
pub fn format_bcd(val: u8) -> (r: u8)
    ensures
        r == spec_format_bcd(val),
{
    let mut nibble_low = val % 16;
    let mut nibble_high = val / 16;

    if nibble_low > 9 {
        nibble_low = nibble_low - 10;
        nibble_high = nibble_high + 1;
    }
    if nibble_high > 9 {
        nibble_high = nibble_high - 10;
    }

    nibble_high * 16 + nibble_low
}

} // verus!
