//! The register file of the 6502: the status register P with its named flag
//! bits, the general registers A, X and Y, the stack pointer SP and the
//! program counter PC.

use vstd::prelude::*;

verus! {

/// Carry / borrow / shift-out (bit 0 of P).
pub const FLAG_CARRY: u8 = 0x01;
/// Last result was zero (bit 1 of P).
pub const FLAG_ZERO: u8 = 0x02;
/// Maskable interrupts disabled (bit 2 of P).
pub const FLAG_INTERRUPT: u8 = 0x04;
/// Binary-coded-decimal mode for ADC/SBC (bit 3 of P).
pub const FLAG_DECIMAL: u8 = 0x08;
/// Break mark, seen only in copies of P pushed by BRK/PHP (bit 4 of P).
pub const FLAG_BREAK: u8 = 0x10;
/// The unused bit 5 of P, conventionally always 1.
pub const FLAG_UNUSED: u8 = 0x20;
/// Signed overflow of the last add/subtract, or bit 6 of a BIT operand.
pub const FLAG_OVERFLOW: u8 = 0x40;
/// Bit 7 of the last result (bit 7 of P).
pub const FLAG_NEGATIVE: u8 = 0x80;

/// True when at least one bit of `mask` is set in `p`.
pub open spec fn flag_set(p: u8, mask: u8) -> bool {
    p & mask != 0
}

/// `p` with the bits of `mask` forced to 1 (`on`) or to 0 (`!on`).
pub open spec fn mask_to(p: u8, mask: u8, on: bool) -> u8 {
    if on {
        p | mask
    } else {
        p & !mask
    }
}

/// `p` with N and Z redefined by the byte `v`: Z iff `v` is zero, N iff
/// bit 7 of `v` is set. All other flags keep their value.
pub open spec fn spec_nz(p: u8, v: u8) -> u8 {
    (p & 0x7d) | (if v & 0x80 == 0x80 {
        0x80u8
    } else {
        0u8
    }) | (if v == 0 {
        0x02u8
    } else {
        0u8
    })
}

/// A named status flag, or an arbitrary mask of several (`Mix`).
#[derive(Copy, Clone)]
pub enum Status {
    Negative,
    Overflow,
    Unused,
    Break,
    Decimal,
    InterruptDisable,
    Zero,
    Carry,
    Mix(u8),
}

impl Status {
    /// The bit mask of this flag within P.
    pub open spec fn spec_bit(self) -> u8 {
        match self {
            Status::Negative => FLAG_NEGATIVE,
            Status::Overflow => FLAG_OVERFLOW,
            Status::Unused => 0,
            Status::Break => FLAG_BREAK,
            Status::Decimal => FLAG_DECIMAL,
            Status::InterruptDisable => FLAG_INTERRUPT,
            Status::Zero => FLAG_ZERO,
            Status::Carry => FLAG_CARRY,
            Status::Mix(val) => val,
        }
    }

    /// The bit mask of this flag within P.
    pub fn status_bit(&self) -> (r: u8)
        ensures
            r == self.spec_bit(),
    {
        match self {
            Status::Negative => FLAG_NEGATIVE,
            Status::Overflow => FLAG_OVERFLOW,
            Status::Unused => 0,
            Status::Break => FLAG_BREAK,
            Status::Decimal => FLAG_DECIMAL,
            Status::InterruptDisable => FLAG_INTERRUPT,
            Status::Zero => FLAG_ZERO,
            Status::Carry => FLAG_CARRY,
            Status::Mix(val) => *val,
        }
    }
}

/// The packed 8-bit processor status register P.
#[derive(Copy, Clone, Debug, PartialEq, Eq, Structural)]
pub struct StatusRegister(pub u8);

impl StatusRegister {
    /// True when at least one bit of `flag`'s mask is set in P.
    pub fn contains(&self, flag: Status) -> (r: bool)
        ensures
            r == flag_set(self.0, flag.spec_bit()),
    {
        (self.0 & flag.status_bit()) != 0
    }

    /// The raw masked value: `P & mask`. For single-bit flags such as
    /// `Status::Carry` this is the bit itself (0 or 1 for carry).
    pub fn flag_value(&self, flag: Status) -> (r: u8)
        ensures
            r == self.0 & flag.spec_bit(),
    {
        self.0 & flag.status_bit()
    }

    /// Inverts the masked bits.
    pub fn toggle_flag(&mut self, flag: Status)
        ensures
            final(self).0 == old(self).0 ^ flag.spec_bit(),
    {
        self.0 = self.0 ^ flag.status_bit();
    }

    /// Forces the masked bits to 1.
    pub fn set_flag(&mut self, flag: Status)
        ensures
            final(self).0 == old(self).0 | flag.spec_bit(),
    {
        self.0 = self.0 | flag.status_bit();
    }

    /// Forces the masked bits to 0.
    pub fn clear_flag(&mut self, flag: Status)
        ensures
            final(self).0 == old(self).0 & !flag.spec_bit(),
    {
        self.0 = self.0 & !flag.status_bit();
    }
}

/// The full register file.
#[derive(Copy, Clone, Debug)]
pub struct Registers {
    pub a: u8,
    pub x: u8,
    pub y: u8,
    pub sp: u8,
    pub pc: u16,
    pub sr: StatusRegister,
}

impl Registers {
    /// The reset state: all registers zero, P = 0b0010_0000 (only the
    /// unused bit set).
    pub fn new() -> (r: Registers)
        ensures
            r.a == 0,
            r.x == 0,
            r.y == 0,
            r.sp == 0,
            r.pc == 0,
            r.sr.0 == FLAG_UNUSED,
    {
        Registers { a: 0, x: 0, y: 0, sp: 0, pc: 0, sr: StatusRegister(FLAG_UNUSED) }
    }
}

/// An 8-bit register cell.
#[derive(Copy, Clone, Debug)]
pub struct RegisterChar(pub u8);

impl RegisterChar {
    /// A mutable borrow of the held byte.
    pub fn as_ptr(&mut self) -> (r: &mut u8)
        ensures
            *r == old(self).0,
            final(self).0 == *final(r),
    {
        &mut self.0
    }
}

/// A 16-bit register cell.
#[derive(Copy, Clone, Debug)]
pub struct RegisterWord(pub u16);

impl RegisterWord {
    /// A mutable borrow of the held word.
    pub fn as_ptr(&mut self) -> (r: &mut u16)
        ensures
            *r == old(self).0,
            final(self).0 == *final(r),
    {
        &mut self.0
    }
}

} // verus!
