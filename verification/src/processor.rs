//! The processor: the register file bundled with the bus, the operand
//! decoder, and the execution engine for the full documented opcode set.
//!
//! Every public operation is specified against the ghost machine state
//! `Mach`: the six registers together with the 64 KiB of memory as a
//! sequence of bytes. `spec_step` is the mathematical single-step
//! interpreter; `step` is proved to implement it.

use vstd::prelude::*;
use crate::bus::{hi_byte, lo_byte, w16, w8, word16, Bus, BUS_SIZE};
use crate::cpu;
use crate::cpu::{
    spec_adc, spec_asl, spec_bit_flags, spec_branch, spec_compare, spec_lsr, spec_rol, spec_ror,
    spec_sbc,
};
use crate::opcode::{opcode_entry, spec_opcode, AugmentOpcodeInfo, Instruction, MemAddressMode, Opcode};
use crate::register::{
    flag_set, spec_nz, Registers, Status, FLAG_BREAK, FLAG_CARRY, FLAG_DECIMAL, FLAG_INTERRUPT,
    FLAG_NEGATIVE, FLAG_OVERFLOW, FLAG_UNUSED, FLAG_ZERO,
};

verus! {

/// The mathematical state of the machine: registers and memory.
#[verifier::ext_equal]
pub ghost struct Mach {
    pub a: u8,
    pub x: u8,
    pub y: u8,
    pub sp: u8,
    pub pc: u16,
    pub p: u8,
    pub mem: Seq<u8>,
}

impl Mach {
    /// The memory covers the full 16-bit address space.
    pub open spec fn wf(self) -> bool {
        self.mem.len() == BUS_SIZE
    }
}

/// The byte of `m` at `addr`.
pub open spec fn mread(m: Mach, addr: u16) -> u8 {
    m.mem[addr as int]
}

/// `m` with the byte at `addr` replaced by `v`.
pub open spec fn mwrite(m: Mach, addr: u16, v: u8) -> Mach {
    Mach { mem: m.mem.update(addr as int, v), ..m }
}

/// The little-endian word of `m` at `addr`; the high byte's address wraps
/// modulo 2^16.
pub open spec fn rword(m: Mach, addr: u16) -> u16 {
    word16(mread(m, addr), mread(m, w16(addr + 1)))
}

/// The little-endian word whose pointer lives in the zero page: the high
/// byte's address wraps within the zero page.
pub open spec fn zpword(m: Mach, zp: u8) -> u16 {
    word16(mread(m, zp as u16), mread(m, w8(zp + 1) as u16))
}

/// What the processor is momentarily doing; informational only.
pub enum ProcState {
    Idle,
    Execute,
    MemoryRead,
    MemoryWrite,
}

/// A 6502 processor: register file, bus, and a state tag.
pub struct Processor {
    pub registers: Registers,
    pub bus: Bus,
    pub state: ProcState,
}

impl View for Processor {
    type V = Mach;

    open spec fn view(&self) -> Mach {
        Mach {
            a: self.registers.a,
            x: self.registers.x,
            y: self.registers.y,
            sp: self.registers.sp,
            pc: self.registers.pc,
            p: self.registers.sr.0,
            mem: self.bus@,
        }
    }
}

impl Processor {
    /// The bus is intact: the machine state is well-formed.
    pub open spec fn wf(&self) -> bool {
        self@.wf()
    }

    /// The reset state: registers zero, P = 0b0010_0000, memory all zeros.
    pub fn new() -> (r: Processor)
        ensures
            r.wf(),
            r@.a == 0 && r@.x == 0 && r@.y == 0 && r@.sp == 0 && r@.pc == 0,
            r@.p == FLAG_UNUSED,
            forall|i: int| 0 <= i < BUS_SIZE ==> r@.mem[i] == 0,
    {
        Processor { registers: Registers::new(), bus: Bus::new(), state: ProcState::Idle }
    }

    /// The byte of memory at `addr`.
    pub fn read_memory(&self, addr: u16) -> (r: u8)
        requires
            self.wf(),
        ensures
            r == mread(self@, addr),
    {
        self.bus.read_byte(addr)
    }

    /// Stores `val` at `addr`; registers and all other memory unchanged.
    pub fn write_memory(&mut self, addr: u16, val: u8)
        requires
            old(self).wf(),
        ensures
            final(self).wf(),
            final(self)@ == mwrite(old(self)@, addr, val),
    {
        self.bus.write_byte(addr, val);
    }

    /// Copies `bytes` into memory starting at `origin`; registers and all
    /// memory outside the copied range unchanged.
    pub fn load_program(&mut self, bytes: &[u8], origin: u16)
        requires
            old(self).wf(),
            origin + bytes@.len() <= BUS_SIZE,
        ensures
            final(self).wf(),
            final(self)@.a == old(self)@.a,
            final(self)@.x == old(self)@.x,
            final(self)@.y == old(self)@.y,
            final(self)@.sp == old(self)@.sp,
            final(self)@.pc == old(self)@.pc,
            final(self)@.p == old(self)@.p,
            final(self)@.mem.len() == old(self)@.mem.len(),
            forall|i: int|
                0 <= i < bytes@.len() ==> final(self)@.mem[origin + i] == bytes@[i],
            forall|i: int|
                (0 <= i < origin || origin + bytes@.len() <= i < BUS_SIZE) ==> final(self)@.mem[i]
                    == old(self)@.mem[i],
    {
        let mut i: usize = 0;
        let n: usize = bytes.len();
        while i < n
            invariant
                self.wf(),
                n == bytes@.len(),
                origin + n <= BUS_SIZE,
                i <= n,
                self@.a == old(self)@.a,
                self@.x == old(self)@.x,
                self@.y == old(self)@.y,
                self@.sp == old(self)@.sp,
                self@.pc == old(self)@.pc,
                self@.p == old(self)@.p,
                self@.mem.len() == old(self)@.mem.len(),
                forall|j: int| 0 <= j < i ==> self@.mem[origin + j] == bytes@[j],
                forall|j: int|
                    (0 <= j < origin || origin + n <= j < BUS_SIZE) ==> self@.mem[j] == old(self)@.mem[j],
            decreases n - i,
        {
            let b = *vstd::slice::slice_index_get(bytes, i);
            self.bus.write_byte(origin + i as u16, b);
            i = i + 1;
        }
    }
}

/// What an addressing mode decodes to, starting at `m.pc` (already past
/// the opcode byte): the operand shape and the new program counter.
///
/// `Indirect` (used only by JMP) reads its pointer with a full 16-bit
/// wrap at the page boundary: this core implements the corrected
/// behaviour, not the documented hardware bug that fetched the high byte
/// from the start of the same page.
pub open spec fn spec_decode(m: Mach, mode: MemAddressMode) -> (AugmentOpcodeInfo, u16) {
    match mode {
        MemAddressMode::Implied => (AugmentOpcodeInfo::Implied, m.pc),
        MemAddressMode::Accumulator => (AugmentOpcodeInfo::Accumulator, m.pc),
        MemAddressMode::Immediate => (
            AugmentOpcodeInfo::Immediate(mread(m, m.pc)),
            w16(m.pc + 1),
        ),
        MemAddressMode::Relative => (AugmentOpcodeInfo::Immediate(mread(m, m.pc)), w16(m.pc + 1)),
        MemAddressMode::ZeroPage => (
            AugmentOpcodeInfo::EffectiveAddress(mread(m, m.pc) as u16),
            w16(m.pc + 1),
        ),
        MemAddressMode::ZeroPageIndexedX => (
            AugmentOpcodeInfo::EffectiveAddress(w8(mread(m, m.pc) + m.x) as u16),
            w16(m.pc + 1),
        ),
        MemAddressMode::ZeroPageIndexedY => (
            AugmentOpcodeInfo::EffectiveAddress(w8(mread(m, m.pc) + m.y) as u16),
            w16(m.pc + 1),
        ),
        MemAddressMode::Absolute => (
            AugmentOpcodeInfo::EffectiveAddress(rword(m, m.pc)),
            w16(m.pc + 2),
        ),
        MemAddressMode::AbsoluteIndexedX => (
            AugmentOpcodeInfo::EffectiveAddress(w16(rword(m, m.pc) + m.x)),
            w16(m.pc + 2),
        ),
        MemAddressMode::AbsoluteIndexedY => (
            AugmentOpcodeInfo::EffectiveAddress(w16(rword(m, m.pc) + m.y)),
            w16(m.pc + 2),
        ),
        MemAddressMode::Indirect => (
            AugmentOpcodeInfo::EffectiveAddress(rword(m, rword(m, m.pc))),
            w16(m.pc + 2),
        ),
        MemAddressMode::IndirectIndexedX => (
            AugmentOpcodeInfo::EffectiveAddress(zpword(m, w8(mread(m, m.pc) + m.x))),
            w16(m.pc + 1),
        ),
        MemAddressMode::IndirectIndexedY => (
            AugmentOpcodeInfo::EffectiveAddress(w16(zpword(m, mread(m, m.pc)) + m.y)),
            w16(m.pc + 1),
        ),
    }
}

/// The byte an operand shape stands for: an immediate is itself, the
/// accumulator case reads A, an effective address reads memory. The
/// implied case carries no byte; it reads as 0.
pub open spec fn ivalue(m: Mach, info: AugmentOpcodeInfo) -> u8 {
    match info {
        AugmentOpcodeInfo::Implied => 0,
        AugmentOpcodeInfo::Accumulator => m.a,
        AugmentOpcodeInfo::Immediate(v) => v,
        AugmentOpcodeInfo::EffectiveAddress(a) => mread(m, a),
    }
}

/// Writing a byte back through an operand shape: to A, or to memory at
/// the effective address. The other shapes name no destination and leave
/// the machine unchanged.
pub open spec fn istore(m: Mach, info: AugmentOpcodeInfo, v: u8) -> Mach {
    match info {
        AugmentOpcodeInfo::Accumulator => Mach { a: v, ..m },
        AugmentOpcodeInfo::EffectiveAddress(a) => mwrite(m, a, v),
        _ => m,
    }
}

/// `pc + k` wrapping modulo 2^16.
fn wrap_add16(pc: u16, k: u16) -> (r: u16)
    ensures
        r == w16(pc + k),
{
    ((pc as u32 + k as u32) % 0x10000) as u16
}

/// `b + k` wrapping modulo 2^8.
fn wrap_add8(b: u8, k: u8) -> (r: u8)
    ensures
        r == w8(b + k),
{
    ((b as u16 + k as u16) % 0x100) as u8
}

impl Processor {
    /// Advances the program counter by `k`, wrapping modulo 2^16.
    fn advance_pc(&mut self, k: u16)
        requires
            old(self).wf(),
        ensures
            final(self).wf(),
            final(self)@ == (Mach { pc: w16(old(self)@.pc + k), ..old(self)@ }),
    {
        self.registers.pc = wrap_add16(self.registers.pc, k);
    }

    /// Reads the zero-page word whose low byte sits at `zp`; the high
    /// byte's address wraps within the zero page.
    fn read_word_zp(&self, zp: u8) -> (r: u16)
        requires
            self.wf(),
        ensures
            r == zpword(self@, zp),
    {
        let lo = self.bus.read_byte(zp as u16);
        let hi = self.bus.read_byte(wrap_add8(zp, 1) as u16);
        hi as u16 * 0x100 + lo as u16
    }

    /// Decodes the operand for `mode`, reading operand bytes at PC and
    /// advancing PC past them; memory and all registers but PC unchanged.
    pub fn decode_operand(&mut self, mode: MemAddressMode) -> (info: AugmentOpcodeInfo)
        requires
            old(self).wf(),
        ensures
            final(self).wf(),
            info == spec_decode(old(self)@, mode).0,
            final(self)@ == (Mach { pc: spec_decode(old(self)@, mode).1, ..old(self)@ }),
    {
        match mode {
            MemAddressMode::Implied => AugmentOpcodeInfo::Implied,
            MemAddressMode::Accumulator => AugmentOpcodeInfo::Accumulator,
            MemAddressMode::Immediate | MemAddressMode::Relative => {
                let b = self.bus.read_byte(self.registers.pc);
                self.advance_pc(1);
                AugmentOpcodeInfo::Immediate(b)
            },
            MemAddressMode::ZeroPage => {
                let b = self.bus.read_byte(self.registers.pc);
                self.advance_pc(1);
                AugmentOpcodeInfo::EffectiveAddress(b as u16)
            },
            MemAddressMode::ZeroPageIndexedX => {
                let b = self.bus.read_byte(self.registers.pc);
                self.advance_pc(1);
                AugmentOpcodeInfo::EffectiveAddress(wrap_add8(b, self.registers.x) as u16)
            },
            MemAddressMode::ZeroPageIndexedY => {
                let b = self.bus.read_byte(self.registers.pc);
                self.advance_pc(1);
                AugmentOpcodeInfo::EffectiveAddress(wrap_add8(b, self.registers.y) as u16)
            },
            MemAddressMode::Absolute => {
                let w = self.bus.read_word(self.registers.pc);
                self.advance_pc(2);
                AugmentOpcodeInfo::EffectiveAddress(w)
            },
            MemAddressMode::AbsoluteIndexedX => {
                let w = self.bus.read_word(self.registers.pc);
                self.advance_pc(2);
                AugmentOpcodeInfo::EffectiveAddress(wrap_add16(w, self.registers.x as u16))
            },
            MemAddressMode::AbsoluteIndexedY => {
                let w = self.bus.read_word(self.registers.pc);
                self.advance_pc(2);
                AugmentOpcodeInfo::EffectiveAddress(wrap_add16(w, self.registers.y as u16))
            },
            MemAddressMode::Indirect => {
                let w = self.bus.read_word(self.registers.pc);
                self.advance_pc(2);
                AugmentOpcodeInfo::EffectiveAddress(self.bus.read_word(w))
            },
            MemAddressMode::IndirectIndexedX => {
                let b = self.bus.read_byte(self.registers.pc);
                self.advance_pc(1);
                let ptr = wrap_add8(b, self.registers.x);
                AugmentOpcodeInfo::EffectiveAddress(self.read_word_zp(ptr))
            },
            MemAddressMode::IndirectIndexedY => {
                let b = self.bus.read_byte(self.registers.pc);
                self.advance_pc(1);
                let w = self.read_word_zp(b);
                AugmentOpcodeInfo::EffectiveAddress(wrap_add16(w, self.registers.y as u16))
            },
        }
    }

    /// The byte the decoded operand stands for.
    pub fn operand_value(&self, info: AugmentOpcodeInfo) -> (v: u8)
        requires
            self.wf(),
        ensures
            v == ivalue(self@, info),
    {
        match info {
            AugmentOpcodeInfo::Implied => 0,
            AugmentOpcodeInfo::Accumulator => self.registers.a,
            AugmentOpcodeInfo::Immediate(v) => v,
            AugmentOpcodeInfo::EffectiveAddress(a) => self.bus.read_byte(a),
        }
    }

    /// Writes `v` back through the decoded operand: to the accumulator or
    /// to memory; shapes without a destination leave the machine unchanged.
    pub fn operand_store(&mut self, info: AugmentOpcodeInfo, v: u8)
        requires
            old(self).wf(),
        ensures
            final(self).wf(),
            final(self)@ == istore(old(self)@, info, v),
    {
        match info {
            AugmentOpcodeInfo::Accumulator => {
                self.registers.a = v;
            },
            AugmentOpcodeInfo::EffectiveAddress(a) => {
                self.bus.write_byte(a, v);
            },
            _ => {},
        }
    }
}

/// The address in the stack page that `sp` names: 0x0100 | sp.
pub open spec fn stack_addr(sp: u8) -> u16 {
    (0x100 + sp) as u16
}

/// A push: the byte goes to 0x0100 | SP and SP steps down, wrapping
/// within the page.
pub open spec fn spec_push(m: Mach, v: u8) -> Mach {
    Mach { sp: w8(m.sp - 1), ..mwrite(m, stack_addr(m.sp), v) }
}

/// A pull: SP steps up, wrapping within the page, and the byte at
/// 0x0100 | SP is read. Returns the new machine and the byte.
pub open spec fn spec_pull(m: Mach) -> (Mach, u8) {
    let sp2 = w8(m.sp + 1);
    (Mach { sp: sp2, ..m }, mread(m, stack_addr(sp2)))
}

/// PHA: push the accumulator.
pub open spec fn spec_pha(m: Mach) -> Mach {
    spec_push(m, m.a)
}

/// PHP: push P with the break mark and the unused bit forced to 1; the
/// live P is unchanged.
pub open spec fn spec_php(m: Mach) -> Mach {
    spec_push(m, m.p | (FLAG_BREAK | FLAG_UNUSED))
}

/// PLA: pull into the accumulator, redefining N and Z from it.
pub open spec fn spec_pla(m: Mach) -> Mach {
    let (m1, v) = spec_pull(m);
    Mach { a: v, p: spec_nz(m1.p, v), ..m1 }
}

/// PLP: pull into P, forcing the unused bit to 1 and the break mark to 0.
pub open spec fn spec_plp(m: Mach) -> Mach {
    let (m1, v) = spec_pull(m);
    Mach { p: (v | FLAG_UNUSED) & !FLAG_BREAK, ..m1 }
}

/// JSR: push PC - 1 (the address of the instruction's last byte), high
/// byte first, then jump to the target.
pub open spec fn spec_jsr(m: Mach, target: u16) -> Mach {
    let ret = w16(m.pc - 1);
    let m2 = spec_push(spec_push(m, hi_byte(ret)), lo_byte(ret));
    Mach { pc: target, ..m2 }
}

/// RTS: pull the return address, low byte first, and resume one past it.
pub open spec fn spec_rts(m: Mach) -> Mach {
    let (m1, lo) = spec_pull(m);
    let (m2, hi) = spec_pull(m1);
    Mach { pc: w16(word16(lo, hi) + 1), ..m2 }
}

/// BRK: push PC + 1 high byte first, push P with the break mark and the
/// unused bit forced to 1, set the interrupt-disable flag, and jump
/// through the vector at 0xFFFE.
pub open spec fn spec_brk(m: Mach) -> Mach {
    let ret = w16(m.pc + 1);
    let m3 = spec_push(
        spec_push(spec_push(m, hi_byte(ret)), lo_byte(ret)),
        m.p | (FLAG_BREAK | FLAG_UNUSED),
    );
    Mach { p: m.p | FLAG_INTERRUPT, pc: rword(m3, 0xfffe), ..m3 }
}

/// RTI: pull P (forcing the unused bit to 1 and the break mark to 0),
/// then pull PC, low byte first.
pub open spec fn spec_rti(m: Mach) -> Mach {
    let (m1, v) = spec_pull(m);
    let (m2, lo) = spec_pull(m1);
    let (m3, hi) = spec_pull(m2);
    Mach { p: (v | FLAG_UNUSED) & !FLAG_BREAK, pc: word16(lo, hi), ..m3 }
}

/// `b - k` wrapping modulo 2^8.
fn wrap_sub8(b: u8, k: u8) -> (r: u8)
    ensures
        r == w8(b - k),
{
    proof {
        vstd::arithmetic::div_mod::lemma_mod_multiples_vanish(1, b - k, 0x100);
    }
    ((b as u16 + 0x100 - k as u16) % 0x100) as u8
}

/// `pc - k` wrapping modulo 2^16.
fn wrap_sub16(pc: u16, k: u16) -> (r: u16)
    ensures
        r == w16(pc - k),
{
    proof {
        vstd::arithmetic::div_mod::lemma_mod_multiples_vanish(1, pc - k, 0x10000);
    }
    ((pc as u32 + 0x10000 - k as u32) % 0x10000) as u16
}

impl Processor {
    /// Writes `v` to the stack page at SP and steps SP down, wrapping.
    fn push_byte(&mut self, v: u8)
        requires
            old(self).wf(),
        ensures
            final(self).wf(),
            final(self)@ == spec_push(old(self)@, v),
    {
        let addr: u16 = 0x100 + self.registers.sp as u16;
        self.bus.write_byte(addr, v);
        self.registers.sp = wrap_sub8(self.registers.sp, 1);
    }

    /// Steps SP up, wrapping, and reads the byte in the stack page at SP.
    fn pull_byte(&mut self) -> (v: u8)
        requires
            old(self).wf(),
        ensures
            final(self).wf(),
            final(self)@ == spec_pull(old(self)@).0,
            v == spec_pull(old(self)@).1,
    {
        let sp2 = wrap_add8(self.registers.sp, 1);
        self.registers.sp = sp2;
        self.bus.read_byte(0x100 + sp2 as u16)
    }

    /// PHA.
    pub fn push_accumulator(&mut self)
        requires
            old(self).wf(),
        ensures
            final(self).wf(),
            final(self)@ == spec_pha(old(self)@),
    {
        let a = self.registers.a;
        self.push_byte(a);
    }

    /// PHP: the pushed copy of P carries the break mark and the unused
    /// bit; the live P is unchanged.
    pub fn push_status(&mut self)
        requires
            old(self).wf(),
        ensures
            final(self).wf(),
            final(self)@ == spec_php(old(self)@),
    {
        let img: u8 = self.registers.sr.0 | (FLAG_BREAK | FLAG_UNUSED);
        self.push_byte(img);
    }

    /// PLA: pulls the accumulator and redefines N and Z from it.
    pub fn pop_accumulator(&mut self)
        requires
            old(self).wf(),
        ensures
            final(self).wf(),
            final(self)@ == spec_pla(old(self)@),
    {
        let v = self.pull_byte();
        cpu::load_u8_memory(&mut self.registers.sr, &mut self.registers.a, v);
    }

    /// PLP: pulls P, forcing the unused bit to 1 and the break mark to 0.
    pub fn pop_status(&mut self)
        requires
            old(self).wf(),
        ensures
            final(self).wf(),
            final(self)@ == spec_plp(old(self)@),
    {
        let v = self.pull_byte();
        self.registers.sr.0 = (v | FLAG_UNUSED) & !FLAG_BREAK;
    }

    /// JMP: sets PC to the target.
    pub fn jump(&mut self, addr: u16)
        requires
            old(self).wf(),
        ensures
            final(self).wf(),
            final(self)@ == (Mach { pc: addr, ..old(self)@ }),
    {
        self.registers.pc = addr;
    }

    /// JSR: pushes PC - 1 high byte first, then jumps to the target.
    pub fn jump_save_return(&mut self, addr: u16)
        requires
            old(self).wf(),
        ensures
            final(self).wf(),
            final(self)@ == spec_jsr(old(self)@, addr),
    {
        let ret: u16 = wrap_sub16(self.registers.pc, 1);
        self.push_byte((ret / 0x100) as u8);
        self.push_byte((ret % 0x100) as u8);
        self.registers.pc = addr;
    }

    /// RTS: pulls the return address, low byte first, and resumes one
    /// past it.
    pub fn return_from_subroutine(&mut self)
        requires
            old(self).wf(),
        ensures
            final(self).wf(),
            final(self)@ == spec_rts(old(self)@),
    {
        let lo = self.pull_byte();
        let hi = self.pull_byte();
        self.registers.pc = wrap_add16(hi as u16 * 0x100 + lo as u16, 1);
    }

    /// BRK: pushes PC + 1 and a copy of P with the break mark, sets the
    /// interrupt-disable flag, and jumps through the vector at 0xFFFE.
    pub fn force_break(&mut self)
        requires
            old(self).wf(),
        ensures
            final(self).wf(),
            final(self)@ == spec_brk(old(self)@),
    {
        let ret: u16 = wrap_add16(self.registers.pc, 1);
        let img: u8 = self.registers.sr.0 | (FLAG_BREAK | FLAG_UNUSED);
        self.push_byte((ret / 0x100) as u8);
        self.push_byte((ret % 0x100) as u8);
        self.push_byte(img);
        self.registers.sr.set_flag(Status::InterruptDisable);
        self.registers.pc = self.bus.read_word(0xfffe);
    }

    /// RTI: pulls P (forcing the unused bit, clearing the break mark),
    /// then pulls PC, low byte first.
    pub fn return_from_interrupt(&mut self)
        requires
            old(self).wf(),
        ensures
            final(self).wf(),
            final(self)@ == spec_rti(old(self)@),
    {
        let v = self.pull_byte();
        let lo = self.pull_byte();
        let hi = self.pull_byte();
        self.registers.sr.0 = (v | FLAG_UNUSED) & !FLAG_BREAK;
        self.registers.pc = hi as u16 * 0x100 + lo as u16;
    }

    /// ADC: adds the operand and the carry to the accumulator, binary or
    /// decimal according to the D flag, updating N, Z, C and V.
    pub fn add_with_carry(&mut self, val: u8)
        requires
            old(self).wf(),
        ensures
            final(self).wf(),
            ({
                let (ra, rp) = spec_adc(old(self)@.a, val, old(self)@.p);
                final(self)@ == (Mach { a: ra, p: rp, ..old(self)@ })
            }),
    {
        let a = self.registers.a;
        let cin: u16 = if self.registers.sr.contains(Status::Carry) {
            1
        } else {
            0
        };
        let t: u16 = a as u16 + val as u16 + cin;
        let rbin: u8 = (t % 0x100) as u8;
        let vf: bool = (a ^ rbin) & (val ^ rbin) & 0x80 == 0x80;
        let result: u8;
        let carry: bool;
        if self.registers.sr.contains(Status::Decimal) {
            let lo: u16 = (a % 16) as u16 + (val % 16) as u16 + cin;
            let lo2: u16 = if lo > 9 {
                lo - 10
            } else {
                lo
            };
            let hc: u16 = if lo > 9 {
                1
            } else {
                0
            };
            let hi: u16 = (a / 16) as u16 + (val / 16) as u16 + hc;
            let hi2: u16 = if hi > 9 {
                hi - 10
            } else {
                hi
            };
            result = ((hi2 * 16 + lo2) % 0x100) as u8;
            carry = hi > 9;
        } else {
            result = rbin;
            carry = t > 0xff;
        }
        let mut scratch: u8 = 0;
        cpu::load_u8_memory(&mut self.registers.sr, &mut scratch, rbin);
        self.registers.a = result;
        if carry {
            self.registers.sr.set_flag(Status::Carry);
        } else {
            self.registers.sr.clear_flag(Status::Carry);
        }
        if vf {
            self.registers.sr.set_flag(Status::Overflow);
        } else {
            self.registers.sr.clear_flag(Status::Overflow);
        }
    }

    /// SBC: subtracts the operand with borrow = NOT carry, binary or
    /// decimal according to the D flag, updating N, Z, C and V.
    pub fn subtract_with_carry(&mut self, val: u8)
        requires
            old(self).wf(),
        ensures
            final(self).wf(),
            ({
                let (ra, rp) = spec_sbc(old(self)@.a, val, old(self)@.p);
                final(self)@ == (Mach { a: ra, p: rp, ..old(self)@ })
            }),
    {
        let a = self.registers.a;
        let cin: u16 = if self.registers.sr.contains(Status::Carry) {
            1
        } else {
            0
        };
        let t: u16 = a as u16 + (!val) as u16 + cin;
        let rbin: u8 = (t % 0x100) as u8;
        let vf: bool = (a ^ rbin) & ((!val) ^ rbin) & 0x80 == 0x80;
        let result: u8;
        let carry: bool;
        if self.registers.sr.contains(Status::Decimal) {
            let lo: u16 = 16 + (a % 16) as u16 - (val % 16) as u16 - (1 - cin);
            let lo2: u16 = if lo < 16 {
                (lo + 10) % 16
            } else {
                lo - 16
            };
            let hb: u16 = if lo < 16 {
                1
            } else {
                0
            };
            let hi: u16 = 16 + (a / 16) as u16 - (val / 16) as u16 - hb;
            let hi2: u16 = if hi < 16 {
                (hi + 10) % 16
            } else {
                hi - 16
            };
            result = (hi2 * 16 + lo2) as u8;
            carry = hi >= 16;
        } else {
            result = rbin;
            carry = t > 0xff;
        }
        let mut scratch: u8 = 0;
        cpu::load_u8_memory(&mut self.registers.sr, &mut scratch, rbin);
        self.registers.a = result;
        if carry {
            self.registers.sr.set_flag(Status::Carry);
        } else {
            self.registers.sr.clear_flag(Status::Carry);
        }
        if vf {
            self.registers.sr.set_flag(Status::Overflow);
        } else {
            self.registers.sr.clear_flag(Status::Overflow);
        }
    }

    /// AND: accumulator AND operand, updating N and Z.
    pub fn and(&mut self, val: u8)
        requires
            old(self).wf(),
        ensures
            final(self).wf(),
            final(self)@ == (Mach {
                a: old(self)@.a & val,
                p: spec_nz(old(self)@.p, old(self)@.a & val),
                ..old(self)@
            }),
    {
        let r: u8 = self.registers.a & val;
        cpu::load_u8_memory(&mut self.registers.sr, &mut self.registers.a, r);
    }

    /// ORA: accumulator OR operand, updating N and Z.
    pub fn or(&mut self, val: u8)
        requires
            old(self).wf(),
        ensures
            final(self).wf(),
            final(self)@ == (Mach {
                a: old(self)@.a | val,
                p: spec_nz(old(self)@.p, old(self)@.a | val),
                ..old(self)@
            }),
    {
        let r: u8 = self.registers.a | val;
        cpu::load_u8_memory(&mut self.registers.sr, &mut self.registers.a, r);
    }

    /// EOR: accumulator XOR operand, updating N and Z.
    pub fn xor_accumulator(&mut self, val: u8)
        requires
            old(self).wf(),
        ensures
            final(self).wf(),
            final(self)@ == (Mach {
                a: old(self)@.a ^ val,
                p: spec_nz(old(self)@.p, old(self)@.a ^ val),
                ..old(self)@
            }),
    {
        let r: u8 = self.registers.a ^ val;
        cpu::load_u8_memory(&mut self.registers.sr, &mut self.registers.a, r);
    }

    /// BIT: N from bit 7 of the operand, V from bit 6, Z iff the operand
    /// shares no bit with the accumulator. A is unchanged.
    pub fn bit(&mut self, val: u8)
        requires
            old(self).wf(),
        ensures
            final(self).wf(),
            final(self)@ == (Mach {
                p: spec_bit_flags(old(self)@.p, old(self)@.a, val),
                ..old(self)@
            }),
    {
        if val & 0x80 == 0x80 {
            self.registers.sr.set_flag(Status::Negative);
        } else {
            self.registers.sr.clear_flag(Status::Negative);
        }
        if val & 0x40 == 0x40 {
            self.registers.sr.set_flag(Status::Overflow);
        } else {
            self.registers.sr.clear_flag(Status::Overflow);
        }
        if self.registers.a & val == 0 {
            self.registers.sr.set_flag(Status::Zero);
        } else {
            self.registers.sr.clear_flag(Status::Zero);
        }
    }

    /// CMP: compares the accumulator with the operand.
    pub fn compare_with_accumulator(&mut self, val: u8)
        requires
            old(self).wf(),
        ensures
            final(self).wf(),
            final(self)@ == (Mach {
                p: spec_compare(old(self)@.p, old(self)@.a, val),
                ..old(self)@
            }),
    {
        let reg = self.registers.a;
        cpu::compare_u8(&mut self.registers.sr, reg, val);
    }

    /// CPX: compares X with the operand.
    pub fn compare_with_x(&mut self, val: u8)
        requires
            old(self).wf(),
        ensures
            final(self).wf(),
            final(self)@ == (Mach {
                p: spec_compare(old(self)@.p, old(self)@.x, val),
                ..old(self)@
            }),
    {
        let reg = self.registers.x;
        cpu::compare_u8(&mut self.registers.sr, reg, val);
    }

    /// CPY: compares Y with the operand.
    pub fn compare_with_y(&mut self, val: u8)
        requires
            old(self).wf(),
        ensures
            final(self).wf(),
            final(self)@ == (Mach {
                p: spec_compare(old(self)@.p, old(self)@.y, val),
                ..old(self)@
            }),
    {
        let reg = self.registers.y;
        cpu::compare_u8(&mut self.registers.sr, reg, val);
    }

    /// DEC on an external byte: wrapping decrement, N and Z from the
    /// result.
    pub fn decrement(&mut self, val: &mut u8)
        requires
            old(self).wf(),
        ensures
            final(self).wf(),
            *final(val) == w8(*old(val) - 1),
            final(self)@ == (Mach {
                p: spec_nz(old(self)@.p, w8(*old(val) - 1)),
                ..old(self)@
            }),
    {
        let r = wrap_sub8(*val, 1);
        cpu::load_u8_memory(&mut self.registers.sr, val, r);
    }

    /// DEX.
    pub fn decrement_x(&mut self)
        requires
            old(self).wf(),
        ensures
            final(self).wf(),
            final(self)@ == (Mach {
                x: w8(old(self)@.x - 1),
                p: spec_nz(old(self)@.p, w8(old(self)@.x - 1)),
                ..old(self)@
            }),
    {
        let r = wrap_sub8(self.registers.x, 1);
        cpu::load_u8_memory(&mut self.registers.sr, &mut self.registers.x, r);
    }

    /// DEY.
    pub fn decrement_y(&mut self)
        requires
            old(self).wf(),
        ensures
            final(self).wf(),
            final(self)@ == (Mach {
                y: w8(old(self)@.y - 1),
                p: spec_nz(old(self)@.p, w8(old(self)@.y - 1)),
                ..old(self)@
            }),
    {
        let r = wrap_sub8(self.registers.y, 1);
        cpu::load_u8_memory(&mut self.registers.sr, &mut self.registers.y, r);
    }

    /// INC on an external byte: wrapping increment, N and Z from the
    /// result.
    pub fn increment(&mut self, val: &mut u8)
        requires
            old(self).wf(),
        ensures
            final(self).wf(),
            *final(val) == w8(*old(val) + 1),
            final(self)@ == (Mach {
                p: spec_nz(old(self)@.p, w8(*old(val) + 1)),
                ..old(self)@
            }),
    {
        let r = wrap_add8(*val, 1);
        cpu::load_u8_memory(&mut self.registers.sr, val, r);
    }

    /// INX.
    pub fn increment_x(&mut self)
        requires
            old(self).wf(),
        ensures
            final(self).wf(),
            final(self)@ == (Mach {
                x: w8(old(self)@.x + 1),
                p: spec_nz(old(self)@.p, w8(old(self)@.x + 1)),
                ..old(self)@
            }),
    {
        let r = wrap_add8(self.registers.x, 1);
        cpu::load_u8_memory(&mut self.registers.sr, &mut self.registers.x, r);
    }

    /// INY.
    pub fn increment_y(&mut self)
        requires
            old(self).wf(),
        ensures
            final(self).wf(),
            final(self)@ == (Mach {
                y: w8(old(self)@.y + 1),
                p: spec_nz(old(self)@.p, w8(old(self)@.y + 1)),
                ..old(self)@
            }),
    {
        let r = wrap_add8(self.registers.y, 1);
        cpu::load_u8_memory(&mut self.registers.sr, &mut self.registers.y, r);
    }

    /// ROL on an external byte, through the carry flag.
    pub fn rotate_left(&mut self, val: &mut u8)
        requires
            old(self).wf(),
        ensures
            final(self).wf(),
            ({
                let (r, p) = spec_rol(old(self)@.p, *old(val));
                *final(val) == r && final(self)@ == (Mach { p: p, ..old(self)@ })
            }),
    {
        cpu::rotate_left(&mut self.registers.sr, val);
    }

    /// ROR on an external byte, through the carry flag.
    pub fn rotate_right(&mut self, val: &mut u8)
        requires
            old(self).wf(),
        ensures
            final(self).wf(),
            ({
                let (r, p) = spec_ror(old(self)@.p, *old(val));
                *final(val) == r && final(self)@ == (Mach { p: p, ..old(self)@ })
            }),
    {
        cpu::rotate_right(&mut self.registers.sr, val);
    }

    /// STA.
    pub fn store_accumulator(&mut self, addr: u16)
        requires
            old(self).wf(),
        ensures
            final(self).wf(),
            final(self)@ == mwrite(old(self)@, addr, old(self)@.a),
    {
        let a = self.registers.a;
        self.bus.write_byte(addr, a);
    }

    /// STX.
    pub fn store_x(&mut self, addr: u16)
        requires
            old(self).wf(),
        ensures
            final(self).wf(),
            final(self)@ == mwrite(old(self)@, addr, old(self)@.x),
    {
        let x = self.registers.x;
        self.bus.write_byte(addr, x);
    }

    /// STY.
    pub fn store_y(&mut self, addr: u16)
        requires
            old(self).wf(),
        ensures
            final(self).wf(),
            final(self)@ == mwrite(old(self)@, addr, old(self)@.y),
    {
        let y = self.registers.y;
        self.bus.write_byte(addr, y);
    }

    /// TAX: X takes A, updating N and Z.
    pub fn load_accumulator_in_x(&mut self)
        requires
            old(self).wf(),
        ensures
            final(self).wf(),
            final(self)@ == (Mach {
                x: old(self)@.a,
                p: spec_nz(old(self)@.p, old(self)@.a),
                ..old(self)@
            }),
    {
        let a = self.registers.a;
        cpu::load_u8_memory(&mut self.registers.sr, &mut self.registers.x, a);
    }

    /// TAY: Y takes A, updating N and Z.
    pub fn load_accumulator_in_y(&mut self)
        requires
            old(self).wf(),
        ensures
            final(self).wf(),
            final(self)@ == (Mach {
                y: old(self)@.a,
                p: spec_nz(old(self)@.p, old(self)@.a),
                ..old(self)@
            }),
    {
        let a = self.registers.a;
        cpu::load_u8_memory(&mut self.registers.sr, &mut self.registers.y, a);
    }

    /// TSX: X takes SP, updating N and Z.
    pub fn load_stackpointer_in_x(&mut self)
        requires
            old(self).wf(),
        ensures
            final(self).wf(),
            final(self)@ == (Mach {
                x: old(self)@.sp,
                p: spec_nz(old(self)@.p, old(self)@.sp),
                ..old(self)@
            }),
    {
        let sp = self.registers.sp;
        cpu::load_u8_memory(&mut self.registers.sr, &mut self.registers.x, sp);
    }

    /// TXA: A takes X, updating N and Z.
    pub fn load_x_in_accumulator(&mut self)
        requires
            old(self).wf(),
        ensures
            final(self).wf(),
            final(self)@ == (Mach {
                a: old(self)@.x,
                p: spec_nz(old(self)@.p, old(self)@.x),
                ..old(self)@
            }),
    {
        let x = self.registers.x;
        cpu::load_u8_memory(&mut self.registers.sr, &mut self.registers.a, x);
    }

    /// TXS: SP takes X. Uniquely among the transfers, no flag changes.
    pub fn load_x_in_stackpointer(&mut self)
        requires
            old(self).wf(),
        ensures
            final(self).wf(),
            final(self)@ == (Mach { sp: old(self)@.x, ..old(self)@ }),
    {
        self.registers.sp = self.registers.x;
    }

    /// TYA: A takes Y, updating N and Z.
    pub fn load_y_in_accumulator(&mut self)
        requires
            old(self).wf(),
        ensures
            final(self).wf(),
            final(self)@ == (Mach {
                a: old(self)@.y,
                p: spec_nz(old(self)@.p, old(self)@.y),
                ..old(self)@
            }),
    {
        let y = self.registers.y;
        cpu::load_u8_memory(&mut self.registers.sr, &mut self.registers.a, y);
    }
}

/// A conditional branch: when taken, PC moves by the operand taken as a
/// signed byte; otherwise nothing changes.
pub open spec fn spec_branch_op(m: Mach, info: AugmentOpcodeInfo, taken: bool) -> Mach {
    if taken {
        Mach { pc: spec_branch(m.pc, ivalue(m, info)), ..m }
    } else {
        m
    }
}

/// The effect of one mnemonic on the machine, given its decoded operand.
/// `m.pc` already points past the whole instruction.
pub open spec fn spec_execute(m: Mach, op: Opcode, info: AugmentOpcodeInfo) -> Mach {
    match op {
        Opcode::ADC => {
            let (ra, rp) = spec_adc(m.a, ivalue(m, info), m.p);
            Mach { a: ra, p: rp, ..m }
        },
        Opcode::AND => {
            let v = ivalue(m, info);
            Mach { a: m.a & v, p: spec_nz(m.p, m.a & v), ..m }
        },
        Opcode::ASL => {
            let (r, p2) = spec_asl(m.p, ivalue(m, info));
            Mach { p: p2, ..istore(m, info, r) }
        },
        Opcode::BCC => spec_branch_op(m, info, !flag_set(m.p, FLAG_CARRY)),
        Opcode::BCS => spec_branch_op(m, info, flag_set(m.p, FLAG_CARRY)),
        Opcode::BEQ => spec_branch_op(m, info, flag_set(m.p, FLAG_ZERO)),
        Opcode::BIT => Mach { p: spec_bit_flags(m.p, m.a, ivalue(m, info)), ..m },
        Opcode::BMI => spec_branch_op(m, info, flag_set(m.p, FLAG_NEGATIVE)),
        Opcode::BNE => spec_branch_op(m, info, !flag_set(m.p, FLAG_ZERO)),
        Opcode::BPL => spec_branch_op(m, info, !flag_set(m.p, FLAG_NEGATIVE)),
        Opcode::BRK => spec_brk(m),
        Opcode::BVC => spec_branch_op(m, info, !flag_set(m.p, FLAG_OVERFLOW)),
        Opcode::BVS => spec_branch_op(m, info, flag_set(m.p, FLAG_OVERFLOW)),
        Opcode::CLC => Mach { p: m.p & !FLAG_CARRY, ..m },
        Opcode::CLD => Mach { p: m.p & !FLAG_DECIMAL, ..m },
        Opcode::CLI => Mach { p: m.p & !FLAG_INTERRUPT, ..m },
        Opcode::CLV => Mach { p: m.p & !FLAG_OVERFLOW, ..m },
        Opcode::CMP => Mach { p: spec_compare(m.p, m.a, ivalue(m, info)), ..m },
        Opcode::CPX => Mach { p: spec_compare(m.p, m.x, ivalue(m, info)), ..m },
        Opcode::CPY => Mach { p: spec_compare(m.p, m.y, ivalue(m, info)), ..m },
        Opcode::DEC => {
            let r = w8(ivalue(m, info) - 1);
            Mach { p: spec_nz(m.p, r), ..istore(m, info, r) }
        },
        Opcode::DEX => Mach { x: w8(m.x - 1), p: spec_nz(m.p, w8(m.x - 1)), ..m },
        Opcode::DEY => Mach { y: w8(m.y - 1), p: spec_nz(m.p, w8(m.y - 1)), ..m },
        Opcode::EOR => {
            let v = ivalue(m, info);
            Mach { a: m.a ^ v, p: spec_nz(m.p, m.a ^ v), ..m }
        },
        Opcode::INC => {
            let r = w8(ivalue(m, info) + 1);
            Mach { p: spec_nz(m.p, r), ..istore(m, info, r) }
        },
        Opcode::INX => Mach { x: w8(m.x + 1), p: spec_nz(m.p, w8(m.x + 1)), ..m },
        Opcode::INY => Mach { y: w8(m.y + 1), p: spec_nz(m.p, w8(m.y + 1)), ..m },
        Opcode::JMP => match info {
            AugmentOpcodeInfo::EffectiveAddress(a) => Mach { pc: a, ..m },
            _ => m,
        },
        Opcode::JSR => match info {
            AugmentOpcodeInfo::EffectiveAddress(a) => spec_jsr(m, a),
            _ => m,
        },
        Opcode::LDA => {
            let v = ivalue(m, info);
            Mach { a: v, p: spec_nz(m.p, v), ..m }
        },
        Opcode::LDX => {
            let v = ivalue(m, info);
            Mach { x: v, p: spec_nz(m.p, v), ..m }
        },
        Opcode::LDY => {
            let v = ivalue(m, info);
            Mach { y: v, p: spec_nz(m.p, v), ..m }
        },
        Opcode::LSR => {
            let (r, p2) = spec_lsr(m.p, ivalue(m, info));
            Mach { p: p2, ..istore(m, info, r) }
        },
        Opcode::NOP => m,
        Opcode::ORA => {
            let v = ivalue(m, info);
            Mach { a: m.a | v, p: spec_nz(m.p, m.a | v), ..m }
        },
        Opcode::PHA => spec_pha(m),
        Opcode::PHP => spec_php(m),
        Opcode::PLA => spec_pla(m),
        Opcode::PLP => spec_plp(m),
        Opcode::ROL => {
            let (r, p2) = spec_rol(m.p, ivalue(m, info));
            Mach { p: p2, ..istore(m, info, r) }
        },
        Opcode::ROR => {
            let (r, p2) = spec_ror(m.p, ivalue(m, info));
            Mach { p: p2, ..istore(m, info, r) }
        },
        Opcode::RTI => spec_rti(m),
        Opcode::RTS => spec_rts(m),
        Opcode::SBC => {
            let (ra, rp) = spec_sbc(m.a, ivalue(m, info), m.p);
            Mach { a: ra, p: rp, ..m }
        },
        Opcode::SEC => Mach { p: m.p | FLAG_CARRY, ..m },
        Opcode::SED => Mach { p: m.p | FLAG_DECIMAL, ..m },
        Opcode::SEI => Mach { p: m.p | FLAG_INTERRUPT, ..m },
        Opcode::STA => match info {
            AugmentOpcodeInfo::EffectiveAddress(a) => mwrite(m, a, m.a),
            _ => m,
        },
        Opcode::STX => match info {
            AugmentOpcodeInfo::EffectiveAddress(a) => mwrite(m, a, m.x),
            _ => m,
        },
        Opcode::STY => match info {
            AugmentOpcodeInfo::EffectiveAddress(a) => mwrite(m, a, m.y),
            _ => m,
        },
        Opcode::TAX => Mach { x: m.a, p: spec_nz(m.p, m.a), ..m },
        Opcode::TAY => Mach { y: m.a, p: spec_nz(m.p, m.a), ..m },
        Opcode::TSX => Mach { x: m.sp, p: spec_nz(m.p, m.sp), ..m },
        Opcode::TXA => Mach { a: m.x, p: spec_nz(m.p, m.x), ..m },
        Opcode::TXS => Mach { sp: m.x, ..m },
        Opcode::TYA => Mach { a: m.y, p: spec_nz(m.p, m.y), ..m },
    }
}

/// The effect of one instruction: decode the operand at `m.pc` (already
/// past the opcode byte), then execute the mnemonic.
pub open spec fn spec_execute_instruction(m: Mach, inst: Instruction) -> Mach {
    let (info, pc2) = spec_decode(m, inst.1);
    spec_execute(Mach { pc: pc2, ..m }, inst.0, info)
}

/// One whole step: fetch the opcode byte at PC, advance PC past it, look
/// the byte up in the table, and execute. An illegal opcode consumes its
/// byte and does nothing else.
pub open spec fn spec_step(m: Mach) -> Mach {
    let m1 = Mach { pc: w16(m.pc + 1), ..m };
    match spec_opcode(mread(m, m.pc)) {
        Option::Some(inst) => spec_execute_instruction(m1, inst),
        Option::None => m1,
    }
}

/// `n` machine steps from `m`.
pub open spec fn spec_run(m: Mach, n: nat) -> Mach
    decreases n,
{
    if n == 0 {
        m
    } else {
        spec_run(spec_step(m), (n - 1) as nat)
    }
}

proof fn lemma_run_snoc(m: Mach, n: nat)
    ensures
        spec_run(m, n + 1) == spec_step(spec_run(m, n)),
    decreases n,
{
    assert(spec_run(m, n + 1) == spec_run(spec_step(m), n as nat));
    if n > 0 {
        lemma_run_snoc(spec_step(m), (n - 1) as nat);
    }
}

impl Processor {
    /// Fetches the opcode byte at PC, advances PC past it, and looks it
    /// up in the opcode table. `None` names an illegal opcode.
    pub fn read_next_instruction(&mut self) -> (r: Option<Instruction>)
        requires
            old(self).wf(),
        ensures
            final(self).wf(),
            final(self)@ == (Mach { pc: w16(old(self)@.pc + 1), ..old(self)@ }),
            r == spec_opcode(mread(old(self)@, old(self)@.pc)),
    {
        let op = self.bus.read_byte(self.registers.pc);
        self.advance_pc(1);
        opcode_entry(op)
    }

    /// Decodes the operand for the instruction's addressing mode, then
    /// performs the mnemonic: exactly `spec_execute_instruction`.
    pub fn execute_instruction(&mut self, inst: Instruction)
        requires
            old(self).wf(),
        ensures
            final(self).wf(),
            final(self)@ == spec_execute_instruction(old(self)@, inst),
    {
        let info = self.decode_operand(inst.1);
        match inst.0 {
            Opcode::ADC => {
                let v = self.operand_value(info);
                self.add_with_carry(v);
            },
            Opcode::AND => {
                let v = self.operand_value(info);
                self.and(v);
            },
            Opcode::ASL => {
                let mut t = self.operand_value(info);
                cpu::shift_left(&mut self.registers.sr, &mut t);
                self.operand_store(info, t);
            },
            Opcode::BCC => {
                let off = self.operand_value(info);
                if !self.registers.sr.contains(Status::Carry) {
                    cpu::branch(&mut self.registers.pc, off);
                }
            },
            Opcode::BCS => {
                let off = self.operand_value(info);
                if self.registers.sr.contains(Status::Carry) {
                    cpu::branch(&mut self.registers.pc, off);
                }
            },
            Opcode::BEQ => {
                let off = self.operand_value(info);
                if self.registers.sr.contains(Status::Zero) {
                    cpu::branch(&mut self.registers.pc, off);
                }
            },
            Opcode::BIT => {
                let v = self.operand_value(info);
                self.bit(v);
            },
            Opcode::BMI => {
                let off = self.operand_value(info);
                if self.registers.sr.contains(Status::Negative) {
                    cpu::branch(&mut self.registers.pc, off);
                }
            },
            Opcode::BNE => {
                let off = self.operand_value(info);
                if !self.registers.sr.contains(Status::Zero) {
                    cpu::branch(&mut self.registers.pc, off);
                }
            },
            Opcode::BPL => {
                let off = self.operand_value(info);
                if !self.registers.sr.contains(Status::Negative) {
                    cpu::branch(&mut self.registers.pc, off);
                }
            },
            Opcode::BRK => {
                self.force_break();
            },
            Opcode::BVC => {
                let off = self.operand_value(info);
                if !self.registers.sr.contains(Status::Overflow) {
                    cpu::branch(&mut self.registers.pc, off);
                }
            },
            Opcode::BVS => {
                let off = self.operand_value(info);
                if self.registers.sr.contains(Status::Overflow) {
                    cpu::branch(&mut self.registers.pc, off);
                }
            },
            Opcode::CLC => self.registers.sr.clear_flag(Status::Carry),
            Opcode::CLD => self.registers.sr.clear_flag(Status::Decimal),
            Opcode::CLI => self.registers.sr.clear_flag(Status::InterruptDisable),
            Opcode::CLV => self.registers.sr.clear_flag(Status::Overflow),
            Opcode::CMP => {
                let v = self.operand_value(info);
                self.compare_with_accumulator(v);
            },
            Opcode::CPX => {
                let v = self.operand_value(info);
                self.compare_with_x(v);
            },
            Opcode::CPY => {
                let v = self.operand_value(info);
                self.compare_with_y(v);
            },
            Opcode::DEC => {
                let mut t = self.operand_value(info);
                self.decrement(&mut t);
                self.operand_store(info, t);
            },
            Opcode::DEX => self.decrement_x(),
            Opcode::DEY => self.decrement_y(),
            Opcode::EOR => {
                let v = self.operand_value(info);
                self.xor_accumulator(v);
            },
            Opcode::INC => {
                let mut t = self.operand_value(info);
                self.increment(&mut t);
                self.operand_store(info, t);
            },
            Opcode::INX => self.increment_x(),
            Opcode::INY => self.increment_y(),
            Opcode::JMP => {
                match info {
                    AugmentOpcodeInfo::EffectiveAddress(a) => self.jump(a),
                    _ => {},
                }
            },
            Opcode::JSR => {
                match info {
                    AugmentOpcodeInfo::EffectiveAddress(a) => self.jump_save_return(a),
                    _ => {},
                }
            },
            Opcode::LDA => {
                let v = self.operand_value(info);
                cpu::load_u8_memory(&mut self.registers.sr, &mut self.registers.a, v);
            },
            Opcode::LDX => {
                let v = self.operand_value(info);
                cpu::load_u8_memory(&mut self.registers.sr, &mut self.registers.x, v);
            },
            Opcode::LDY => {
                let v = self.operand_value(info);
                cpu::load_u8_memory(&mut self.registers.sr, &mut self.registers.y, v);
            },
            Opcode::LSR => {
                let mut t = self.operand_value(info);
                cpu::shift_right(&mut self.registers.sr, &mut t);
                self.operand_store(info, t);
            },
            Opcode::NOP => {},
            Opcode::ORA => {
                let v = self.operand_value(info);
                self.or(v);
            },
            Opcode::PHA => self.push_accumulator(),
            Opcode::PHP => self.push_status(),
            Opcode::PLA => self.pop_accumulator(),
            Opcode::PLP => self.pop_status(),
            Opcode::ROL => {
                let mut t = self.operand_value(info);
                cpu::rotate_left(&mut self.registers.sr, &mut t);
                self.operand_store(info, t);
            },
            Opcode::ROR => {
                let mut t = self.operand_value(info);
                cpu::rotate_right(&mut self.registers.sr, &mut t);
                self.operand_store(info, t);
            },
            Opcode::RTI => self.return_from_interrupt(),
            Opcode::RTS => self.return_from_subroutine(),
            Opcode::SBC => {
                let v = self.operand_value(info);
                self.subtract_with_carry(v);
            },
            Opcode::SEC => self.registers.sr.set_flag(Status::Carry),
            Opcode::SED => self.registers.sr.set_flag(Status::Decimal),
            Opcode::SEI => self.registers.sr.set_flag(Status::InterruptDisable),
            Opcode::STA => {
                match info {
                    AugmentOpcodeInfo::EffectiveAddress(a) => self.store_accumulator(a),
                    _ => {},
                }
            },
            Opcode::STX => {
                match info {
                    AugmentOpcodeInfo::EffectiveAddress(a) => self.store_x(a),
                    _ => {},
                }
            },
            Opcode::STY => {
                match info {
                    AugmentOpcodeInfo::EffectiveAddress(a) => self.store_y(a),
                    _ => {},
                }
            },
            Opcode::TAX => self.load_accumulator_in_x(),
            Opcode::TAY => self.load_accumulator_in_y(),
            Opcode::TSX => self.load_stackpointer_in_x(),
            Opcode::TXA => self.load_x_in_accumulator(),
            Opcode::TXS => self.load_x_in_stackpointer(),
            Opcode::TYA => self.load_y_in_accumulator(),
        }
    }

    /// One whole step: fetch, decode, execute. Exactly `spec_step`.
    pub fn step(&mut self)
        requires
            old(self).wf(),
        ensures
            final(self).wf(),
            final(self)@ == spec_step(old(self)@),
    {
        self.state = ProcState::Execute;
        match self.read_next_instruction() {
            Option::Some(inst) => self.execute_instruction(inst),
            Option::None => {},
        }
        self.state = ProcState::Idle;
    }

    /// The loop driver: `n` steps in a row, exactly `spec_run`.
    pub fn run(&mut self, n: usize)
        requires
            old(self).wf(),
        ensures
            final(self).wf(),
            final(self)@ == spec_run(old(self)@, n as nat),
    {
        let mut i: usize = 0;
        while i < n
            invariant
                i <= n,
                self.wf(),
                self@ == spec_run(old(self)@, i as nat),
            decreases n - i,
        {
            proof {
                lemma_run_snoc(old(self)@, i as nat);
            }
            self.step();
            i = i + 1;
        }
    }
}

} // verus!
