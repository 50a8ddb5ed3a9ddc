//! The documented 6502 instruction set: the 56 mnemonics, the thirteen
//! addressing modes, the decoded operand shapes, and the canonical
//! 256-entry opcode table (151 defined opcodes; the rest are illegal and
//! execute as one-byte no-ops).

use vstd::prelude::*;

verus! {

/// A decoded instruction: mnemonic and addressing mode.
pub type Instruction = (Opcode, MemAddressMode);

/// The operand shape an addressing mode decodes to. The thirteen modes
/// collapse to these four cases; mode-specific address arithmetic stays
/// inside the decoder.
#[derive(Copy, Clone, Debug, PartialEq, Eq, Structural)]
pub enum AugmentOpcodeInfo {
    /// The instruction carries its operand implicitly.
    Implied,
    /// The operand is the accumulator.
    Accumulator,
    /// An immediate byte (also the raw offset of a relative branch).
    Immediate(u8),
    /// The resolved 16-bit address of the operand.
    EffectiveAddress(u16),
}

/// The thirteen documented addressing modes.
#[derive(Copy, Clone, Debug, PartialEq, Eq, Structural)]
pub enum MemAddressMode {
    /// Operand is the accumulator register.
    Accumulator,
    /// Operand is at the given 16-bit address.
    Absolute,
    /// Operand is at the given 16-bit address plus X, wrapping modulo 2^16.
    AbsoluteIndexedX,
    /// Operand is at the given 16-bit address plus Y, wrapping modulo 2^16.
    AbsoluteIndexedY,
    /// Operand is the given 8-bit value.
    Immediate,
    /// Operand is implied by the instruction.
    Implied,
    /// Operand is at the word stored at the given 16-bit address (JMP only).
    Indirect,
    /// Pointer in the zero page at (operand + X) mod 256; the word read
    /// there, wrapping within the zero page, is the effective address.
    IndirectIndexedX,
    /// Pointer in the zero page at the operand byte; the word read there,
    /// plus Y, wrapping modulo 2^16, is the effective address.
    IndirectIndexedY,
    /// Branch target is PC offset by the given signed 8-bit value.
    Relative,
    /// Operand is in the zero page at the given 8-bit address.
    ZeroPage,
    /// Operand is in the zero page at (operand + X) mod 256.
    ZeroPageIndexedX,
    /// Operand is in the zero page at (operand + Y) mod 256.
    ZeroPageIndexedY,
}

/// The 56 documented mnemonics.
#[derive(Copy, Clone, Debug, PartialEq, Eq, Structural)]
pub enum Opcode {
    ADC,
    AND,
    ASL,
    BCC,
    BCS,
    BEQ,
    BIT,
    BMI,
    BNE,
    BPL,
    BRK,
    BVC,
    BVS,
    CLC,
    CLD,
    CLI,
    CLV,
    CMP,
    CPX,
    CPY,
    DEC,
    DEX,
    DEY,
    EOR,
    INC,
    INX,
    INY,
    JMP,
    JSR,
    LDA,
    LDX,
    LDY,
    LSR,
    NOP,
    ORA,
    PHA,
    PHP,
    PLA,
    PLP,
    ROL,
    ROR,
    RTI,
    RTS,
    SBC,
    SEC,
    SED,
    SEI,
    STA,
    STX,
    STY,
    TAX,
    TAY,
    TSX,
    TXA,
    TXS,
    TYA,
}

/// The canonical opcode table: what instruction, if any, the byte `b`
/// names. `None` marks an illegal opcode.
pub open spec fn spec_opcode(b: u8) -> Option<Instruction> {
    match b {
        0x00 => Some((Opcode::BRK, MemAddressMode::Implied)),
        0x01 => Some((Opcode::ORA, MemAddressMode::IndirectIndexedX)),
        0x05 => Some((Opcode::ORA, MemAddressMode::ZeroPage)),
        0x06 => Some((Opcode::ASL, MemAddressMode::ZeroPage)),
        0x08 => Some((Opcode::PHP, MemAddressMode::Implied)),
        0x09 => Some((Opcode::ORA, MemAddressMode::Immediate)),
        0x0a => Some((Opcode::ASL, MemAddressMode::Accumulator)),
        0x0d => Some((Opcode::ORA, MemAddressMode::Absolute)),
        0x0e => Some((Opcode::ASL, MemAddressMode::Absolute)),
        0x10 => Some((Opcode::BPL, MemAddressMode::Relative)),
        0x11 => Some((Opcode::ORA, MemAddressMode::IndirectIndexedY)),
        0x15 => Some((Opcode::ORA, MemAddressMode::ZeroPageIndexedX)),
        0x16 => Some((Opcode::ASL, MemAddressMode::ZeroPageIndexedX)),
        0x18 => Some((Opcode::CLC, MemAddressMode::Implied)),
        0x19 => Some((Opcode::ORA, MemAddressMode::AbsoluteIndexedY)),
        0x1d => Some((Opcode::ORA, MemAddressMode::AbsoluteIndexedX)),
        0x1e => Some((Opcode::ASL, MemAddressMode::AbsoluteIndexedX)),
        0x20 => Some((Opcode::JSR, MemAddressMode::Absolute)),
        0x21 => Some((Opcode::AND, MemAddressMode::IndirectIndexedX)),
        0x24 => Some((Opcode::BIT, MemAddressMode::ZeroPage)),
        0x25 => Some((Opcode::AND, MemAddressMode::ZeroPage)),
        0x26 => Some((Opcode::ROL, MemAddressMode::ZeroPage)),
        0x28 => Some((Opcode::PLP, MemAddressMode::Implied)),
        0x29 => Some((Opcode::AND, MemAddressMode::Immediate)),
        0x2a => Some((Opcode::ROL, MemAddressMode::Accumulator)),
        0x2c => Some((Opcode::BIT, MemAddressMode::Absolute)),
        0x2d => Some((Opcode::AND, MemAddressMode::Absolute)),
        0x2e => Some((Opcode::ROL, MemAddressMode::Absolute)),
        0x30 => Some((Opcode::BMI, MemAddressMode::Relative)),
        0x31 => Some((Opcode::AND, MemAddressMode::IndirectIndexedY)),
        0x35 => Some((Opcode::AND, MemAddressMode::ZeroPageIndexedX)),
        0x36 => Some((Opcode::ROL, MemAddressMode::ZeroPageIndexedX)),
        0x38 => Some((Opcode::SEC, MemAddressMode::Implied)),
        0x39 => Some((Opcode::AND, MemAddressMode::AbsoluteIndexedY)),
        0x3d => Some((Opcode::AND, MemAddressMode::AbsoluteIndexedX)),
        0x3e => Some((Opcode::ROL, MemAddressMode::AbsoluteIndexedX)),
        0x40 => Some((Opcode::RTI, MemAddressMode::Implied)),
        0x41 => Some((Opcode::EOR, MemAddressMode::IndirectIndexedX)),
        0x45 => Some((Opcode::EOR, MemAddressMode::ZeroPage)),
        0x46 => Some((Opcode::LSR, MemAddressMode::ZeroPage)),
        0x48 => Some((Opcode::PHA, MemAddressMode::Implied)),
        0x49 => Some((Opcode::EOR, MemAddressMode::Immediate)),
        0x4a => Some((Opcode::LSR, MemAddressMode::Accumulator)),
        0x4c => Some((Opcode::JMP, MemAddressMode::Absolute)),
        0x4d => Some((Opcode::EOR, MemAddressMode::Absolute)),
        0x4e => Some((Opcode::LSR, MemAddressMode::Absolute)),
        0x50 => Some((Opcode::BVC, MemAddressMode::Relative)),
        0x51 => Some((Opcode::EOR, MemAddressMode::IndirectIndexedY)),
        0x55 => Some((Opcode::EOR, MemAddressMode::ZeroPageIndexedX)),
        0x56 => Some((Opcode::LSR, MemAddressMode::ZeroPageIndexedX)),
        0x58 => Some((Opcode::CLI, MemAddressMode::Implied)),
        0x59 => Some((Opcode::EOR, MemAddressMode::AbsoluteIndexedY)),
        0x5d => Some((Opcode::EOR, MemAddressMode::AbsoluteIndexedX)),
        0x5e => Some((Opcode::LSR, MemAddressMode::AbsoluteIndexedX)),
        0x60 => Some((Opcode::RTS, MemAddressMode::Implied)),
        0x61 => Some((Opcode::ADC, MemAddressMode::IndirectIndexedX)),
        0x65 => Some((Opcode::ADC, MemAddressMode::ZeroPage)),
        0x66 => Some((Opcode::ROR, MemAddressMode::ZeroPage)),
        0x68 => Some((Opcode::PLA, MemAddressMode::Implied)),
        0x69 => Some((Opcode::ADC, MemAddressMode::Immediate)),
        0x6a => Some((Opcode::ROR, MemAddressMode::Accumulator)),
        0x6c => Some((Opcode::JMP, MemAddressMode::Indirect)),
        0x6d => Some((Opcode::ADC, MemAddressMode::Absolute)),
        0x6e => Some((Opcode::ROR, MemAddressMode::Absolute)),
        0x70 => Some((Opcode::BVS, MemAddressMode::Relative)),
        0x71 => Some((Opcode::ADC, MemAddressMode::IndirectIndexedY)),
        0x75 => Some((Opcode::ADC, MemAddressMode::ZeroPageIndexedX)),
        0x76 => Some((Opcode::ROR, MemAddressMode::ZeroPageIndexedX)),
        0x78 => Some((Opcode::SEI, MemAddressMode::Implied)),
        0x79 => Some((Opcode::ADC, MemAddressMode::AbsoluteIndexedY)),
        0x7d => Some((Opcode::ADC, MemAddressMode::AbsoluteIndexedX)),
        0x7e => Some((Opcode::ROR, MemAddressMode::AbsoluteIndexedX)),
        0x81 => Some((Opcode::STA, MemAddressMode::IndirectIndexedX)),
        0x84 => Some((Opcode::STY, MemAddressMode::ZeroPage)),
        0x85 => Some((Opcode::STA, MemAddressMode::ZeroPage)),
        0x86 => Some((Opcode::STX, MemAddressMode::ZeroPage)),
        0x88 => Some((Opcode::DEY, MemAddressMode::Implied)),
        0x8a => Some((Opcode::TXA, MemAddressMode::Implied)),
        0x8c => Some((Opcode::STY, MemAddressMode::Absolute)),
        0x8d => Some((Opcode::STA, MemAddressMode::Absolute)),
        0x8e => Some((Opcode::STX, MemAddressMode::Absolute)),
        0x90 => Some((Opcode::BCC, MemAddressMode::Relative)),
        0x91 => Some((Opcode::STA, MemAddressMode::IndirectIndexedY)),
        0x94 => Some((Opcode::STY, MemAddressMode::ZeroPageIndexedX)),
        0x95 => Some((Opcode::STA, MemAddressMode::ZeroPageIndexedX)),
        0x96 => Some((Opcode::STX, MemAddressMode::ZeroPageIndexedY)),
        0x98 => Some((Opcode::TYA, MemAddressMode::Implied)),
        0x99 => Some((Opcode::STA, MemAddressMode::AbsoluteIndexedY)),
        0x9a => Some((Opcode::TXS, MemAddressMode::Implied)),
        0x9d => Some((Opcode::STA, MemAddressMode::AbsoluteIndexedX)),
        0xa0 => Some((Opcode::LDY, MemAddressMode::Immediate)),
        0xa1 => Some((Opcode::LDA, MemAddressMode::IndirectIndexedX)),
        0xa2 => Some((Opcode::LDX, MemAddressMode::Immediate)),
        0xa4 => Some((Opcode::LDY, MemAddressMode::ZeroPage)),
        0xa5 => Some((Opcode::LDA, MemAddressMode::ZeroPage)),
        0xa6 => Some((Opcode::LDX, MemAddressMode::ZeroPage)),
        0xa8 => Some((Opcode::TAY, MemAddressMode::Implied)),
        0xa9 => Some((Opcode::LDA, MemAddressMode::Immediate)),
        0xaa => Some((Opcode::TAX, MemAddressMode::Implied)),
        0xac => Some((Opcode::LDY, MemAddressMode::Absolute)),
        0xad => Some((Opcode::LDA, MemAddressMode::Absolute)),
        0xae => Some((Opcode::LDX, MemAddressMode::Absolute)),
        0xb0 => Some((Opcode::BCS, MemAddressMode::Relative)),
        0xb1 => Some((Opcode::LDA, MemAddressMode::IndirectIndexedY)),
        0xb4 => Some((Opcode::LDY, MemAddressMode::ZeroPageIndexedX)),
        0xb5 => Some((Opcode::LDA, MemAddressMode::ZeroPageIndexedX)),
        0xb6 => Some((Opcode::LDX, MemAddressMode::ZeroPageIndexedY)),
        0xb8 => Some((Opcode::CLV, MemAddressMode::Implied)),
        0xb9 => Some((Opcode::LDA, MemAddressMode::AbsoluteIndexedY)),
        0xba => Some((Opcode::TSX, MemAddressMode::Implied)),
        0xbc => Some((Opcode::LDY, MemAddressMode::AbsoluteIndexedX)),
        0xbd => Some((Opcode::LDA, MemAddressMode::AbsoluteIndexedX)),
        0xbe => Some((Opcode::LDX, MemAddressMode::AbsoluteIndexedY)),
        0xc0 => Some((Opcode::CPY, MemAddressMode::Immediate)),
        0xc1 => Some((Opcode::CMP, MemAddressMode::IndirectIndexedX)),
        0xc4 => Some((Opcode::CPY, MemAddressMode::ZeroPage)),
        0xc5 => Some((Opcode::CMP, MemAddressMode::ZeroPage)),
        0xc6 => Some((Opcode::DEC, MemAddressMode::ZeroPage)),
        0xc8 => Some((Opcode::INY, MemAddressMode::Implied)),
        0xc9 => Some((Opcode::CMP, MemAddressMode::Immediate)),
        0xca => Some((Opcode::DEX, MemAddressMode::Implied)),
        0xcc => Some((Opcode::CPY, MemAddressMode::Absolute)),
        0xcd => Some((Opcode::CMP, MemAddressMode::Absolute)),
        0xce => Some((Opcode::DEC, MemAddressMode::Absolute)),
        0xd0 => Some((Opcode::BNE, MemAddressMode::Relative)),
        0xd1 => Some((Opcode::CMP, MemAddressMode::IndirectIndexedY)),
        0xd5 => Some((Opcode::CMP, MemAddressMode::ZeroPageIndexedX)),
        0xd6 => Some((Opcode::DEC, MemAddressMode::ZeroPageIndexedX)),
        0xd8 => Some((Opcode::CLD, MemAddressMode::Implied)),
        0xd9 => Some((Opcode::CMP, MemAddressMode::AbsoluteIndexedY)),
        0xdd => Some((Opcode::CMP, MemAddressMode::AbsoluteIndexedX)),
        0xde => Some((Opcode::DEC, MemAddressMode::AbsoluteIndexedX)),
        0xe0 => Some((Opcode::CPX, MemAddressMode::Immediate)),
        0xe1 => Some((Opcode::SBC, MemAddressMode::IndirectIndexedX)),
        0xe4 => Some((Opcode::CPX, MemAddressMode::ZeroPage)),
        0xe5 => Some((Opcode::SBC, MemAddressMode::ZeroPage)),
        0xe6 => Some((Opcode::INC, MemAddressMode::ZeroPage)),
        0xe8 => Some((Opcode::INX, MemAddressMode::Implied)),
        0xe9 => Some((Opcode::SBC, MemAddressMode::Immediate)),
        0xea => Some((Opcode::NOP, MemAddressMode::Implied)),
        0xec => Some((Opcode::CPX, MemAddressMode::Absolute)),
        0xed => Some((Opcode::SBC, MemAddressMode::Absolute)),
        0xee => Some((Opcode::INC, MemAddressMode::Absolute)),
        0xf0 => Some((Opcode::BEQ, MemAddressMode::Relative)),
        0xf1 => Some((Opcode::SBC, MemAddressMode::IndirectIndexedY)),
        0xf5 => Some((Opcode::SBC, MemAddressMode::ZeroPageIndexedX)),
        0xf6 => Some((Opcode::INC, MemAddressMode::ZeroPageIndexedX)),
        0xf8 => Some((Opcode::SED, MemAddressMode::Implied)),
        0xf9 => Some((Opcode::SBC, MemAddressMode::AbsoluteIndexedY)),
        0xfd => Some((Opcode::SBC, MemAddressMode::AbsoluteIndexedX)),
        0xfe => Some((Opcode::INC, MemAddressMode::AbsoluteIndexedX)),
        _ => None,
    }
}

/// The canonical opcode table, executable form: returns exactly
/// `spec_opcode(b)`.
pub fn opcode_entry(b: u8) -> (r: Option<Instruction>)
    ensures
        r == spec_opcode(b),
{
    match b {
        0x00 => Some((Opcode::BRK, MemAddressMode::Implied)),
        0x01 => Some((Opcode::ORA, MemAddressMode::IndirectIndexedX)),
        0x05 => Some((Opcode::ORA, MemAddressMode::ZeroPage)),
        0x06 => Some((Opcode::ASL, MemAddressMode::ZeroPage)),
        0x08 => Some((Opcode::PHP, MemAddressMode::Implied)),
        0x09 => Some((Opcode::ORA, MemAddressMode::Immediate)),
        0x0a => Some((Opcode::ASL, MemAddressMode::Accumulator)),
        0x0d => Some((Opcode::ORA, MemAddressMode::Absolute)),
        0x0e => Some((Opcode::ASL, MemAddressMode::Absolute)),
        0x10 => Some((Opcode::BPL, MemAddressMode::Relative)),
        0x11 => Some((Opcode::ORA, MemAddressMode::IndirectIndexedY)),
        0x15 => Some((Opcode::ORA, MemAddressMode::ZeroPageIndexedX)),
        0x16 => Some((Opcode::ASL, MemAddressMode::ZeroPageIndexedX)),
        0x18 => Some((Opcode::CLC, MemAddressMode::Implied)),
        0x19 => Some((Opcode::ORA, MemAddressMode::AbsoluteIndexedY)),
        0x1d => Some((Opcode::ORA, MemAddressMode::AbsoluteIndexedX)),
        0x1e => Some((Opcode::ASL, MemAddressMode::AbsoluteIndexedX)),
        0x20 => Some((Opcode::JSR, MemAddressMode::Absolute)),
        0x21 => Some((Opcode::AND, MemAddressMode::IndirectIndexedX)),
        0x24 => Some((Opcode::BIT, MemAddressMode::ZeroPage)),
        0x25 => Some((Opcode::AND, MemAddressMode::ZeroPage)),
        0x26 => Some((Opcode::ROL, MemAddressMode::ZeroPage)),
        0x28 => Some((Opcode::PLP, MemAddressMode::Implied)),
        0x29 => Some((Opcode::AND, MemAddressMode::Immediate)),
        0x2a => Some((Opcode::ROL, MemAddressMode::Accumulator)),
        0x2c => Some((Opcode::BIT, MemAddressMode::Absolute)),
        0x2d => Some((Opcode::AND, MemAddressMode::Absolute)),
        0x2e => Some((Opcode::ROL, MemAddressMode::Absolute)),
        0x30 => Some((Opcode::BMI, MemAddressMode::Relative)),
        0x31 => Some((Opcode::AND, MemAddressMode::IndirectIndexedY)),
        0x35 => Some((Opcode::AND, MemAddressMode::ZeroPageIndexedX)),
        0x36 => Some((Opcode::ROL, MemAddressMode::ZeroPageIndexedX)),
        0x38 => Some((Opcode::SEC, MemAddressMode::Implied)),
        0x39 => Some((Opcode::AND, MemAddressMode::AbsoluteIndexedY)),
        0x3d => Some((Opcode::AND, MemAddressMode::AbsoluteIndexedX)),
        0x3e => Some((Opcode::ROL, MemAddressMode::AbsoluteIndexedX)),
        0x40 => Some((Opcode::RTI, MemAddressMode::Implied)),
        0x41 => Some((Opcode::EOR, MemAddressMode::IndirectIndexedX)),
        0x45 => Some((Opcode::EOR, MemAddressMode::ZeroPage)),
        0x46 => Some((Opcode::LSR, MemAddressMode::ZeroPage)),
        0x48 => Some((Opcode::PHA, MemAddressMode::Implied)),
        0x49 => Some((Opcode::EOR, MemAddressMode::Immediate)),
        0x4a => Some((Opcode::LSR, MemAddressMode::Accumulator)),
        0x4c => Some((Opcode::JMP, MemAddressMode::Absolute)),
        0x4d => Some((Opcode::EOR, MemAddressMode::Absolute)),
        0x4e => Some((Opcode::LSR, MemAddressMode::Absolute)),
        0x50 => Some((Opcode::BVC, MemAddressMode::Relative)),
        0x51 => Some((Opcode::EOR, MemAddressMode::IndirectIndexedY)),
        0x55 => Some((Opcode::EOR, MemAddressMode::ZeroPageIndexedX)),
        0x56 => Some((Opcode::LSR, MemAddressMode::ZeroPageIndexedX)),
        0x58 => Some((Opcode::CLI, MemAddressMode::Implied)),
        0x59 => Some((Opcode::EOR, MemAddressMode::AbsoluteIndexedY)),
        0x5d => Some((Opcode::EOR, MemAddressMode::AbsoluteIndexedX)),
        0x5e => Some((Opcode::LSR, MemAddressMode::AbsoluteIndexedX)),
        0x60 => Some((Opcode::RTS, MemAddressMode::Implied)),
        0x61 => Some((Opcode::ADC, MemAddressMode::IndirectIndexedX)),
        0x65 => Some((Opcode::ADC, MemAddressMode::ZeroPage)),
        0x66 => Some((Opcode::ROR, MemAddressMode::ZeroPage)),
        0x68 => Some((Opcode::PLA, MemAddressMode::Implied)),
        0x69 => Some((Opcode::ADC, MemAddressMode::Immediate)),
        0x6a => Some((Opcode::ROR, MemAddressMode::Accumulator)),
        0x6c => Some((Opcode::JMP, MemAddressMode::Indirect)),
        0x6d => Some((Opcode::ADC, MemAddressMode::Absolute)),
        0x6e => Some((Opcode::ROR, MemAddressMode::Absolute)),
        0x70 => Some((Opcode::BVS, MemAddressMode::Relative)),
        0x71 => Some((Opcode::ADC, MemAddressMode::IndirectIndexedY)),
        0x75 => Some((Opcode::ADC, MemAddressMode::ZeroPageIndexedX)),
        0x76 => Some((Opcode::ROR, MemAddressMode::ZeroPageIndexedX)),
        0x78 => Some((Opcode::SEI, MemAddressMode::Implied)),
        0x79 => Some((Opcode::ADC, MemAddressMode::AbsoluteIndexedY)),
        0x7d => Some((Opcode::ADC, MemAddressMode::AbsoluteIndexedX)),
        0x7e => Some((Opcode::ROR, MemAddressMode::AbsoluteIndexedX)),
        0x81 => Some((Opcode::STA, MemAddressMode::IndirectIndexedX)),
        0x84 => Some((Opcode::STY, MemAddressMode::ZeroPage)),
        0x85 => Some((Opcode::STA, MemAddressMode::ZeroPage)),
        0x86 => Some((Opcode::STX, MemAddressMode::ZeroPage)),
        0x88 => Some((Opcode::DEY, MemAddressMode::Implied)),
        0x8a => Some((Opcode::TXA, MemAddressMode::Implied)),
        0x8c => Some((Opcode::STY, MemAddressMode::Absolute)),
        0x8d => Some((Opcode::STA, MemAddressMode::Absolute)),
        0x8e => Some((Opcode::STX, MemAddressMode::Absolute)),
        0x90 => Some((Opcode::BCC, MemAddressMode::Relative)),
        0x91 => Some((Opcode::STA, MemAddressMode::IndirectIndexedY)),
        0x94 => Some((Opcode::STY, MemAddressMode::ZeroPageIndexedX)),
        0x95 => Some((Opcode::STA, MemAddressMode::ZeroPageIndexedX)),
        0x96 => Some((Opcode::STX, MemAddressMode::ZeroPageIndexedY)),
        0x98 => Some((Opcode::TYA, MemAddressMode::Implied)),
        0x99 => Some((Opcode::STA, MemAddressMode::AbsoluteIndexedY)),
        0x9a => Some((Opcode::TXS, MemAddressMode::Implied)),
        0x9d => Some((Opcode::STA, MemAddressMode::AbsoluteIndexedX)),
        0xa0 => Some((Opcode::LDY, MemAddressMode::Immediate)),
        0xa1 => Some((Opcode::LDA, MemAddressMode::IndirectIndexedX)),
        0xa2 => Some((Opcode::LDX, MemAddressMode::Immediate)),
        0xa4 => Some((Opcode::LDY, MemAddressMode::ZeroPage)),
        0xa5 => Some((Opcode::LDA, MemAddressMode::ZeroPage)),
        0xa6 => Some((Opcode::LDX, MemAddressMode::ZeroPage)),
        0xa8 => Some((Opcode::TAY, MemAddressMode::Implied)),
        0xa9 => Some((Opcode::LDA, MemAddressMode::Immediate)),
        0xaa => Some((Opcode::TAX, MemAddressMode::Implied)),
        0xac => Some((Opcode::LDY, MemAddressMode::Absolute)),
        0xad => Some((Opcode::LDA, MemAddressMode::Absolute)),
        0xae => Some((Opcode::LDX, MemAddressMode::Absolute)),
        0xb0 => Some((Opcode::BCS, MemAddressMode::Relative)),
        0xb1 => Some((Opcode::LDA, MemAddressMode::IndirectIndexedY)),
        0xb4 => Some((Opcode::LDY, MemAddressMode::ZeroPageIndexedX)),
        0xb5 => Some((Opcode::LDA, MemAddressMode::ZeroPageIndexedX)),
        0xb6 => Some((Opcode::LDX, MemAddressMode::ZeroPageIndexedY)),
        0xb8 => Some((Opcode::CLV, MemAddressMode::Implied)),
        0xb9 => Some((Opcode::LDA, MemAddressMode::AbsoluteIndexedY)),
        0xba => Some((Opcode::TSX, MemAddressMode::Implied)),
        0xbc => Some((Opcode::LDY, MemAddressMode::AbsoluteIndexedX)),
        0xbd => Some((Opcode::LDA, MemAddressMode::AbsoluteIndexedX)),
        0xbe => Some((Opcode::LDX, MemAddressMode::AbsoluteIndexedY)),
        0xc0 => Some((Opcode::CPY, MemAddressMode::Immediate)),
        0xc1 => Some((Opcode::CMP, MemAddressMode::IndirectIndexedX)),
        0xc4 => Some((Opcode::CPY, MemAddressMode::ZeroPage)),
        0xc5 => Some((Opcode::CMP, MemAddressMode::ZeroPage)),
        0xc6 => Some((Opcode::DEC, MemAddressMode::ZeroPage)),
        0xc8 => Some((Opcode::INY, MemAddressMode::Implied)),
        0xc9 => Some((Opcode::CMP, MemAddressMode::Immediate)),
        0xca => Some((Opcode::DEX, MemAddressMode::Implied)),
        0xcc => Some((Opcode::CPY, MemAddressMode::Absolute)),
        0xcd => Some((Opcode::CMP, MemAddressMode::Absolute)),
        0xce => Some((Opcode::DEC, MemAddressMode::Absolute)),
        0xd0 => Some((Opcode::BNE, MemAddressMode::Relative)),
        0xd1 => Some((Opcode::CMP, MemAddressMode::IndirectIndexedY)),
        0xd5 => Some((Opcode::CMP, MemAddressMode::ZeroPageIndexedX)),
        0xd6 => Some((Opcode::DEC, MemAddressMode::ZeroPageIndexedX)),
        0xd8 => Some((Opcode::CLD, MemAddressMode::Implied)),
        0xd9 => Some((Opcode::CMP, MemAddressMode::AbsoluteIndexedY)),
        0xdd => Some((Opcode::CMP, MemAddressMode::AbsoluteIndexedX)),
        0xde => Some((Opcode::DEC, MemAddressMode::AbsoluteIndexedX)),
        0xe0 => Some((Opcode::CPX, MemAddressMode::Immediate)),
        0xe1 => Some((Opcode::SBC, MemAddressMode::IndirectIndexedX)),
        0xe4 => Some((Opcode::CPX, MemAddressMode::ZeroPage)),
        0xe5 => Some((Opcode::SBC, MemAddressMode::ZeroPage)),
        0xe6 => Some((Opcode::INC, MemAddressMode::ZeroPage)),
        0xe8 => Some((Opcode::INX, MemAddressMode::Implied)),
        0xe9 => Some((Opcode::SBC, MemAddressMode::Immediate)),
        0xea => Some((Opcode::NOP, MemAddressMode::Implied)),
        0xec => Some((Opcode::CPX, MemAddressMode::Absolute)),
        0xed => Some((Opcode::SBC, MemAddressMode::Absolute)),
        0xee => Some((Opcode::INC, MemAddressMode::Absolute)),
        0xf0 => Some((Opcode::BEQ, MemAddressMode::Relative)),
        0xf1 => Some((Opcode::SBC, MemAddressMode::IndirectIndexedY)),
        0xf5 => Some((Opcode::SBC, MemAddressMode::ZeroPageIndexedX)),
        0xf6 => Some((Opcode::INC, MemAddressMode::ZeroPageIndexedX)),
        0xf8 => Some((Opcode::SED, MemAddressMode::Implied)),
        0xf9 => Some((Opcode::SBC, MemAddressMode::AbsoluteIndexedY)),
        0xfd => Some((Opcode::SBC, MemAddressMode::AbsoluteIndexedX)),
        0xfe => Some((Opcode::INC, MemAddressMode::AbsoluteIndexedX)),
        _ => None,
    }
}

} // verus!
