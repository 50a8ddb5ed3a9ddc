//! A MOS 6502 microprocessor core: registers, status flags, a flat 64 KiB
//! memory bus, the documented opcode table, an operand decoder for the
//! thirteen addressing modes, and the per-mnemonic execution engine.
//!
//! The observable behaviour of every instruction is stated as a contract
//! against a mathematical machine model (`processor::Mach`) and proved.

pub mod bus;
pub mod cpu;
pub mod laws;
pub mod memory;
pub mod opcode;
pub mod processor;
pub mod register;
