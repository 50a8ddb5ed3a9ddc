//! Operand decoding across the thirteen addressing modes, the opcode
//! table, and the word-access components.

use mos6502::bus::Bus;
use mos6502::memory::{Endian, Memory};
use mos6502::opcode::{opcode_entry, AugmentOpcodeInfo, MemAddressMode, Opcode};
use mos6502::processor::Processor;
use mos6502::register::{RegisterChar, RegisterWord, Status, StatusRegister, FLAG_UNUSED};

#[test]
fn opcode_table_spot_checks() {
    assert!(matches!(
        opcode_entry(0x00),
        Some((Opcode::BRK, MemAddressMode::Implied))
    ));
    assert!(matches!(
        opcode_entry(0xa9),
        Some((Opcode::LDA, MemAddressMode::Immediate))
    ));
    assert!(matches!(
        opcode_entry(0x4c),
        Some((Opcode::JMP, MemAddressMode::Absolute))
    ));
    assert!(matches!(
        opcode_entry(0x6c),
        Some((Opcode::JMP, MemAddressMode::Indirect))
    ));
    assert!(matches!(
        opcode_entry(0x81),
        Some((Opcode::STA, MemAddressMode::IndirectIndexedX))
    ));
    assert!(matches!(
        opcode_entry(0xb1),
        Some((Opcode::LDA, MemAddressMode::IndirectIndexedY))
    ));
    assert!(matches!(
        opcode_entry(0x96),
        Some((Opcode::STX, MemAddressMode::ZeroPageIndexedY))
    ));
    assert!(matches!(
        opcode_entry(0xea),
        Some((Opcode::NOP, MemAddressMode::Implied))
    ));
    assert!(opcode_entry(0x02).is_none());
    assert!(opcode_entry(0xff).is_none());
}

#[test]
fn opcode_table_has_151_entries() {
    let mut count: u32 = 0;
    for b in 0..=255u8 {
        if opcode_entry(b).is_some() {
            count += 1;
        }
    }
    assert_eq!(count, 151);
}

#[test]
fn zero_page_indexed_wraps_in_page() {
    // Base 0xFF with X=1 must give 0x0000, not 0x0100.
    let mut p = Processor::new();
    p.write_memory(0x0000, 0xff);
    p.registers.pc = 0x0000;
    p.registers.x = 0x01;
    let info = p.decode_operand(MemAddressMode::ZeroPageIndexedX);
    assert_eq!(info, AugmentOpcodeInfo::EffectiveAddress(0x0000));
    assert_eq!(p.registers.pc, 0x0001);
}

#[test]
fn indirect_indexed_y_wraps_address_space() {
    // A zero-page pointer of 0xFFFF plus Y=1 wraps to 0x0000.
    let mut p = Processor::new();
    p.write_memory(0x0200, 0x40);  // operand byte: pointer at 0x40
    p.write_memory(0x0040, 0xff);
    p.write_memory(0x0041, 0xff);
    p.registers.pc = 0x0200;
    p.registers.y = 0x01;
    let info = p.decode_operand(MemAddressMode::IndirectIndexedY);
    assert_eq!(info, AugmentOpcodeInfo::EffectiveAddress(0x0000));
}

#[test]
fn indirect_indexed_x_pointer_wraps_in_zero_page() {
    let mut p = Processor::new();
    p.write_memory(0x0200, 0xff);  // operand byte
    p.registers.x = 0x00;
    // pointer at 0xFF: low byte at 0x00FF, high byte wraps to 0x0000.
    p.write_memory(0x00ff, 0x34);
    p.write_memory(0x0000, 0x12);
    p.registers.pc = 0x0200;
    let info = p.decode_operand(MemAddressMode::IndirectIndexedX);
    assert_eq!(info, AugmentOpcodeInfo::EffectiveAddress(0x1234));
}

#[test]
fn absolute_and_indexed_modes() {
    let mut p = Processor::new();
    p.write_memory(0x0300, 0x00);
    p.write_memory(0x0301, 0x80);
    p.registers.pc = 0x0300;
    let info = p.decode_operand(MemAddressMode::Absolute);
    assert_eq!(info, AugmentOpcodeInfo::EffectiveAddress(0x8000));
    assert_eq!(p.registers.pc, 0x0302);

    p.registers.pc = 0x0300;
    p.registers.x = 0x05;
    let info_x = p.decode_operand(MemAddressMode::AbsoluteIndexedX);
    assert_eq!(info_x, AugmentOpcodeInfo::EffectiveAddress(0x8005));

    p.registers.pc = 0x0300;
    p.registers.y = 0xff;
    let info_y = p.decode_operand(MemAddressMode::AbsoluteIndexedY);
    assert_eq!(info_y, AugmentOpcodeInfo::EffectiveAddress(0x80ff));
}

#[test]
fn absolute_indexed_wraps_past_ffff() {
    let mut p = Processor::new();
    p.write_memory(0x0300, 0xff);
    p.write_memory(0x0301, 0xff);
    p.registers.pc = 0x0300;
    p.registers.x = 0x02;
    let info = p.decode_operand(MemAddressMode::AbsoluteIndexedX);
    assert_eq!(info, AugmentOpcodeInfo::EffectiveAddress(0x0001));
}

#[test]
fn immediate_relative_implied_accumulator() {
    let mut p = Processor::new();
    p.write_memory(0x0400, 0x7b);
    p.registers.pc = 0x0400;
    assert_eq!(
        p.decode_operand(MemAddressMode::Immediate),
        AugmentOpcodeInfo::Immediate(0x7b)
    );
    p.registers.pc = 0x0400;
    assert_eq!(
        p.decode_operand(MemAddressMode::Relative),
        AugmentOpcodeInfo::Immediate(0x7b)
    );
    let pc_before = p.registers.pc;
    assert_eq!(
        p.decode_operand(MemAddressMode::Implied),
        AugmentOpcodeInfo::Implied
    );
    assert_eq!(
        p.decode_operand(MemAddressMode::Accumulator),
        AugmentOpcodeInfo::Accumulator
    );
    assert_eq!(p.registers.pc, pc_before, "no operand bytes consumed");
}

#[test]
fn indirect_mode_resolves_through_pointer() {
    let mut p = Processor::new();
    p.write_memory(0x0500, 0x00);
    p.write_memory(0x0501, 0x02);  // pointer 0x0200
    p.write_memory(0x0200, 0xcd);
    p.write_memory(0x0201, 0xab);
    p.registers.pc = 0x0500;
    let info = p.decode_operand(MemAddressMode::Indirect);
    assert_eq!(info, AugmentOpcodeInfo::EffectiveAddress(0xabcd));
}

#[test]
fn bus_words_are_little_endian() {
    let mut b = Bus::new();
    b.write_word(0x1000, 0xbeef);
    assert_eq!(b.read_byte(0x1000), 0xef);
    assert_eq!(b.read_byte(0x1001), 0xbe);
    assert_eq!(b.read_word(0x1000), 0xbeef);
}

#[test]
fn bus_word_wraps_at_top_of_memory() {
    let mut b = Bus::new();
    b.write_byte(0xffff, 0x34);
    b.write_byte(0x0000, 0x12);
    assert_eq!(b.read_word(0xffff), 0x1234);
    b.write_word(0xffff, 0xa55a);
    assert_eq!(b.read_byte(0xffff), 0x5a);
    assert_eq!(b.read_byte(0x0000), 0xa5);
}

#[test]
fn bus_slices_and_mutable_access() {
    let mut b = Bus::new();
    b.write_byte(0xfffe, 0x77);
    let tail = b.as_slice(0xfffe);
    assert_eq!(tail.len(), 2);
    assert_eq!(tail[0], 0x77);
    *b.as_mut(0x0002) = 0x99;
    assert_eq!(b.read_byte(0x0002), 0x99);
}

#[test]
fn memory_endianness() {
    let mut little = Memory::new(16, Endian::Little);
    little.write_word(0, 0xbeef);
    assert_eq!(little.read_byte(0), 0xef);
    assert_eq!(little.read_byte(1), 0xbe);
    assert_eq!(little.read_word(0), 0xbeef);

    let mut big = Memory::new(16, Endian::Big);
    big.write_word(0, 0xbeef);
    assert_eq!(big.read_byte(0), 0xbe);
    assert_eq!(big.read_byte(1), 0xef);
    assert_eq!(big.read_word(0), 0xbeef);

    *big.as_mut(3) = 0x42;
    assert_eq!(big.read_byte(3), 0x42);
}

#[test]
fn memory_load_copies_bytes_in_place() {
    let mut m = Memory::new(8, Endian::Little);
    m.write_byte(0, 0xaa);
    m.write_byte(7, 0xbb);
    m.load(&[1, 2, 3], 2);
    assert_eq!(m.read_byte(0), 0xaa);
    assert_eq!(m.read_byte(1), 0x00);
    assert_eq!(m.read_byte(2), 1);
    assert_eq!(m.read_byte(3), 2);
    assert_eq!(m.read_byte(4), 3);
    assert_eq!(m.read_byte(5), 0x00);
    assert_eq!(m.read_byte(7), 0xbb);
}

#[test]
fn status_register_operations() {
    let mut sr = StatusRegister(FLAG_UNUSED);
    assert!(!sr.contains(Status::Carry));
    sr.set_flag(Status::Carry);
    assert!(sr.contains(Status::Carry));
    assert_eq!(sr.flag_value(Status::Carry), 1);
    sr.toggle_flag(Status::Zero);
    assert!(sr.contains(Status::Zero));
    sr.clear_flag(Status::Mix(0x03));
    assert!(!sr.contains(Status::Carry));
    assert!(!sr.contains(Status::Zero));
    assert!(sr.contains(Status::Mix(FLAG_UNUSED)));
    assert_eq!(Status::Negative.status_bit(), 0x80);
    assert_eq!(Status::Unused.status_bit(), 0x00);
}

#[test]
fn register_cells_expose_their_bytes() {
    let mut c = RegisterChar(0x10);
    *c.as_ptr() += 1;
    assert_eq!(c.0, 0x11);
    let mut w = RegisterWord(0x1234);
    *w.as_ptr() = 0x4321;
    assert_eq!(w.0, 0x4321);
}
