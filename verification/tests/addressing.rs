use mos6502::cpu::Cpu;
use mos6502::instruction::{InstructionInput, InstructionMode};
use mos6502::memory::Memory;
use mos6502::types::CpuError;

fn fresh_cpu() -> Cpu {
    Cpu::new(Memory::new()).unwrap()
}

#[test]
fn immediate_hands_back_the_second_byte() {
    let cpu = fresh_cpu();
    let input = cpu.determine_input(InstructionMode::Immediate, &[0xA9, 0x42]).unwrap();
    assert_eq!(input, InstructionInput::Byte(0x42));
}

#[test]
fn implied_and_accumulator_resolve_to_themselves() {
    let cpu = fresh_cpu();
    assert_eq!(
        cpu.determine_input(InstructionMode::Implied, &[0xEA]).unwrap(),
        InstructionInput::Implied
    );
    assert_eq!(
        cpu.determine_input(InstructionMode::Accumulator, &[0x0A]).unwrap(),
        InstructionInput::Accumulator
    );
}

#[test]
fn zero_page_extends_with_high_byte_zero() {
    let cpu = fresh_cpu();
    let input = cpu.determine_input(InstructionMode::ZeroPage, &[0xA5, 0xFE]).unwrap();
    assert_eq!(input, InstructionInput::Address(0x00FE));
}

#[test]
fn zero_page_x_wraps_inside_the_zero_page() {
    let mut cpu = fresh_cpu();
    cpu.registers.x = 0x02;
    let input = cpu.determine_input(InstructionMode::ZeroPageX, &[0xB5, 0xFF]).unwrap();
    assert_eq!(input, InstructionInput::Address(0x0001));
}

#[test]
fn zero_page_y_wraps_inside_the_zero_page() {
    let mut cpu = fresh_cpu();
    cpu.registers.y = 0x10;
    let input = cpu.determine_input(InstructionMode::ZeroPageY, &[0xB6, 0xF8]).unwrap();
    assert_eq!(input, InstructionInput::Address(0x0008));
}

#[test]
fn absolute_reads_little_endian() {
    let cpu = fresh_cpu();
    let input = cpu.determine_input(InstructionMode::Absolute, &[0xAD, 0x34, 0x12]).unwrap();
    assert_eq!(input, InstructionInput::Address(0x1234));
}

#[test]
fn absolute_indexed_wraps_at_sixteen_bits() {
    let mut cpu = fresh_cpu();
    cpu.registers.x = 0x05;
    let input = cpu.determine_input(InstructionMode::AbsoluteX, &[0xBD, 0xFE, 0xFF]).unwrap();
    assert_eq!(input, InstructionInput::Address(0x0003));
    cpu.registers.y = 0x01;
    let input = cpu.determine_input(InstructionMode::AbsoluteY, &[0xB9, 0x00, 0x20]).unwrap();
    assert_eq!(input, InstructionInput::Address(0x2001));
}

#[test]
fn relative_adds_signed_displacement_to_pc() {
    let mut cpu = fresh_cpu();
    cpu.registers.pc = 0x1000;
    let forward = cpu.determine_input(InstructionMode::Relative, &[0xD0, 0x10]).unwrap();
    assert_eq!(forward, InstructionInput::Address(0x1010));
    let backward = cpu.determine_input(InstructionMode::Relative, &[0xD0, 0xFE]).unwrap();
    assert_eq!(backward, InstructionInput::Address(0x0FFE));
    cpu.registers.pc = 0x0001;
    let wrapped = cpu.determine_input(InstructionMode::Relative, &[0xD0, 0xFD]).unwrap();
    assert_eq!(wrapped, InstructionInput::Address(0xFFFE));
}

#[test]
fn indirect_dereferences_a_little_endian_pointer() {
    let mut cpu = fresh_cpu();
    cpu.memory.write(0x2000, 0xCD);
    cpu.memory.write(0x2001, 0xAB);
    let input = cpu.determine_input(InstructionMode::Indirect, &[0x6C, 0x00, 0x20]).unwrap();
    assert_eq!(input, InstructionInput::Address(0xABCD));
}

#[test]
fn indirect_pointer_at_address_space_end_fails() {
    let cpu = fresh_cpu();
    let r = cpu.determine_input(InstructionMode::Indirect, &[0x6C, 0xFF, 0xFF]);
    assert_eq!(r, Err(CpuError::AddressOutOfRange));
}

#[test]
fn indirect_round_trip_returns_the_written_pointer() {
    let mut cpu = fresh_cpu();
    // Write the pointer 0xBEEF little-endian at zero-page address 0x20.
    cpu.memory.write(0x0020, 0xEF);
    cpu.memory.write(0x0021, 0xBE);
    cpu.registers.x = 0x00;
    cpu.registers.y = 0x00;
    let pre_indexed = cpu.determine_input(InstructionMode::IndirectX, &[0xA1, 0x20]).unwrap();
    assert_eq!(pre_indexed, InstructionInput::Address(0xBEEF));
    let post_indexed = cpu.determine_input(InstructionMode::IndirectY, &[0xB1, 0x20]).unwrap();
    assert_eq!(post_indexed, InstructionInput::Address(0xBEEF));
}

#[test]
fn pre_indexed_indirect_wraps_pointer_in_zero_page() {
    let mut cpu = fresh_cpu();
    cpu.memory.write(0x0001, 0x11);
    cpu.memory.write(0x0002, 0x22);
    cpu.registers.x = 0x02;
    let input = cpu.determine_input(InstructionMode::IndirectX, &[0xA1, 0xFF]).unwrap();
    assert_eq!(input, InstructionInput::Address(0x2211));
}

#[test]
fn post_indexed_indirect_adds_y_after_the_dereference() {
    let mut cpu = fresh_cpu();
    cpu.memory.write(0x0030, 0xFE);
    cpu.memory.write(0x0031, 0xFF);
    cpu.registers.y = 0x05;
    let input = cpu.determine_input(InstructionMode::IndirectY, &[0xB1, 0x30]).unwrap();
    // 0xFFFE + 0x05 wraps around the 16-bit address space.
    assert_eq!(input, InstructionInput::Address(0x0003));
}

#[test]
fn input_helpers_fetch_byte_and_location() {
    let mut cpu = fresh_cpu();
    cpu.memory.write(0x1234, 0x99);
    assert_eq!(cpu.input_to_byte(InstructionInput::Byte(0x07)), Ok(0x07));
    assert_eq!(cpu.input_to_byte(InstructionInput::Address(0x1234)), Ok(0x99));
    assert_eq!(
        cpu.input_to_byte(InstructionInput::Implied),
        Err(CpuError::InputMismatch)
    );
    assert_eq!(
        cpu.input_to_location(InstructionInput::Accumulator),
        Ok(mos6502::instruction::Location::Accumulator)
    );
    assert_eq!(
        cpu.input_to_location(InstructionInput::Address(0x0040)),
        Ok(mos6502::instruction::Location::Address(0x0040))
    );
    assert_eq!(
        cpu.input_to_location(InstructionInput::Byte(0x01)),
        Err(CpuError::InputMismatch)
    );
}
