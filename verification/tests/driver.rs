use mos6502::cpu::Cpu;
use mos6502::flags::FLAG_ZERO;
use mos6502::instruction::{Instruction, InstructionOperation};
use mos6502::memory::Memory;
use mos6502::types::CpuError;

#[test]
fn construction_reads_vectors_and_seeds_pc() {
    let mut memory = Memory::new();
    memory.write(0xFFFA, 0x10);
    memory.write(0xFFFB, 0x80);
    memory.write(0xFFFC, 0x00);
    memory.write(0xFFFD, 0xC0);
    memory.write(0xFFFE, 0x20);
    memory.write(0xFFFF, 0x90);
    let cpu = Cpu::new(memory).unwrap();
    assert_eq!(cpu.vectors.nmi, 0x8010);
    assert_eq!(cpu.vectors.reset, 0xC000);
    assert_eq!(cpu.vectors.irq, 0x9020);
    assert_eq!(cpu.registers.pc, 0xC000);
    assert_eq!(cpu.registers.a, 0);
    assert_eq!(cpu.registers.x, 0);
    assert_eq!(cpu.registers.y, 0);
    assert_eq!(cpu.registers.s, 0xFF);
    assert_eq!(cpu.registers.p.bits(), 0);
    assert_eq!(cpu.clock.cycles(), 0);
}

#[test]
fn processing_advances_pc_by_length_and_charges_cycles() {
    let mut memory = Memory::new();
    memory.write(0xFFFC, 0x00);
    memory.write(0xFFFD, 0x80);
    memory.write(0x8000, 0xA9);  // load accumulator, immediate
    memory.write(0x8001, 0x42);
    let mut cpu = Cpu::new(memory).unwrap();
    let shape = Instruction::from_opcode(0xA9);
    let pc_before = cpu.registers.pc;
    let cycles_before = cpu.clock.cycles();
    cpu.process_instruction(shape).unwrap();
    assert_eq!(cpu.registers.pc, pc_before + shape.len() as u16);
    assert_eq!(cpu.clock.cycles(), cycles_before + shape.cycles_base() as u64);
    assert_eq!(cpu.registers.a, 0x42);
}

#[test]
fn processing_reports_unsupported_operations() {
    let mut memory = Memory::new();
    memory.write(0xFFFC, 0x00);
    memory.write(0xFFFD, 0x80);
    memory.write(0x8000, 0x29);  // bitwise-and, immediate: not implemented
    memory.write(0x8001, 0x0F);
    let mut cpu = Cpu::new(memory).unwrap();
    let shape = Instruction::from_opcode(0x29);
    let r = cpu.process_instruction(shape);
    assert_eq!(r, Err(CpuError::UnsupportedOperation(InstructionOperation::And)));
    // The counter still advanced and the cycles were still charged.
    assert_eq!(cpu.registers.pc, 0x8002);
    assert_eq!(cpu.clock.cycles(), 2);
}

#[test]
fn driver_runs_a_program_and_stops_on_the_first_unsupported_operation() {
    let mut memory = Memory::new();
    memory.write(0xFFFC, 0x00);
    memory.write(0xFFFD, 0x80);
    memory.write(0x8000, 0xA9);  // load accumulator, immediate
    memory.write(0x8001, 0x42);
    memory.write(0x8002, 0xE8);  // increment X
    memory.write(0x8003, 0xAA);  // transfer accumulator to X
    memory.write(0x8004, 0x29);  // bitwise-and: not implemented, stops the run
    memory.write(0x8005, 0x0F);
    let mut cpu = Cpu::new(memory).unwrap();
    let r = cpu.start();
    assert_eq!(r, Err(CpuError::UnsupportedOperation(InstructionOperation::And)));
    assert_eq!(cpu.registers.a, 0x42);
    assert_eq!(cpu.registers.x, 0x42);
    assert_eq!(cpu.registers.pc, 0x8006);
    // 2 cycles each for the load, the increment, the transfer and the
    // attempted bitwise-and.
    assert_eq!(cpu.clock.cycles(), 8);
}

#[test]
fn driver_stops_at_the_reserved_boundary() {
    let mut memory = Memory::new();
    memory.write(0xFFFC, 0xF0);
    memory.write(0xFFFD, 0xFF);
    for address in 0xFFF0..0xFFFAu16 {
        memory.write(address, 0xEA);  // no-op
    }
    let mut cpu = Cpu::new(memory).unwrap();
    let r = cpu.start();
    assert_eq!(r, Ok(()));
    // The next fetch at 0xFFF9 would reach the reserved region, so the
    // driver stops there after nine executed no-ops.
    assert_eq!(cpu.registers.pc, 0xFFF9);
    assert_eq!(cpu.clock.cycles(), 18);
}

#[test]
fn driver_executes_a_break_through_the_interrupt_vector() {
    let mut memory = Memory::new();
    memory.write(0xFFFC, 0x00);
    memory.write(0xFFFD, 0x80);
    memory.write(0xFFFE, 0x00);
    memory.write(0xFFFF, 0x90);
    memory.write(0x8000, 0x00);  // break
    memory.write(0x9000, 0x29);  // bitwise-and: stops the run after the jump
    let mut cpu = Cpu::new(memory).unwrap();
    let r = cpu.start();
    assert_eq!(r, Err(CpuError::UnsupportedOperation(InstructionOperation::And)));
    // The break pushed the advanced counter 0x8001 and the break-encoded
    // status byte, then jumped through the interrupt vector.
    assert_eq!(cpu.memory.read(0x01FF), 0x80);
    assert_eq!(cpu.memory.read(0x01FE), 0x01);
    assert_eq!(cpu.memory.read(0x01FD), 0x20);
    assert_eq!(cpu.registers.s, 0xFC);
    assert_eq!(cpu.registers.pc, 0x9002);
}

#[test]
fn fetch_returns_the_shape_at_pc_until_the_boundary() {
    let mut memory = Memory::new();
    memory.write(0xFFFC, 0x00);
    memory.write(0xFFFD, 0x80);
    memory.write(0x8000, 0xA9);
    let cpu = Cpu::new(memory).unwrap();
    let next = cpu.determine_instruction_next().unwrap();
    assert_eq!(next, Instruction::from_opcode(0xA9));

    let mut memory = Memory::new();
    memory.write(0xFFFC, 0xF9);
    memory.write(0xFFFD, 0xFF);
    memory.write(0xFFF9, 0xEA);
    let cpu = Cpu::new(memory).unwrap();
    assert_eq!(cpu.determine_instruction_next(), None);
}

#[test]
fn load_through_memory_modes_in_the_pipeline() {
    let mut memory = Memory::new();
    memory.write(0xFFFC, 0x00);
    memory.write(0xFFFD, 0x80);
    memory.write(0x8000, 0xAD);  // load accumulator, absolute
    memory.write(0x8001, 0x34);
    memory.write(0x8002, 0x12);
    memory.write(0x1234, 0x00);
    let mut cpu = Cpu::new(memory).unwrap();
    cpu.run_sec();
    let shape = Instruction::from_opcode(0xAD);
    cpu.process_instruction(shape).unwrap();
    assert_eq!(cpu.registers.a, 0x00);
    assert!(cpu.registers.p.contains(FLAG_ZERO));
    // The prior carry survives a load untouched.
    assert!(cpu.registers.p.contains(mos6502::flags::FLAG_CARRY));
}

#[test]
fn memory_reads_report_range_faults() {
    let memory = Memory::new();
    assert_eq!(memory.read_u16(0xFFFF), Err(CpuError::AddressOutOfRange));
    assert!(memory.read_u16(0xFFFE).is_ok());
    assert_eq!(memory.read_n(0xFFFE, 3), Err(CpuError::AddressOutOfRange));
    let bytes = memory.read_n(0xFFFE, 2).unwrap();
    assert_eq!(bytes.len(), 2);
}

#[test]
fn memory_read_n_returns_the_exact_span() {
    let mut memory = Memory::new();
    memory.write(0x2000, 0x01);
    memory.write(0x2001, 0x02);
    memory.write(0x2002, 0x03);
    let bytes = memory.read_n(0x2000, 3).unwrap();
    assert_eq!(bytes, vec![0x01, 0x02, 0x03]);
    let le = memory.read_u16(0x2000).unwrap();
    assert_eq!(le, 0x0201);
}

#[test]
fn clock_counts_cycles_exactly() {
    let mut clock = mos6502::clock::Clock::new(mos6502::clock::ClockMode::Pal);
    assert_eq!(clock.cycles(), 0);
    clock.tick(7);
    clock.tick(2);
    assert_eq!(clock.cycles(), 9);
}

#[test]
fn fetch_past_the_address_space_faults_with_nothing_changed() {
    let mut memory = Memory::new();
    memory.write(0xFFFC, 0xFE);
    memory.write(0xFFFD, 0xFF);
    let mut cpu = Cpu::new(memory).unwrap();
    let shape = Instruction::from_opcode(0xAD);  // absolute load: three bytes
    assert_eq!(cpu.registers.pc, 0xFFFE);
    let r = cpu.process_instruction(shape);
    assert_eq!(r, Err(CpuError::AddressOutOfRange));
    // A fault before any step leaves registers, memory and clock untouched.
    assert_eq!(cpu.registers.pc, 0xFFFE);
    assert_eq!(cpu.clock.cycles(), 0);
}

#[test]
fn pc_advance_wraps_at_the_top_of_memory() {
    let mut memory = Memory::new();
    memory.write(0xFFFF, 0xEA);  // no-op as the very last byte
    let mut cpu = Cpu::new(memory).unwrap();
    cpu.registers.pc = 0xFFFF;
    let shape = Instruction::from_opcode(0xEA);
    cpu.process_instruction(shape).unwrap();
    assert_eq!(cpu.registers.pc, 0x0000);
    assert_eq!(cpu.clock.cycles(), 2);
}
