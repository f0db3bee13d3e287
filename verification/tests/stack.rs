use mos6502::cpu::Cpu;
use mos6502::flags::{BreakType, StatusFlags, FLAG_INTERRUPT_DISABLE};
use mos6502::memory::Memory;

fn fresh_cpu() -> Cpu {
    Cpu::new(Memory::new()).unwrap()
}

#[test]
fn push_then_pull_restores_pointer_and_clears_the_cell() {
    let mut cpu = fresh_cpu();
    cpu.memory.write(0x00FF, 0x55);
    cpu.memory.write(0x0200, 0x66);
    let s_before = cpu.registers.s;
    cpu.stack_push(0xAB);
    assert_eq!(cpu.registers.s, s_before.wrapping_sub(1));
    assert_eq!(cpu.memory.read(0x0100 + s_before as u16), 0xAB);
    let pulled = cpu.stack_pull();
    assert_eq!(pulled, 0xAB);
    assert_eq!(cpu.registers.s, s_before);
    // The vacated stack cell is cleared after the pull.
    assert_eq!(cpu.memory.read(0x0100 + s_before as u16), 0x00);
    // Memory outside the stack page is untouched.
    assert_eq!(cpu.memory.read(0x00FF), 0x55);
    assert_eq!(cpu.memory.read(0x0200), 0x66);
}

#[test]
fn stack_pointer_wraps_inside_the_stack_page() {
    let mut cpu = fresh_cpu();
    cpu.registers.s = 0x00;
    cpu.stack_push(0x11);
    assert_eq!(cpu.registers.s, 0xFF);
    assert_eq!(cpu.memory.read(0x0100), 0x11);
    let pulled = cpu.stack_pull();
    assert_eq!(pulled, 0x11);
    assert_eq!(cpu.registers.s, 0x00);
}

#[test]
fn stack_address_tracks_the_pointer() {
    let mut cpu = fresh_cpu();
    assert_eq!(cpu.stack_determine_address(), 0x01FF);
    cpu.registers.s = 0x42;
    assert_eq!(cpu.stack_determine_address(), 0x0142);
}

#[test]
fn break_serialization_distinguishes_push_reasons() {
    let mut p = StatusFlags::empty();
    p.set_break(BreakType::Internal);
    assert_eq!(p.bits(), 0x30);
    let mut q = StatusFlags::empty();
    q.set_break(BreakType::Instruction);
    assert_eq!(q.bits(), 0x20);
    q.clear_break();
    assert_eq!(q.bits(), 0x00);
}

#[test]
fn break_pushes_pc_and_flags_and_jumps_through_the_vector() {
    let mut memory = Memory::new();
    // Interrupt vector points at 0x9000.
    memory.write(0xFFFE, 0x00);
    memory.write(0xFFFF, 0x90);
    let mut cpu = Cpu::new(memory).unwrap();
    cpu.registers.pc = 0x8001;
    let s_before = cpu.registers.s;
    cpu.run_brk();
    assert_eq!(cpu.registers.pc, 0x9000);
    assert_eq!(cpu.registers.s, s_before.wrapping_sub(3));
    // Program counter high byte, then low byte, then the status byte with
    // the instruction-initiated break encoding.
    assert_eq!(cpu.memory.read(0x0100 + s_before as u16), 0x80);
    assert_eq!(cpu.memory.read(0x0100 + s_before.wrapping_sub(1) as u16), 0x01);
    assert_eq!(cpu.memory.read(0x0100 + s_before.wrapping_sub(2) as u16), 0x20);
    assert!(cpu.registers.p.contains(FLAG_INTERRUPT_DISABLE));
}
