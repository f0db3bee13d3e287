use mos6502::cpu::Cpu;
use mos6502::flags::{
    FLAG_CARRY, FLAG_DECIMAL, FLAG_INTERRUPT_DISABLE, FLAG_NEGATIVE, FLAG_OVERFLOW, FLAG_ZERO,
};
use mos6502::memory::Memory;

fn fresh_cpu() -> Cpu {
    Cpu::new(Memory::new()).unwrap()
}

#[test]
fn adc_wraps_and_sets_carry_and_zero() {
    let mut cpu = fresh_cpu();
    cpu.registers.a = 0x01;
    cpu.run_adc(0xFF);
    assert_eq!(cpu.registers.a, 0x00);
    assert!(cpu.registers.p.contains(FLAG_CARRY));
    assert!(cpu.registers.p.contains(FLAG_ZERO));
    assert!(!cpu.registers.p.contains(FLAG_NEGATIVE));
    assert!(!cpu.registers.p.contains(FLAG_OVERFLOW));
}

#[test]
fn adc_signals_signed_overflow() {
    let mut cpu = fresh_cpu();
    cpu.registers.a = 0x7F;
    cpu.run_adc(0x01);
    assert_eq!(cpu.registers.a, 0x80);
    assert!(cpu.registers.p.contains(FLAG_OVERFLOW));
    assert!(cpu.registers.p.contains(FLAG_NEGATIVE));
    assert!(!cpu.registers.p.contains(FLAG_CARRY));
    assert!(!cpu.registers.p.contains(FLAG_ZERO));
}

#[test]
fn adc_consumes_carry_in() {
    let mut cpu = fresh_cpu();
    cpu.registers.a = 0xFF;
    cpu.run_sec();
    cpu.run_adc(0x00);
    // 0xFF + 0x00 + carry-in wraps to 0x00 and the wrap reports a carry-out.
    assert_eq!(cpu.registers.a, 0x00);
    assert!(cpu.registers.p.contains(FLAG_CARRY));
    assert!(cpu.registers.p.contains(FLAG_ZERO));
    assert!(!cpu.registers.p.contains(FLAG_OVERFLOW));
}

#[test]
fn load_sets_flags_from_loaded_value_only() {
    let mut cpu = fresh_cpu();
    cpu.run_sec();
    cpu.registers.a = 0x50;
    cpu.run_adc(0x50);
    // 0x50 + 0x50 + 1 overflows into the sign bit: overflow is set.
    assert!(cpu.registers.p.contains(FLAG_OVERFLOW));
    let carry_before = cpu.registers.p.contains(FLAG_CARRY);
    cpu.run_lda(0x00);
    assert!(cpu.registers.p.contains(FLAG_ZERO));
    assert!(!cpu.registers.p.contains(FLAG_NEGATIVE));
    assert_eq!(cpu.registers.p.contains(FLAG_CARRY), carry_before);
    assert!(cpu.registers.p.contains(FLAG_OVERFLOW));
}

#[test]
fn loads_set_zero_and_negative() {
    let mut cpu = fresh_cpu();
    cpu.run_lda(0x80);
    assert_eq!(cpu.registers.a, 0x80);
    assert!(cpu.registers.p.contains(FLAG_NEGATIVE));
    assert!(!cpu.registers.p.contains(FLAG_ZERO));
    cpu.run_ldx(0x00);
    assert_eq!(cpu.registers.x, 0x00);
    assert!(cpu.registers.p.contains(FLAG_ZERO));
    assert!(!cpu.registers.p.contains(FLAG_NEGATIVE));
    cpu.run_ldy(0x7F);
    assert_eq!(cpu.registers.y, 0x7F);
    assert!(!cpu.registers.p.contains(FLAG_ZERO));
    assert!(!cpu.registers.p.contains(FLAG_NEGATIVE));
}

#[test]
fn increment_wraps_around_at_byte_boundary() {
    let mut cpu = fresh_cpu();
    cpu.registers.x = 0xFF;
    cpu.run_inx();
    assert_eq!(cpu.registers.x, 0x00);
    assert!(cpu.registers.p.contains(FLAG_ZERO));
    assert!(!cpu.registers.p.contains(FLAG_NEGATIVE));
    // Increment never touches the carry flag, unlike add-with-carry.
    assert!(!cpu.registers.p.contains(FLAG_CARRY));

    cpu.registers.y = 0x7F;
    cpu.run_iny();
    assert_eq!(cpu.registers.y, 0x80);
    assert!(cpu.registers.p.contains(FLAG_NEGATIVE));
    assert!(!cpu.registers.p.contains(FLAG_ZERO));
}

#[test]
fn transfers_copy_and_set_flags() {
    let mut cpu = fresh_cpu();
    cpu.registers.a = 0x90;
    cpu.run_tax();
    assert_eq!(cpu.registers.x, 0x90);
    assert!(cpu.registers.p.contains(FLAG_NEGATIVE));
    cpu.run_tay();
    assert_eq!(cpu.registers.y, 0x90);
    cpu.registers.x = 0x00;
    cpu.run_txa();
    assert_eq!(cpu.registers.a, 0x00);
    assert!(cpu.registers.p.contains(FLAG_ZERO));
    cpu.registers.y = 0x05;
    cpu.run_tya();
    assert_eq!(cpu.registers.a, 0x05);
    assert!(!cpu.registers.p.contains(FLAG_ZERO));
    assert!(!cpu.registers.p.contains(FLAG_NEGATIVE));
}

#[test]
fn flag_operations_force_exactly_one_flag() {
    let mut cpu = fresh_cpu();
    cpu.run_sec();
    assert!(cpu.registers.p.contains(FLAG_CARRY));
    cpu.run_sed();
    assert!(cpu.registers.p.contains(FLAG_DECIMAL));
    cpu.run_sei();
    assert!(cpu.registers.p.contains(FLAG_INTERRUPT_DISABLE));
    assert!(cpu.registers.p.contains(FLAG_CARRY));
    cpu.run_clc();
    assert!(!cpu.registers.p.contains(FLAG_CARRY));
    assert!(cpu.registers.p.contains(FLAG_DECIMAL));
    cpu.run_cld();
    assert!(!cpu.registers.p.contains(FLAG_DECIMAL));
    cpu.run_cli();
    assert!(!cpu.registers.p.contains(FLAG_INTERRUPT_DISABLE));
    cpu.run_sec();
    cpu.registers.a = 0x7F;
    cpu.run_adc(0x01);
    assert!(cpu.registers.p.contains(FLAG_OVERFLOW));
    cpu.run_clv();
    assert!(!cpu.registers.p.contains(FLAG_OVERFLOW));
}

#[test]
fn asl_on_accumulator_takes_carry_from_discarded_bit() {
    let mut cpu = fresh_cpu();
    cpu.registers.a = 0x81;
    cpu.run_asl(mos6502::instruction::Location::Accumulator);
    assert_eq!(cpu.registers.a, 0x02);
    assert!(cpu.registers.p.contains(FLAG_CARRY));
    assert!(!cpu.registers.p.contains(FLAG_ZERO));
    assert!(!cpu.registers.p.contains(FLAG_NEGATIVE));
}

#[test]
fn asl_on_memory_writes_back_in_place() {
    let mut cpu = fresh_cpu();
    cpu.memory.write(0x0040, 0x40);
    cpu.run_asl(mos6502::instruction::Location::Address(0x0040));
    assert_eq!(cpu.memory.read(0x0040), 0x80);
    assert!(!cpu.registers.p.contains(FLAG_CARRY));
    assert!(cpu.registers.p.contains(FLAG_NEGATIVE));
    assert!(!cpu.registers.p.contains(FLAG_ZERO));
    // The accumulator is not the target here and stays untouched.
    assert_eq!(cpu.registers.a, 0x00);
}

#[test]
fn asl_zero_result_sets_zero_flag() {
    let mut cpu = fresh_cpu();
    cpu.memory.write(0x0040, 0x80);
    cpu.run_asl(mos6502::instruction::Location::Address(0x0040));
    assert_eq!(cpu.memory.read(0x0040), 0x00);
    assert!(cpu.registers.p.contains(FLAG_CARRY));
    assert!(cpu.registers.p.contains(FLAG_ZERO));
}

#[test]
fn overflow_test_uses_three_operands() {
    // A sign flip alone is no overflow: positive plus negative never
    // overflows, whatever the result's sign.
    assert!(!mos6502::cpu::has_overflown(0x01, 0xFF, 0x00));
    assert!(mos6502::cpu::has_overflown(0x7F, 0x01, 0x80));
    assert!(mos6502::cpu::has_overflown(0x80, 0x80, 0x00));
    assert!(!mos6502::cpu::has_overflown(0x01, 0x01, 0x02));
}

#[test]
fn carry_comparison_and_sign_helpers() {
    assert!(mos6502::cpu::is_carry(0xFF, 0x00));
    assert!(!mos6502::cpu::is_carry(0x01, 0x02));
    assert!(mos6502::cpu::is_negative(0x80));
    assert!(!mos6502::cpu::is_negative(0x7F));
}
