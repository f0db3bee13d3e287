use mos6502::instruction::{
    mode_len, Instruction, InstructionMode, InstructionOperation,
};

#[test]
fn lookup_is_total_over_all_opcodes() {
    for opcode in 0..=255u8 {
        let shape = Instruction::from_opcode(opcode);
        assert!(shape.len() >= 1 && shape.len() <= 3);
        assert!(shape.cycles_base() >= 1 && shape.cycles_base() <= 7);
        assert_eq!(shape.len(), mode_len(shape.mode()));
    }
}

#[test]
fn lookup_known_shapes() {
    let lda_imm = Instruction::from_opcode(0xA9);
    assert_eq!(lda_imm.operation(), InstructionOperation::Lda);
    assert_eq!(lda_imm.mode(), InstructionMode::Immediate);
    assert_eq!(lda_imm.len(), 2);
    assert_eq!(lda_imm.cycles_base(), 2);

    let adc_indy = Instruction::from_opcode(0x71);
    assert_eq!(adc_indy.operation(), InstructionOperation::Adc);
    assert_eq!(adc_indy.mode(), InstructionMode::IndirectY);
    assert_eq!(adc_indy.len(), 2);
    assert_eq!(adc_indy.cycles_base(), 5);

    let brk = Instruction::from_opcode(0x00);
    assert_eq!(brk.operation(), InstructionOperation::Brk);
    assert_eq!(brk.mode(), InstructionMode::Implied);
    assert_eq!(brk.len(), 1);
    assert_eq!(brk.cycles_base(), 7);

    let asl_absx = Instruction::from_opcode(0x1E);
    assert_eq!(asl_absx.operation(), InstructionOperation::Asl);
    assert_eq!(asl_absx.mode(), InstructionMode::AbsoluteX);
    assert_eq!(asl_absx.len(), 3);
    assert_eq!(asl_absx.cycles_base(), 7);

    let jmp_ind = Instruction::from_opcode(0x6C);
    assert_eq!(jmp_ind.operation(), InstructionOperation::Jmp);
    assert_eq!(jmp_ind.mode(), InstructionMode::Indirect);
    assert_eq!(jmp_ind.len(), 3);
}

#[test]
fn unassigned_opcode_maps_to_noop_shape() {
    let shape = Instruction::from_opcode(0x02);
    assert_eq!(shape.operation(), InstructionOperation::Nop);
    assert_eq!(shape.mode(), InstructionMode::Implied);
    assert_eq!(shape.len(), 1);
    assert_eq!(shape.cycles_base(), 2);
}

#[test]
fn mode_fixes_instruction_length() {
    assert_eq!(mode_len(InstructionMode::Implied), 1);
    assert_eq!(mode_len(InstructionMode::Accumulator), 1);
    assert_eq!(mode_len(InstructionMode::Immediate), 2);
    assert_eq!(mode_len(InstructionMode::Relative), 2);
    assert_eq!(mode_len(InstructionMode::ZeroPage), 2);
    assert_eq!(mode_len(InstructionMode::ZeroPageX), 2);
    assert_eq!(mode_len(InstructionMode::ZeroPageY), 2);
    assert_eq!(mode_len(InstructionMode::Absolute), 3);
    assert_eq!(mode_len(InstructionMode::AbsoluteX), 3);
    assert_eq!(mode_len(InstructionMode::AbsoluteY), 3);
    assert_eq!(mode_len(InstructionMode::Indirect), 3);
    assert_eq!(mode_len(InstructionMode::IndirectX), 2);
    assert_eq!(mode_len(InstructionMode::IndirectY), 2);
}
