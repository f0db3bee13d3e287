//! The static instruction table: every opcode byte maps to a shape giving the
//! operation kind, the addressing mode, the total instruction length and the
//! base cycle cost. The mapping is total: unassigned opcode bytes map to a
//! designated no-op-like shape instead of failing the lookup.

use vstd::prelude::*;

verus! {

/// The operation kinds, one per mnemonic, matched exhaustively by the
/// executor so that adding one forces every dispatch site to acknowledge it.
#[derive(Clone, Copy, Debug, PartialEq, Eq, Structural)]
pub enum InstructionOperation {
    Adc,
    And,
    Asl,
    Bcc,
    Bcs,
    Beq,
    Bit,
    Bmi,
    Bne,
    Bpl,
    Brk,
    Bvc,
    Bvs,
    Clc,
    Cld,
    Cli,
    Clv,
    Cmp,
    Cpx,
    Cpy,
    Dec,
    Dex,
    Dey,
    Eor,
    Inc,
    Inx,
    Iny,
    Jmp,
    Jsr,
    Lda,
    Ldx,
    Ldy,
    Lsr,
    Nop,
    Ora,
    Pha,
    Php,
    Pla,
    Plp,
    Rol,
    Ror,
    Rti,
    Rts,
    Sbc,
    Sec,
    Sed,
    Sei,
    Sta,
    Stx,
    Sty,
    Tax,
    Tay,
    Tsx,
    Txa,
    Txs,
    Tya,
}

/// The rule by which an instruction's trailing bytes become an operand or an
/// effective memory address.
#[derive(Clone, Copy, Debug, PartialEq, Eq, Structural)]
pub enum InstructionMode {
    Implied,
    Accumulator,
    Immediate,
    Relative,
    ZeroPage,
    ZeroPageX,
    ZeroPageY,
    Absolute,
    AbsoluteX,
    AbsoluteY,
    Indirect,
    IndirectX,
    IndirectY,
}

/// The transient value the resolver produces for one instruction: no input,
/// the accumulator itself, an immediate data byte, or a resolved 16-bit
/// effective address.
#[derive(Clone, Copy, Debug, PartialEq, Eq, Structural)]
pub enum InstructionInput {
    Implied,
    Accumulator,
    Byte(u8),
    Address(u16),
}

/// A read-modify-write target: the accumulator register or a memory address.
#[derive(Clone, Copy, Debug, PartialEq, Eq, Structural)]
pub enum Location {
    Accumulator,
    Address(u16),
}

/// The per-opcode shape: operation kind, addressing mode, total byte length
/// and base cycle cost. Immutable once looked up.
#[derive(Clone, Copy, Debug, PartialEq, Eq, Structural)]
pub struct Instruction {
    pub operation: InstructionOperation,
    pub mode: InstructionMode,
    pub len: u8,
    pub cycles_base: u8,
}

/// Each addressing mode fixes the instruction's total byte length.
pub open spec fn spec_mode_len(mode: InstructionMode) -> u8 {
    match mode {
        InstructionMode::Implied => 1,
        InstructionMode::Accumulator => 1,
        InstructionMode::Immediate => 2,
        InstructionMode::Relative => 2,
        InstructionMode::ZeroPage => 2,
        InstructionMode::ZeroPageX => 2,
        InstructionMode::ZeroPageY => 2,
        InstructionMode::Absolute => 3,
        InstructionMode::AbsoluteX => 3,
        InstructionMode::AbsoluteY => 3,
        InstructionMode::Indirect => 3,
        InstructionMode::IndirectX => 2,
        InstructionMode::IndirectY => 2,
    }
}

pub fn mode_len(mode: InstructionMode) -> (r: u8)
    ensures
        r == spec_mode_len(mode),
{
    match mode {
        InstructionMode::Implied => 1,
        InstructionMode::Accumulator => 1,
        InstructionMode::Immediate => 2,
        InstructionMode::Relative => 2,
        InstructionMode::ZeroPage => 2,
        InstructionMode::ZeroPageX => 2,
        InstructionMode::ZeroPageY => 2,
        InstructionMode::Absolute => 3,
        InstructionMode::AbsoluteX => 3,
        InstructionMode::AbsoluteY => 3,
        InstructionMode::Indirect => 3,
        InstructionMode::IndirectX => 2,
        InstructionMode::IndirectY => 2,
    }
}

/// The addressing modes under which an operation can appear in the table.
pub open spec fn op_mode_ok(operation: InstructionOperation, mode: InstructionMode) -> bool {
    match operation {
        InstructionOperation::Adc
        | InstructionOperation::And
        | InstructionOperation::Cmp
        | InstructionOperation::Eor
        | InstructionOperation::Lda
        | InstructionOperation::Ora
        | InstructionOperation::Sbc => {
            ||| mode == InstructionMode::Immediate
            ||| mode == InstructionMode::ZeroPage
            ||| mode == InstructionMode::ZeroPageX
            ||| mode == InstructionMode::Absolute
            ||| mode == InstructionMode::AbsoluteX
            ||| mode == InstructionMode::AbsoluteY
            ||| mode == InstructionMode::IndirectX
            ||| mode == InstructionMode::IndirectY
        },
        InstructionOperation::Ldx => {
            ||| mode == InstructionMode::Immediate
            ||| mode == InstructionMode::ZeroPage
            ||| mode == InstructionMode::ZeroPageY
            ||| mode == InstructionMode::Absolute
            ||| mode == InstructionMode::AbsoluteY
        },
        InstructionOperation::Ldy => {
            ||| mode == InstructionMode::Immediate
            ||| mode == InstructionMode::ZeroPage
            ||| mode == InstructionMode::ZeroPageX
            ||| mode == InstructionMode::Absolute
            ||| mode == InstructionMode::AbsoluteX
        },
        InstructionOperation::Cpx | InstructionOperation::Cpy => {
            ||| mode == InstructionMode::Immediate
            ||| mode == InstructionMode::ZeroPage
            ||| mode == InstructionMode::Absolute
        },
        InstructionOperation::Asl
        | InstructionOperation::Lsr
        | InstructionOperation::Rol
        | InstructionOperation::Ror => {
            ||| mode == InstructionMode::Accumulator
            ||| mode == InstructionMode::ZeroPage
            ||| mode == InstructionMode::ZeroPageX
            ||| mode == InstructionMode::Absolute
            ||| mode == InstructionMode::AbsoluteX
        },
        InstructionOperation::Bcc
        | InstructionOperation::Bcs
        | InstructionOperation::Beq
        | InstructionOperation::Bmi
        | InstructionOperation::Bne
        | InstructionOperation::Bpl
        | InstructionOperation::Bvc
        | InstructionOperation::Bvs => mode == InstructionMode::Relative,
        InstructionOperation::Bit => {
            ||| mode == InstructionMode::ZeroPage
            ||| mode == InstructionMode::Absolute
        },
        InstructionOperation::Dec | InstructionOperation::Inc => {
            ||| mode == InstructionMode::ZeroPage
            ||| mode == InstructionMode::ZeroPageX
            ||| mode == InstructionMode::Absolute
            ||| mode == InstructionMode::AbsoluteX
        },
        InstructionOperation::Jmp => {
            ||| mode == InstructionMode::Absolute
            ||| mode == InstructionMode::Indirect
        },
        InstructionOperation::Jsr => mode == InstructionMode::Absolute,
        InstructionOperation::Sta => {
            ||| mode == InstructionMode::ZeroPage
            ||| mode == InstructionMode::ZeroPageX
            ||| mode == InstructionMode::Absolute
            ||| mode == InstructionMode::AbsoluteX
            ||| mode == InstructionMode::AbsoluteY
            ||| mode == InstructionMode::IndirectX
            ||| mode == InstructionMode::IndirectY
        },
        InstructionOperation::Stx => {
            ||| mode == InstructionMode::ZeroPage
            ||| mode == InstructionMode::ZeroPageY
            ||| mode == InstructionMode::Absolute
        },
        InstructionOperation::Sty => {
            ||| mode == InstructionMode::ZeroPage
            ||| mode == InstructionMode::ZeroPageX
            ||| mode == InstructionMode::Absolute
        },
        _ => mode == InstructionMode::Implied,
    }
}

/// A shape is well formed when its length agrees with its addressing mode,
/// its cycle cost is positive, and its operation can carry its mode.
pub open spec fn instruction_wf(i: Instruction) -> bool {
    &&& i.len == spec_mode_len(i.mode)
    &&& 1 <= i.len <= 3
    &&& 1 <= i.cycles_base <= 7
    &&& op_mode_ok(i.operation, i.mode)
}

impl Instruction {
    pub fn operation(&self) -> (r: InstructionOperation)
        ensures
            r == self.operation,
    {
        self.operation
    }

    pub fn mode(&self) -> (r: InstructionMode)
        ensures
            r == self.mode,
    {
        self.mode
    }

    pub fn len(&self) -> (r: u8)
        ensures
            r == self.len,
    {
        self.len
    }

    pub fn cycles_base(&self) -> (r: u8)
        ensures
            r == self.cycles_base,
    {
        self.cycles_base
    }

    /// Look the opcode byte up in the static table. Total over all 256
    /// values: unassigned bytes yield the designated no-op-like shape.
    pub fn from_opcode(opcode: u8) -> (r: Instruction)
        ensures
            r == spec_from_opcode(opcode),
            instruction_wf(r),
    {
        let (operation, mode, cycles_base) = match opcode {
            0x69 => (InstructionOperation::Adc, InstructionMode::Immediate, 2),
            0x65 => (InstructionOperation::Adc, InstructionMode::ZeroPage, 3),
            0x75 => (InstructionOperation::Adc, InstructionMode::ZeroPageX, 4),
            0x6D => (InstructionOperation::Adc, InstructionMode::Absolute, 4),
            0x7D => (InstructionOperation::Adc, InstructionMode::AbsoluteX, 4),
            0x79 => (InstructionOperation::Adc, InstructionMode::AbsoluteY, 4),
            0x61 => (InstructionOperation::Adc, InstructionMode::IndirectX, 6),
            0x71 => (InstructionOperation::Adc, InstructionMode::IndirectY, 5),
            0x29 => (InstructionOperation::And, InstructionMode::Immediate, 2),
            0x25 => (InstructionOperation::And, InstructionMode::ZeroPage, 3),
            0x35 => (InstructionOperation::And, InstructionMode::ZeroPageX, 4),
            0x2D => (InstructionOperation::And, InstructionMode::Absolute, 4),
            0x3D => (InstructionOperation::And, InstructionMode::AbsoluteX, 4),
            0x39 => (InstructionOperation::And, InstructionMode::AbsoluteY, 4),
            0x21 => (InstructionOperation::And, InstructionMode::IndirectX, 6),
            0x31 => (InstructionOperation::And, InstructionMode::IndirectY, 5),
            0x0A => (InstructionOperation::Asl, InstructionMode::Accumulator, 2),
            0x06 => (InstructionOperation::Asl, InstructionMode::ZeroPage, 5),
            0x16 => (InstructionOperation::Asl, InstructionMode::ZeroPageX, 6),
            0x0E => (InstructionOperation::Asl, InstructionMode::Absolute, 6),
            0x1E => (InstructionOperation::Asl, InstructionMode::AbsoluteX, 7),
            0x90 => (InstructionOperation::Bcc, InstructionMode::Relative, 2),
            0xB0 => (InstructionOperation::Bcs, InstructionMode::Relative, 2),
            0xF0 => (InstructionOperation::Beq, InstructionMode::Relative, 2),
            0x24 => (InstructionOperation::Bit, InstructionMode::ZeroPage, 3),
            0x2C => (InstructionOperation::Bit, InstructionMode::Absolute, 4),
            0x30 => (InstructionOperation::Bmi, InstructionMode::Relative, 2),
            0xD0 => (InstructionOperation::Bne, InstructionMode::Relative, 2),
            0x10 => (InstructionOperation::Bpl, InstructionMode::Relative, 2),
            0x00 => (InstructionOperation::Brk, InstructionMode::Implied, 7),
            0x50 => (InstructionOperation::Bvc, InstructionMode::Relative, 2),
            0x70 => (InstructionOperation::Bvs, InstructionMode::Relative, 2),
            0x18 => (InstructionOperation::Clc, InstructionMode::Implied, 2),
            0xD8 => (InstructionOperation::Cld, InstructionMode::Implied, 2),
            0x58 => (InstructionOperation::Cli, InstructionMode::Implied, 2),
            0xB8 => (InstructionOperation::Clv, InstructionMode::Implied, 2),
            0xC9 => (InstructionOperation::Cmp, InstructionMode::Immediate, 2),
            0xC5 => (InstructionOperation::Cmp, InstructionMode::ZeroPage, 3),
            0xD5 => (InstructionOperation::Cmp, InstructionMode::ZeroPageX, 4),
            0xCD => (InstructionOperation::Cmp, InstructionMode::Absolute, 4),
            0xDD => (InstructionOperation::Cmp, InstructionMode::AbsoluteX, 4),
            0xD9 => (InstructionOperation::Cmp, InstructionMode::AbsoluteY, 4),
            0xC1 => (InstructionOperation::Cmp, InstructionMode::IndirectX, 6),
            0xD1 => (InstructionOperation::Cmp, InstructionMode::IndirectY, 5),
            0xE0 => (InstructionOperation::Cpx, InstructionMode::Immediate, 2),
            0xE4 => (InstructionOperation::Cpx, InstructionMode::ZeroPage, 3),
            0xEC => (InstructionOperation::Cpx, InstructionMode::Absolute, 4),
            0xC0 => (InstructionOperation::Cpy, InstructionMode::Immediate, 2),
            0xC4 => (InstructionOperation::Cpy, InstructionMode::ZeroPage, 3),
            0xCC => (InstructionOperation::Cpy, InstructionMode::Absolute, 4),
            0xC6 => (InstructionOperation::Dec, InstructionMode::ZeroPage, 5),
            0xD6 => (InstructionOperation::Dec, InstructionMode::ZeroPageX, 6),
            0xCE => (InstructionOperation::Dec, InstructionMode::Absolute, 6),
            0xDE => (InstructionOperation::Dec, InstructionMode::AbsoluteX, 7),
            0xCA => (InstructionOperation::Dex, InstructionMode::Implied, 2),
            0x88 => (InstructionOperation::Dey, InstructionMode::Implied, 2),
            0x49 => (InstructionOperation::Eor, InstructionMode::Immediate, 2),
            0x45 => (InstructionOperation::Eor, InstructionMode::ZeroPage, 3),
            0x55 => (InstructionOperation::Eor, InstructionMode::ZeroPageX, 4),
            0x4D => (InstructionOperation::Eor, InstructionMode::Absolute, 4),
            0x5D => (InstructionOperation::Eor, InstructionMode::AbsoluteX, 4),
            0x59 => (InstructionOperation::Eor, InstructionMode::AbsoluteY, 4),
            0x41 => (InstructionOperation::Eor, InstructionMode::IndirectX, 6),
            0x51 => (InstructionOperation::Eor, InstructionMode::IndirectY, 5),
            0xE6 => (InstructionOperation::Inc, InstructionMode::ZeroPage, 5),
            0xF6 => (InstructionOperation::Inc, InstructionMode::ZeroPageX, 6),
            0xEE => (InstructionOperation::Inc, InstructionMode::Absolute, 6),
            0xFE => (InstructionOperation::Inc, InstructionMode::AbsoluteX, 7),
            0xE8 => (InstructionOperation::Inx, InstructionMode::Implied, 2),
            0xC8 => (InstructionOperation::Iny, InstructionMode::Implied, 2),
            0x4C => (InstructionOperation::Jmp, InstructionMode::Absolute, 3),
            0x6C => (InstructionOperation::Jmp, InstructionMode::Indirect, 5),
            0x20 => (InstructionOperation::Jsr, InstructionMode::Absolute, 6),
            0xA9 => (InstructionOperation::Lda, InstructionMode::Immediate, 2),
            0xA5 => (InstructionOperation::Lda, InstructionMode::ZeroPage, 3),
            0xB5 => (InstructionOperation::Lda, InstructionMode::ZeroPageX, 4),
            0xAD => (InstructionOperation::Lda, InstructionMode::Absolute, 4),
            0xBD => (InstructionOperation::Lda, InstructionMode::AbsoluteX, 4),
            0xB9 => (InstructionOperation::Lda, InstructionMode::AbsoluteY, 4),
            0xA1 => (InstructionOperation::Lda, InstructionMode::IndirectX, 6),
            0xB1 => (InstructionOperation::Lda, InstructionMode::IndirectY, 5),
            0xA2 => (InstructionOperation::Ldx, InstructionMode::Immediate, 2),
            0xA6 => (InstructionOperation::Ldx, InstructionMode::ZeroPage, 3),
            0xB6 => (InstructionOperation::Ldx, InstructionMode::ZeroPageY, 4),
            0xAE => (InstructionOperation::Ldx, InstructionMode::Absolute, 4),
            0xBE => (InstructionOperation::Ldx, InstructionMode::AbsoluteY, 4),
            0xA0 => (InstructionOperation::Ldy, InstructionMode::Immediate, 2),
            0xA4 => (InstructionOperation::Ldy, InstructionMode::ZeroPage, 3),
            0xB4 => (InstructionOperation::Ldy, InstructionMode::ZeroPageX, 4),
            0xAC => (InstructionOperation::Ldy, InstructionMode::Absolute, 4),
            0xBC => (InstructionOperation::Ldy, InstructionMode::AbsoluteX, 4),
            0x4A => (InstructionOperation::Lsr, InstructionMode::Accumulator, 2),
            0x46 => (InstructionOperation::Lsr, InstructionMode::ZeroPage, 5),
            0x56 => (InstructionOperation::Lsr, InstructionMode::ZeroPageX, 6),
            0x4E => (InstructionOperation::Lsr, InstructionMode::Absolute, 6),
            0x5E => (InstructionOperation::Lsr, InstructionMode::AbsoluteX, 7),
            0xEA => (InstructionOperation::Nop, InstructionMode::Implied, 2),
            0x09 => (InstructionOperation::Ora, InstructionMode::Immediate, 2),
            0x05 => (InstructionOperation::Ora, InstructionMode::ZeroPage, 3),
            0x15 => (InstructionOperation::Ora, InstructionMode::ZeroPageX, 4),
            0x0D => (InstructionOperation::Ora, InstructionMode::Absolute, 4),
            0x1D => (InstructionOperation::Ora, InstructionMode::AbsoluteX, 4),
            0x19 => (InstructionOperation::Ora, InstructionMode::AbsoluteY, 4),
            0x01 => (InstructionOperation::Ora, InstructionMode::IndirectX, 6),
            0x11 => (InstructionOperation::Ora, InstructionMode::IndirectY, 5),
            0x48 => (InstructionOperation::Pha, InstructionMode::Implied, 3),
            0x08 => (InstructionOperation::Php, InstructionMode::Implied, 3),
            0x68 => (InstructionOperation::Pla, InstructionMode::Implied, 4),
            0x28 => (InstructionOperation::Plp, InstructionMode::Implied, 4),
            0x2A => (InstructionOperation::Rol, InstructionMode::Accumulator, 2),
            0x26 => (InstructionOperation::Rol, InstructionMode::ZeroPage, 5),
            0x36 => (InstructionOperation::Rol, InstructionMode::ZeroPageX, 6),
            0x2E => (InstructionOperation::Rol, InstructionMode::Absolute, 6),
            0x3E => (InstructionOperation::Rol, InstructionMode::AbsoluteX, 7),
            0x6A => (InstructionOperation::Ror, InstructionMode::Accumulator, 2),
            0x66 => (InstructionOperation::Ror, InstructionMode::ZeroPage, 5),
            0x76 => (InstructionOperation::Ror, InstructionMode::ZeroPageX, 6),
            0x6E => (InstructionOperation::Ror, InstructionMode::Absolute, 6),
            0x7E => (InstructionOperation::Ror, InstructionMode::AbsoluteX, 7),
            0x40 => (InstructionOperation::Rti, InstructionMode::Implied, 6),
            0x60 => (InstructionOperation::Rts, InstructionMode::Implied, 6),
            0xE9 => (InstructionOperation::Sbc, InstructionMode::Immediate, 2),
            0xE5 => (InstructionOperation::Sbc, InstructionMode::ZeroPage, 3),
            0xF5 => (InstructionOperation::Sbc, InstructionMode::ZeroPageX, 4),
            0xED => (InstructionOperation::Sbc, InstructionMode::Absolute, 4),
            0xFD => (InstructionOperation::Sbc, InstructionMode::AbsoluteX, 4),
            0xF9 => (InstructionOperation::Sbc, InstructionMode::AbsoluteY, 4),
            0xE1 => (InstructionOperation::Sbc, InstructionMode::IndirectX, 6),
            0xF1 => (InstructionOperation::Sbc, InstructionMode::IndirectY, 5),
            0x38 => (InstructionOperation::Sec, InstructionMode::Implied, 2),
            0xF8 => (InstructionOperation::Sed, InstructionMode::Implied, 2),
            0x78 => (InstructionOperation::Sei, InstructionMode::Implied, 2),
            0x85 => (InstructionOperation::Sta, InstructionMode::ZeroPage, 3),
            0x95 => (InstructionOperation::Sta, InstructionMode::ZeroPageX, 4),
            0x8D => (InstructionOperation::Sta, InstructionMode::Absolute, 4),
            0x9D => (InstructionOperation::Sta, InstructionMode::AbsoluteX, 5),
            0x99 => (InstructionOperation::Sta, InstructionMode::AbsoluteY, 5),
            0x81 => (InstructionOperation::Sta, InstructionMode::IndirectX, 6),
            0x91 => (InstructionOperation::Sta, InstructionMode::IndirectY, 6),
            0x86 => (InstructionOperation::Stx, InstructionMode::ZeroPage, 3),
            0x96 => (InstructionOperation::Stx, InstructionMode::ZeroPageY, 4),
            0x8E => (InstructionOperation::Stx, InstructionMode::Absolute, 4),
            0x84 => (InstructionOperation::Sty, InstructionMode::ZeroPage, 3),
            0x94 => (InstructionOperation::Sty, InstructionMode::ZeroPageX, 4),
            0x8C => (InstructionOperation::Sty, InstructionMode::Absolute, 4),
            0xAA => (InstructionOperation::Tax, InstructionMode::Implied, 2),
            0xA8 => (InstructionOperation::Tay, InstructionMode::Implied, 2),
            0xBA => (InstructionOperation::Tsx, InstructionMode::Implied, 2),
            0x8A => (InstructionOperation::Txa, InstructionMode::Implied, 2),
            0x9A => (InstructionOperation::Txs, InstructionMode::Implied, 2),
            0x98 => (InstructionOperation::Tya, InstructionMode::Implied, 2),
            _ => (InstructionOperation::Nop, InstructionMode::Implied, 2),
        };
        let len = mode_len(mode);
        Instruction { operation, mode, len, cycles_base }
    }
}

/// The static table as a mathematical function of the opcode byte.
pub open spec fn spec_from_opcode(opcode: u8) -> Instruction {
    let (operation, mode, cycles_base): (InstructionOperation, InstructionMode, u8) = match opcode {
        0x69 => (InstructionOperation::Adc, InstructionMode::Immediate, 2),
        0x65 => (InstructionOperation::Adc, InstructionMode::ZeroPage, 3),
        0x75 => (InstructionOperation::Adc, InstructionMode::ZeroPageX, 4),
        0x6D => (InstructionOperation::Adc, InstructionMode::Absolute, 4),
        0x7D => (InstructionOperation::Adc, InstructionMode::AbsoluteX, 4),
        0x79 => (InstructionOperation::Adc, InstructionMode::AbsoluteY, 4),
        0x61 => (InstructionOperation::Adc, InstructionMode::IndirectX, 6),
        0x71 => (InstructionOperation::Adc, InstructionMode::IndirectY, 5),
        0x29 => (InstructionOperation::And, InstructionMode::Immediate, 2),
        0x25 => (InstructionOperation::And, InstructionMode::ZeroPage, 3),
        0x35 => (InstructionOperation::And, InstructionMode::ZeroPageX, 4),
        0x2D => (InstructionOperation::And, InstructionMode::Absolute, 4),
        0x3D => (InstructionOperation::And, InstructionMode::AbsoluteX, 4),
        0x39 => (InstructionOperation::And, InstructionMode::AbsoluteY, 4),
        0x21 => (InstructionOperation::And, InstructionMode::IndirectX, 6),
        0x31 => (InstructionOperation::And, InstructionMode::IndirectY, 5),
        0x0A => (InstructionOperation::Asl, InstructionMode::Accumulator, 2),
        0x06 => (InstructionOperation::Asl, InstructionMode::ZeroPage, 5),
        0x16 => (InstructionOperation::Asl, InstructionMode::ZeroPageX, 6),
        0x0E => (InstructionOperation::Asl, InstructionMode::Absolute, 6),
        0x1E => (InstructionOperation::Asl, InstructionMode::AbsoluteX, 7),
        0x90 => (InstructionOperation::Bcc, InstructionMode::Relative, 2),
        0xB0 => (InstructionOperation::Bcs, InstructionMode::Relative, 2),
        0xF0 => (InstructionOperation::Beq, InstructionMode::Relative, 2),
        0x24 => (InstructionOperation::Bit, InstructionMode::ZeroPage, 3),
        0x2C => (InstructionOperation::Bit, InstructionMode::Absolute, 4),
        0x30 => (InstructionOperation::Bmi, InstructionMode::Relative, 2),
        0xD0 => (InstructionOperation::Bne, InstructionMode::Relative, 2),
        0x10 => (InstructionOperation::Bpl, InstructionMode::Relative, 2),
        0x00 => (InstructionOperation::Brk, InstructionMode::Implied, 7),
        0x50 => (InstructionOperation::Bvc, InstructionMode::Relative, 2),
        0x70 => (InstructionOperation::Bvs, InstructionMode::Relative, 2),
        0x18 => (InstructionOperation::Clc, InstructionMode::Implied, 2),
        0xD8 => (InstructionOperation::Cld, InstructionMode::Implied, 2),
        0x58 => (InstructionOperation::Cli, InstructionMode::Implied, 2),
        0xB8 => (InstructionOperation::Clv, InstructionMode::Implied, 2),
        0xC9 => (InstructionOperation::Cmp, InstructionMode::Immediate, 2),
        0xC5 => (InstructionOperation::Cmp, InstructionMode::ZeroPage, 3),
        0xD5 => (InstructionOperation::Cmp, InstructionMode::ZeroPageX, 4),
        0xCD => (InstructionOperation::Cmp, InstructionMode::Absolute, 4),
        0xDD => (InstructionOperation::Cmp, InstructionMode::AbsoluteX, 4),
        0xD9 => (InstructionOperation::Cmp, InstructionMode::AbsoluteY, 4),
        0xC1 => (InstructionOperation::Cmp, InstructionMode::IndirectX, 6),
        0xD1 => (InstructionOperation::Cmp, InstructionMode::IndirectY, 5),
        0xE0 => (InstructionOperation::Cpx, InstructionMode::Immediate, 2),
        0xE4 => (InstructionOperation::Cpx, InstructionMode::ZeroPage, 3),
        0xEC => (InstructionOperation::Cpx, InstructionMode::Absolute, 4),
        0xC0 => (InstructionOperation::Cpy, InstructionMode::Immediate, 2),
        0xC4 => (InstructionOperation::Cpy, InstructionMode::ZeroPage, 3),
        0xCC => (InstructionOperation::Cpy, InstructionMode::Absolute, 4),
        0xC6 => (InstructionOperation::Dec, InstructionMode::ZeroPage, 5),
        0xD6 => (InstructionOperation::Dec, InstructionMode::ZeroPageX, 6),
        0xCE => (InstructionOperation::Dec, InstructionMode::Absolute, 6),
        0xDE => (InstructionOperation::Dec, InstructionMode::AbsoluteX, 7),
        0xCA => (InstructionOperation::Dex, InstructionMode::Implied, 2),
        0x88 => (InstructionOperation::Dey, InstructionMode::Implied, 2),
        0x49 => (InstructionOperation::Eor, InstructionMode::Immediate, 2),
        0x45 => (InstructionOperation::Eor, InstructionMode::ZeroPage, 3),
        0x55 => (InstructionOperation::Eor, InstructionMode::ZeroPageX, 4),
        0x4D => (InstructionOperation::Eor, InstructionMode::Absolute, 4),
        0x5D => (InstructionOperation::Eor, InstructionMode::AbsoluteX, 4),
        0x59 => (InstructionOperation::Eor, InstructionMode::AbsoluteY, 4),
        0x41 => (InstructionOperation::Eor, InstructionMode::IndirectX, 6),
        0x51 => (InstructionOperation::Eor, InstructionMode::IndirectY, 5),
        0xE6 => (InstructionOperation::Inc, InstructionMode::ZeroPage, 5),
        0xF6 => (InstructionOperation::Inc, InstructionMode::ZeroPageX, 6),
        0xEE => (InstructionOperation::Inc, InstructionMode::Absolute, 6),
        0xFE => (InstructionOperation::Inc, InstructionMode::AbsoluteX, 7),
        0xE8 => (InstructionOperation::Inx, InstructionMode::Implied, 2),
        0xC8 => (InstructionOperation::Iny, InstructionMode::Implied, 2),
        0x4C => (InstructionOperation::Jmp, InstructionMode::Absolute, 3),
        0x6C => (InstructionOperation::Jmp, InstructionMode::Indirect, 5),
        0x20 => (InstructionOperation::Jsr, InstructionMode::Absolute, 6),
        0xA9 => (InstructionOperation::Lda, InstructionMode::Immediate, 2),
        0xA5 => (InstructionOperation::Lda, InstructionMode::ZeroPage, 3),
        0xB5 => (InstructionOperation::Lda, InstructionMode::ZeroPageX, 4),
        0xAD => (InstructionOperation::Lda, InstructionMode::Absolute, 4),
        0xBD => (InstructionOperation::Lda, InstructionMode::AbsoluteX, 4),
        0xB9 => (InstructionOperation::Lda, InstructionMode::AbsoluteY, 4),
        0xA1 => (InstructionOperation::Lda, InstructionMode::IndirectX, 6),
        0xB1 => (InstructionOperation::Lda, InstructionMode::IndirectY, 5),
        0xA2 => (InstructionOperation::Ldx, InstructionMode::Immediate, 2),
        0xA6 => (InstructionOperation::Ldx, InstructionMode::ZeroPage, 3),
        0xB6 => (InstructionOperation::Ldx, InstructionMode::ZeroPageY, 4),
        0xAE => (InstructionOperation::Ldx, InstructionMode::Absolute, 4),
        0xBE => (InstructionOperation::Ldx, InstructionMode::AbsoluteY, 4),
        0xA0 => (InstructionOperation::Ldy, InstructionMode::Immediate, 2),
        0xA4 => (InstructionOperation::Ldy, InstructionMode::ZeroPage, 3),
        0xB4 => (InstructionOperation::Ldy, InstructionMode::ZeroPageX, 4),
        0xAC => (InstructionOperation::Ldy, InstructionMode::Absolute, 4),
        0xBC => (InstructionOperation::Ldy, InstructionMode::AbsoluteX, 4),
        0x4A => (InstructionOperation::Lsr, InstructionMode::Accumulator, 2),
        0x46 => (InstructionOperation::Lsr, InstructionMode::ZeroPage, 5),
        0x56 => (InstructionOperation::Lsr, InstructionMode::ZeroPageX, 6),
        0x4E => (InstructionOperation::Lsr, InstructionMode::Absolute, 6),
        0x5E => (InstructionOperation::Lsr, InstructionMode::AbsoluteX, 7),
        0xEA => (InstructionOperation::Nop, InstructionMode::Implied, 2),
        0x09 => (InstructionOperation::Ora, InstructionMode::Immediate, 2),
        0x05 => (InstructionOperation::Ora, InstructionMode::ZeroPage, 3),
        0x15 => (InstructionOperation::Ora, InstructionMode::ZeroPageX, 4),
        0x0D => (InstructionOperation::Ora, InstructionMode::Absolute, 4),
        0x1D => (InstructionOperation::Ora, InstructionMode::AbsoluteX, 4),
        0x19 => (InstructionOperation::Ora, InstructionMode::AbsoluteY, 4),
        0x01 => (InstructionOperation::Ora, InstructionMode::IndirectX, 6),
        0x11 => (InstructionOperation::Ora, InstructionMode::IndirectY, 5),
        0x48 => (InstructionOperation::Pha, InstructionMode::Implied, 3),
        0x08 => (InstructionOperation::Php, InstructionMode::Implied, 3),
        0x68 => (InstructionOperation::Pla, InstructionMode::Implied, 4),
        0x28 => (InstructionOperation::Plp, InstructionMode::Implied, 4),
        0x2A => (InstructionOperation::Rol, InstructionMode::Accumulator, 2),
        0x26 => (InstructionOperation::Rol, InstructionMode::ZeroPage, 5),
        0x36 => (InstructionOperation::Rol, InstructionMode::ZeroPageX, 6),
        0x2E => (InstructionOperation::Rol, InstructionMode::Absolute, 6),
        0x3E => (InstructionOperation::Rol, InstructionMode::AbsoluteX, 7),
        0x6A => (InstructionOperation::Ror, InstructionMode::Accumulator, 2),
        0x66 => (InstructionOperation::Ror, InstructionMode::ZeroPage, 5),
        0x76 => (InstructionOperation::Ror, InstructionMode::ZeroPageX, 6),
        0x6E => (InstructionOperation::Ror, InstructionMode::Absolute, 6),
        0x7E => (InstructionOperation::Ror, InstructionMode::AbsoluteX, 7),
        0x40 => (InstructionOperation::Rti, InstructionMode::Implied, 6),
        0x60 => (InstructionOperation::Rts, InstructionMode::Implied, 6),
        0xE9 => (InstructionOperation::Sbc, InstructionMode::Immediate, 2),
        0xE5 => (InstructionOperation::Sbc, InstructionMode::ZeroPage, 3),
        0xF5 => (InstructionOperation::Sbc, InstructionMode::ZeroPageX, 4),
        0xED => (InstructionOperation::Sbc, InstructionMode::Absolute, 4),
        0xFD => (InstructionOperation::Sbc, InstructionMode::AbsoluteX, 4),
        0xF9 => (InstructionOperation::Sbc, InstructionMode::AbsoluteY, 4),
        0xE1 => (InstructionOperation::Sbc, InstructionMode::IndirectX, 6),
        0xF1 => (InstructionOperation::Sbc, InstructionMode::IndirectY, 5),
        0x38 => (InstructionOperation::Sec, InstructionMode::Implied, 2),
        0xF8 => (InstructionOperation::Sed, InstructionMode::Implied, 2),
        0x78 => (InstructionOperation::Sei, InstructionMode::Implied, 2),
        0x85 => (InstructionOperation::Sta, InstructionMode::ZeroPage, 3),
        0x95 => (InstructionOperation::Sta, InstructionMode::ZeroPageX, 4),
        0x8D => (InstructionOperation::Sta, InstructionMode::Absolute, 4),
        0x9D => (InstructionOperation::Sta, InstructionMode::AbsoluteX, 5),
        0x99 => (InstructionOperation::Sta, InstructionMode::AbsoluteY, 5),
        0x81 => (InstructionOperation::Sta, InstructionMode::IndirectX, 6),
        0x91 => (InstructionOperation::Sta, InstructionMode::IndirectY, 6),
        0x86 => (InstructionOperation::Stx, InstructionMode::ZeroPage, 3),
        0x96 => (InstructionOperation::Stx, InstructionMode::ZeroPageY, 4),
        0x8E => (InstructionOperation::Stx, InstructionMode::Absolute, 4),
        0x84 => (InstructionOperation::Sty, InstructionMode::ZeroPage, 3),
        0x94 => (InstructionOperation::Sty, InstructionMode::ZeroPageX, 4),
        0x8C => (InstructionOperation::Sty, InstructionMode::Absolute, 4),
        0xAA => (InstructionOperation::Tax, InstructionMode::Implied, 2),
        0xA8 => (InstructionOperation::Tay, InstructionMode::Implied, 2),
        0xBA => (InstructionOperation::Tsx, InstructionMode::Implied, 2),
        0x8A => (InstructionOperation::Txa, InstructionMode::Implied, 2),
        0x9A => (InstructionOperation::Txs, InstructionMode::Implied, 2),
        0x98 => (InstructionOperation::Tya, InstructionMode::Implied, 2),
        _ => (InstructionOperation::Nop, InstructionMode::Implied, 2),
    };
    Instruction { operation, mode, len: spec_mode_len(mode), cycles_base }
}

/// Every shape in the static table is well formed.
pub proof fn lemma_from_opcode_wf(opcode: u8)
    ensures
        instruction_wf(spec_from_opcode(opcode)),
{
}

} // verus!
