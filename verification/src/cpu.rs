//! The processor core: the fetch-decode-execute driver, the addressing-mode
//! resolver, the operation executor with its flag semantics, and the stack and
//! interrupt-vector discipline.

use vstd::prelude::*;
use crate::clock::{Clock, ClockMode};
use crate::flags::{
    BreakType, StatusFlags, FLAG_BREAK_LEFT, FLAG_BREAK_RIGHT, FLAG_CARRY, FLAG_DECIMAL,
    FLAG_INTERRUPT_DISABLE, FLAG_NEGATIVE, FLAG_OVERFLOW, FLAG_ZERO,
};
use crate::flags::{lemma_flags_zn, lemma_set_flag, single_flag_forced, spec_flags_zn, zn_refreshed};
use crate::instruction::{
    instruction_wf, lemma_from_opcode_wf, op_mode_ok, spec_from_opcode, spec_mode_len, Instruction,
    InstructionInput,
    InstructionMode, InstructionOperation, Location,
};
use crate::memory::{spec_read_u16, u16_from_le, Memory, MEMORY_SIZE};
use crate::registers::RegisterSet;
use crate::types::CpuError;

verus! {

pub const ADDRESS_NMI: u16 = 0xFFFA;

pub const ADDRESS_RESET: u16 = 0xFFFC;

pub const ADDRESS_IRQ: u16 = 0xFFFE;

/// The three fixed vectors read once at startup; the reset vector seeds the
/// program counter.
#[derive(Clone, Copy, Debug, PartialEq, Eq, Structural)]
pub struct VectorSet {
    pub nmi: u16,
    pub reset: u16,
    pub irq: u16,
}

/// The emulated processor: its address space, register file, startup vectors
/// and cycle counter.
pub struct Cpu {
    pub memory: Memory,
    pub registers: RegisterSet,
    pub vectors: VectorSet,
    pub clock: Clock,
}

/// Addition truncated to eight bits.
pub open spec fn wrap_add8(a: u8, b: u8) -> u8 {
    if a + b > 0xFF {
        (a + b - 0x100) as u8
    } else {
        (a + b) as u8
    }
}

/// Subtraction truncated to eight bits.
pub open spec fn wrap_sub8(a: u8, b: u8) -> u8 {
    if a - b < 0 {
        (a - b + 0x100) as u8
    } else {
        (a - b) as u8
    }
}

/// Addition truncated to sixteen bits.
pub open spec fn wrap_add16(a: u16, b: u16) -> u16 {
    if a + b > 0xFFFF {
        (a + b - 0x10000) as u16
    } else {
        (a + b) as u16
    }
}

/// The stack lives in the fixed page right above the zero page; the stack
/// pointer is an offset into it.
pub open spec fn spec_stack_addr(s: u8) -> int {
    0x0100 + s
}

impl Cpu {
    /// The address space always spans the full 16-bit range.
    pub open spec fn wf(self) -> bool {
        self.memory.wf()
    }

    /// Construct the processor over an address space: read the three startup
    /// vectors from their fixed locations and seed the program counter from
    /// the reset vector. The vector locations all lie inside the address
    /// space, so construction always succeeds.
    pub fn new(memory: Memory) -> (r: Result<Cpu, CpuError>)
        requires
            memory.wf(),
        ensures
            r matches Ok(cpu) && cpu == (Cpu {
                memory,
                registers: RegisterSet {
                    a: 0,
                    x: 0,
                    y: 0,
                    s: 0xFF,
                    p: StatusFlags { bits: 0 },
                    pc: spec_read_u16(memory@, ADDRESS_RESET),
                },
                vectors: VectorSet {
                    nmi: spec_read_u16(memory@, ADDRESS_NMI),
                    reset: spec_read_u16(memory@, ADDRESS_RESET),
                    irq: spec_read_u16(memory@, ADDRESS_IRQ),
                },
                clock: Clock { mode: ClockMode::Ntsc, cycles: 0 },
            }),
    {
        let nmi = match memory.read_u16(ADDRESS_NMI) {
            Ok(v) => v,
            Err(e) => {
                return Err(e);
            },
        };
        let reset = match memory.read_u16(ADDRESS_RESET) {
            Ok(v) => v,
            Err(e) => {
                return Err(e);
            },
        };
        let irq = match memory.read_u16(ADDRESS_IRQ) {
            Ok(v) => v,
            Err(e) => {
                return Err(e);
            },
        };
        let vectors = VectorSet { nmi, reset, irq };
        let mut registers = RegisterSet::new();
        registers.pc = vectors.reset;
        let clock = Clock::new(ClockMode::Ntsc);
        Ok(Cpu { memory, registers, vectors, clock })
    }

    /// The stack page address the stack pointer currently designates.
    pub fn stack_determine_address(&self) -> (r: u16)
        ensures
            r == spec_stack_addr(self.registers.s),
    {
        0x0100 + self.registers.s as u16
    }

    /// Push one byte: write at the designated stack address, then decrement
    /// the stack pointer with 8-bit wraparound, staying inside the stack page.
    pub fn stack_push(&mut self, value: u8)
        requires
            old(self).wf(),
        ensures
            final(self).wf(),
            final(self).memory@ == old(self).memory@.update(
                spec_stack_addr(old(self).registers.s),
                value,
            ),
            final(self).registers == (RegisterSet {
                s: wrap_sub8(old(self).registers.s, 1),
                ..old(self).registers
            }),
            final(self).vectors == old(self).vectors,
            final(self).clock == old(self).clock,
    {
        self.memory.write(self.stack_determine_address(), value);
        self.registers.s = self.registers.s.wrapping_sub(1);
    }

    /// Pull one byte: increment the stack pointer with 8-bit wraparound
    /// first, read at the address it then designates, and clear the vacated
    /// byte.
    pub fn stack_pull(&mut self) -> (r: u8)
        requires
            old(self).wf(),
        ensures
            final(self).wf(),
            r == old(self).memory@[spec_stack_addr(wrap_add8(old(self).registers.s, 1))],
            final(self).memory@ == old(self).memory@.update(
                spec_stack_addr(wrap_add8(old(self).registers.s, 1)),
                0u8,
            ),
            final(self).registers == (RegisterSet {
                s: wrap_add8(old(self).registers.s, 1),
                ..old(self).registers
            }),
            final(self).vectors == old(self).vectors,
            final(self).clock == old(self).clock,
    {
        self.registers.s = self.registers.s.wrapping_add(1);
        let address = self.stack_determine_address();
        let value = self.memory.read(address);
        self.memory.write(address, 0);
        value
    }
}

/// The step left memory, vectors and clock alone; only registers moved.
pub open spec fn only_registers_changed(pre: Cpu, post: Cpu) -> bool {
    &&& post.memory@ == pre.memory@
    &&& post.vectors == pre.vectors
    &&& post.clock == pre.clock
}

impl Cpu {
    /// Set the zero flag iff the result byte is 0.
    pub fn set_status_flag_zero(&mut self, value: u8)
        ensures
            final(self).registers == (RegisterSet {
                p: old(self).registers.p.set_flag(FLAG_ZERO, value == 0),
                ..old(self).registers
            }),
            only_registers_changed(*old(self), *final(self)),
    {
        self.registers.p.set(FLAG_ZERO, value == 0);
    }

    /// Set the negative flag iff bit 7 of the result byte is set.
    pub fn set_status_flag_negative(&mut self, value: u8)
        ensures
            final(self).registers == (RegisterSet {
                p: old(self).registers.p.set_flag(FLAG_NEGATIVE, value >= 0x80),
                ..old(self).registers
            }),
            only_registers_changed(*old(self), *final(self)),
    {
        self.registers.p.set(FLAG_NEGATIVE, is_negative(value));
    }

    /// Load the accumulator from the resolved byte; zero and negative follow
    /// the loaded value alone, every other flag keeps its prior state.
    pub fn run_lda(&mut self, input: u8)
        ensures
            final(self).registers.a == input,
            final(self).registers == (RegisterSet {
                a: input,
                p: spec_flags_zn(old(self).registers.p, input),
                ..old(self).registers
            }),
            zn_refreshed(old(self).registers.p, final(self).registers.p, input),
            only_registers_changed(*old(self), *final(self)),
    {
        self.registers.a = input;
        self.set_status_flag_zero(input);
        self.set_status_flag_negative(input);
        proof {
            lemma_flags_zn(old(self).registers.p, input);
        }
    }

    /// Load the X index register from the resolved byte; flag rule as `run_lda`.
    pub fn run_ldx(&mut self, input: u8)
        ensures
            final(self).registers == (RegisterSet {
                x: input,
                p: spec_flags_zn(old(self).registers.p, input),
                ..old(self).registers
            }),
            zn_refreshed(old(self).registers.p, final(self).registers.p, input),
            only_registers_changed(*old(self), *final(self)),
    {
        self.registers.x = input;
        self.set_status_flag_zero(input);
        self.set_status_flag_negative(input);
        proof {
            lemma_flags_zn(old(self).registers.p, input);
        }
    }

    /// Load the Y index register from the resolved byte; flag rule as `run_lda`.
    pub fn run_ldy(&mut self, input: u8)
        ensures
            final(self).registers == (RegisterSet {
                y: input,
                p: spec_flags_zn(old(self).registers.p, input),
                ..old(self).registers
            }),
            zn_refreshed(old(self).registers.p, final(self).registers.p, input),
            only_registers_changed(*old(self), *final(self)),
    {
        self.registers.y = input;
        self.set_status_flag_zero(input);
        self.set_status_flag_negative(input);
        proof {
            lemma_flags_zn(old(self).registers.p, input);
        }
    }

    /// Copy the accumulator into X; zero and negative follow the copied value.
    pub fn run_tax(&mut self)
        ensures
            final(self).registers == (RegisterSet {
                x: old(self).registers.a,
                p: spec_flags_zn(old(self).registers.p, old(self).registers.a),
                ..old(self).registers
            }),
            zn_refreshed(old(self).registers.p, final(self).registers.p, old(self).registers.a),
            only_registers_changed(*old(self), *final(self)),
    {
        let value = self.registers.a;
        self.registers.x = value;
        self.set_status_flag_zero(value);
        self.set_status_flag_negative(value);
        proof {
            lemma_flags_zn(old(self).registers.p, old(self).registers.a);
        }
    }

    /// Copy the accumulator into Y; zero and negative follow the copied value.
    pub fn run_tay(&mut self)
        ensures
            final(self).registers == (RegisterSet {
                y: old(self).registers.a,
                p: spec_flags_zn(old(self).registers.p, old(self).registers.a),
                ..old(self).registers
            }),
            zn_refreshed(old(self).registers.p, final(self).registers.p, old(self).registers.a),
            only_registers_changed(*old(self), *final(self)),
    {
        let value = self.registers.a;
        self.registers.y = value;
        self.set_status_flag_zero(value);
        self.set_status_flag_negative(value);
        proof {
            lemma_flags_zn(old(self).registers.p, old(self).registers.a);
        }
    }

    /// Copy X into the accumulator; zero and negative follow the copied value.
    pub fn run_txa(&mut self)
        ensures
            final(self).registers == (RegisterSet {
                a: old(self).registers.x,
                p: spec_flags_zn(old(self).registers.p, old(self).registers.x),
                ..old(self).registers
            }),
            zn_refreshed(old(self).registers.p, final(self).registers.p, old(self).registers.x),
            only_registers_changed(*old(self), *final(self)),
    {
        let value = self.registers.x;
        self.registers.a = value;
        self.set_status_flag_zero(value);
        self.set_status_flag_negative(value);
        proof {
            lemma_flags_zn(old(self).registers.p, old(self).registers.x);
        }
    }

    /// Copy Y into the accumulator; zero and negative follow the copied value.
    pub fn run_tya(&mut self)
        ensures
            final(self).registers == (RegisterSet {
                a: old(self).registers.y,
                p: spec_flags_zn(old(self).registers.p, old(self).registers.y),
                ..old(self).registers
            }),
            zn_refreshed(old(self).registers.p, final(self).registers.p, old(self).registers.y),
            only_registers_changed(*old(self), *final(self)),
    {
        let value = self.registers.y;
        self.registers.a = value;
        self.set_status_flag_zero(value);
        self.set_status_flag_negative(value);
        proof {
            lemma_flags_zn(old(self).registers.p, old(self).registers.y);
        }
    }

    /// Add 1 to X with 8-bit wraparound; zero and negative follow the result,
    /// and unlike add-with-carry the carry flag is untouched.
    pub fn run_inx(&mut self)
        ensures
            final(self).registers.x as int == (old(self).registers.x + 1) % 0x100,
            final(self).registers == (RegisterSet {
                x: wrap_add8(old(self).registers.x, 1),
                p: spec_flags_zn(old(self).registers.p, wrap_add8(old(self).registers.x, 1)),
                ..old(self).registers
            }),
            zn_refreshed(
                old(self).registers.p,
                final(self).registers.p,
                wrap_add8(old(self).registers.x, 1),
            ),
            only_registers_changed(*old(self), *final(self)),
    {
        let value = self.registers.x.wrapping_add(1);
        self.registers.x = value;
        self.set_status_flag_zero(value);
        self.set_status_flag_negative(value);
        proof {
            lemma_flags_zn(old(self).registers.p, wrap_add8(old(self).registers.x, 1));
        }
    }

    /// Add 1 to Y with 8-bit wraparound; flag rule as `run_inx`.
    pub fn run_iny(&mut self)
        ensures
            final(self).registers.y as int == (old(self).registers.y + 1) % 0x100,
            final(self).registers == (RegisterSet {
                y: wrap_add8(old(self).registers.y, 1),
                p: spec_flags_zn(old(self).registers.p, wrap_add8(old(self).registers.y, 1)),
                ..old(self).registers
            }),
            zn_refreshed(
                old(self).registers.p,
                final(self).registers.p,
                wrap_add8(old(self).registers.y, 1),
            ),
            only_registers_changed(*old(self), *final(self)),
    {
        let value = self.registers.y.wrapping_add(1);
        self.registers.y = value;
        self.set_status_flag_zero(value);
        self.set_status_flag_negative(value);
        proof {
            lemma_flags_zn(old(self).registers.p, wrap_add8(old(self).registers.y, 1));
        }
    }

    /// Clear the carry flag; nothing else moves.
    pub fn run_clc(&mut self)
        ensures
            final(self).registers == (RegisterSet {
                p: old(self).registers.p.set_flag(FLAG_CARRY, false),
                ..old(self).registers
            }),
            single_flag_forced(old(self).registers.p, final(self).registers.p, FLAG_CARRY, false),
            only_registers_changed(*old(self), *final(self)),
    {
        self.registers.p.remove(FLAG_CARRY);
        proof {
            lemma_set_flag(old(self).registers.p, FLAG_CARRY, false);
        }
    }

    /// Clear the decimal flag; nothing else moves.
    pub fn run_cld(&mut self)
        ensures
            final(self).registers == (RegisterSet {
                p: old(self).registers.p.set_flag(FLAG_DECIMAL, false),
                ..old(self).registers
            }),
            single_flag_forced(old(self).registers.p, final(self).registers.p, FLAG_DECIMAL, false),
            only_registers_changed(*old(self), *final(self)),
    {
        self.registers.p.remove(FLAG_DECIMAL);
        proof {
            lemma_set_flag(old(self).registers.p, FLAG_DECIMAL, false);
        }
    }

    /// Clear the interrupt-disable flag; nothing else moves.
    pub fn run_cli(&mut self)
        ensures
            final(self).registers == (RegisterSet {
                p: old(self).registers.p.set_flag(FLAG_INTERRUPT_DISABLE, false),
                ..old(self).registers
            }),
            single_flag_forced(
                old(self).registers.p,
                final(self).registers.p,
                FLAG_INTERRUPT_DISABLE,
                false,
            ),
            only_registers_changed(*old(self), *final(self)),
    {
        self.registers.p.remove(FLAG_INTERRUPT_DISABLE);
        proof {
            lemma_set_flag(old(self).registers.p, FLAG_INTERRUPT_DISABLE, false);
        }
    }

    /// Clear the overflow flag; nothing else moves.
    pub fn run_clv(&mut self)
        ensures
            final(self).registers == (RegisterSet {
                p: old(self).registers.p.set_flag(FLAG_OVERFLOW, false),
                ..old(self).registers
            }),
            single_flag_forced(old(self).registers.p, final(self).registers.p, FLAG_OVERFLOW, false),
            only_registers_changed(*old(self), *final(self)),
    {
        self.registers.p.remove(FLAG_OVERFLOW);
        proof {
            lemma_set_flag(old(self).registers.p, FLAG_OVERFLOW, false);
        }
    }

    /// Set the carry flag; nothing else moves.
    pub fn run_sec(&mut self)
        ensures
            final(self).registers == (RegisterSet {
                p: old(self).registers.p.set_flag(FLAG_CARRY, true),
                ..old(self).registers
            }),
            single_flag_forced(old(self).registers.p, final(self).registers.p, FLAG_CARRY, true),
            only_registers_changed(*old(self), *final(self)),
    {
        self.registers.p.insert(FLAG_CARRY);
        proof {
            lemma_set_flag(old(self).registers.p, FLAG_CARRY, true);
        }
    }

    /// Set the decimal flag; nothing else moves.
    pub fn run_sed(&mut self)
        ensures
            final(self).registers == (RegisterSet {
                p: old(self).registers.p.set_flag(FLAG_DECIMAL, true),
                ..old(self).registers
            }),
            single_flag_forced(old(self).registers.p, final(self).registers.p, FLAG_DECIMAL, true),
            only_registers_changed(*old(self), *final(self)),
    {
        self.registers.p.insert(FLAG_DECIMAL);
        proof {
            lemma_set_flag(old(self).registers.p, FLAG_DECIMAL, true);
        }
    }

    /// Set the interrupt-disable flag; nothing else moves.
    pub fn run_sei(&mut self)
        ensures
            final(self).registers == (RegisterSet {
                p: old(self).registers.p.set_flag(FLAG_INTERRUPT_DISABLE, true),
                ..old(self).registers
            }),
            single_flag_forced(
                old(self).registers.p,
                final(self).registers.p,
                FLAG_INTERRUPT_DISABLE,
                true,
            ),
            only_registers_changed(*old(self), *final(self)),
    {
        self.registers.p.insert(FLAG_INTERRUPT_DISABLE);
        proof {
            lemma_set_flag(old(self).registers.p, FLAG_INTERRUPT_DISABLE, true);
        }
    }
}

/// The arithmetic-shift-left result: the byte doubled with bit 7 discarded.
pub open spec fn spec_asl_result(value: u8) -> u8 {
    if 2 * value > 0xFF {
        (2 * value - 0x100) as u8
    } else {
        (2 * value) as u8
    }
}

/// The register file after add-with-carry: accumulator plus input plus
/// carry-in, truncated to eight bits; carry reports the unsigned wrap, zero
/// and negative follow the result, and overflow applies the three-operand
/// signed test.
pub open spec fn spec_adc(regs: RegisterSet, input: u8) -> RegisterSet {
    let carry_in: int = if regs.p.carry() {
        1int
    } else {
        0int
    };
    let sum = regs.a + input + carry_in;
    let result = if sum > 0xFF {
        (sum - 0x100) as u8
    } else {
        sum as u8
    };
    RegisterSet {
        a: result,
        p: regs.p.set_flag(FLAG_CARRY, sum > 0xFF).set_flag(FLAG_ZERO, result == 0).set_flag(
            FLAG_OVERFLOW,
            spec_has_overflown(regs.a, input, result),
        ).set_flag(FLAG_NEGATIVE, result >= 0x80),
        ..regs
    }
}

impl Cpu {
    /// Add the resolved byte and the carry-in to the accumulator with 8-bit
    /// wraparound; update carry, zero, overflow and negative from the result.
    pub fn run_adc(&mut self, input: u8)
        ensures
            final(self).registers == spec_adc(old(self).registers, input),
            final(self).registers.a as int == (old(self).registers.a + input + (
            if old(self).registers.p.carry() {
                1int
            } else {
                0int
            })) % 0x100,
            final(self).registers.p.carry() == (old(self).registers.a + input + (
            if old(self).registers.p.carry() {
                1int
            } else {
                0int
            }) > 0xFF),
            final(self).registers.p.zero() == (final(self).registers.a == 0),
            final(self).registers.p.negative() == (final(self).registers.a >= 0x80),
            final(self).registers.p.overflow() == spec_has_overflown(
                old(self).registers.a,
                input,
                final(self).registers.a,
            ),
            final(self).registers.p.decimal() == old(self).registers.p.decimal(),
            final(self).registers.p.interrupt_disable() == old(
                self,
            ).registers.p.interrupt_disable(),
            final(self).registers.p.break_left() == old(self).registers.p.break_left(),
            final(self).registers.p.break_right() == old(self).registers.p.break_right(),
            only_registers_changed(*old(self), *final(self)),
    {
        let carry_in: u8 = if self.registers.p.contains(FLAG_CARRY) {
            1
        } else {
            0
        };
        let a_old = self.registers.a;
        let sum: u16 = a_old as u16 + input as u16 + carry_in as u16;
        let a_new: u8 = if sum > 0xFF {
            (sum - 0x100) as u8
        } else {
            sum as u8
        };
        self.registers.a = a_new;
        self.registers.p.set(FLAG_CARRY, sum > 0xFF);
        self.registers.p.set(FLAG_ZERO, a_new == 0);
        self.registers.p.set(FLAG_OVERFLOW, has_overflown(a_old, input, a_new));
        self.registers.p.set(FLAG_NEGATIVE, is_negative(a_new));
        proof {
            let p0 = old(self).registers.p;
            let p1 = p0.set_flag(FLAG_CARRY, sum > 0xFF);
            let p2 = p1.set_flag(FLAG_ZERO, a_new == 0);
            let p3 = p2.set_flag(FLAG_OVERFLOW, spec_has_overflown(a_old, input, a_new));
            lemma_set_flag(p0, FLAG_CARRY, sum > 0xFF);
            lemma_set_flag(p1, FLAG_ZERO, a_new == 0);
            lemma_set_flag(p2, FLAG_OVERFLOW, spec_has_overflown(a_old, input, a_new));
            lemma_set_flag(p3, FLAG_NEGATIVE, a_new >= 0x80);
        }
    }

    /// Write a result byte back to a read-modify-write target: the
    /// accumulator, or a memory address.
    pub fn persist_result(&mut self, result: u8, location: Location)
        requires
            old(self).wf(),
        ensures
            final(self).wf(),
            match location {
                Location::Accumulator => {
                    &&& final(self).registers == (RegisterSet { a: result, ..old(self).registers })
                    &&& final(self).memory@ == old(self).memory@
                },
                Location::Address(address) => {
                    &&& final(self).registers == old(self).registers
                    &&& final(self).memory@ == old(self).memory@.update(address as int, result)
                },
            },
            final(self).vectors == old(self).vectors,
            final(self).clock == old(self).clock,
    {
        match location {
            Location::Accumulator => {
                self.registers.a = result;
            },
            Location::Address(address) => {
                self.memory.write(address, result);
            },
        }
    }

    /// Shift the byte at the target one bit left with 8-bit wraparound and
    /// write it back in place; carry takes the discarded bit 7 of the old
    /// byte, zero and negative follow the shifted result.
    pub fn run_asl(&mut self, target: Location)
        requires
            old(self).wf(),
        ensures
            final(self).wf(),
            ({
                let input = match target {
                    Location::Accumulator => old(self).registers.a,
                    Location::Address(address) => old(self).memory@[address as int],
                };
                let result = spec_asl_result(input);
                let p_new = old(self).registers.p.set_flag(FLAG_CARRY, input >= 0x80).set_flag(
                    FLAG_ZERO,
                    result == 0,
                ).set_flag(FLAG_NEGATIVE, result >= 0x80);
                &&& final(self).registers == (RegisterSet {
                    a: match target {
                        Location::Accumulator => result,
                        Location::Address(_) => old(self).registers.a,
                    },
                    p: p_new,
                    ..old(self).registers
                })
                &&& final(self).memory@ == match target {
                    Location::Accumulator => old(self).memory@,
                    Location::Address(address) => old(self).memory@.update(address as int, result),
                }
                &&& final(self).registers.p.carry() == (input >= 0x80)
                &&& final(self).registers.p.zero() == (result == 0)
                &&& final(self).registers.p.negative() == (result >= 0x80)
                &&& final(self).registers.p.overflow() == old(self).registers.p.overflow()
                &&& final(self).registers.p.decimal() == old(self).registers.p.decimal()
                &&& final(self).registers.p.interrupt_disable() == old(
                    self,
                ).registers.p.interrupt_disable()
            }),
            final(self).vectors == old(self).vectors,
            final(self).clock == old(self).clock,
    {
        let input = match target {
            Location::Accumulator => self.registers.a,
            Location::Address(address) => self.memory.read(address),
        };
        let wide: u16 = input as u16 * 2;
        let result: u8 = if wide > 0xFF {
            (wide - 0x100) as u8
        } else {
            wide as u8
        };
        self.persist_result(result, target);
        self.registers.p.set(FLAG_CARRY, input >= 0x80);
        self.registers.p.set(FLAG_ZERO, result == 0);
        self.registers.p.set(FLAG_NEGATIVE, is_negative(result));
        proof {
            let p0 = old(self).registers.p;
            let p1 = p0.set_flag(FLAG_CARRY, input >= 0x80);
            let p2 = p1.set_flag(FLAG_ZERO, result == 0);
            lemma_set_flag(p0, FLAG_CARRY, input >= 0x80);
            lemma_set_flag(p1, FLAG_ZERO, result == 0);
            lemma_set_flag(p2, FLAG_NEGATIVE, result >= 0x80);
        }
    }
}

/// The processor state after a break: the program counter (high byte, then
/// low byte) and then the status byte — serialized with the
/// instruction-initiated break encoding — pushed to the stack, interrupts
/// disabled, and control transferred to the interrupt vector.
pub open spec fn spec_brk(regs: RegisterSet, mem: Seq<u8>, irq: u16) -> (RegisterSet, Seq<u8>) {
    let pushed = regs.p.set_flag(FLAG_BREAK_LEFT, true).set_flag(FLAG_BREAK_RIGHT, false).bits;
    let s1 = wrap_sub8(regs.s, 1);
    let s2 = wrap_sub8(s1, 1);
    let s3 = wrap_sub8(s2, 1);
    let mem3 = mem.update(spec_stack_addr(regs.s), (regs.pc / 0x100) as u8).update(
        spec_stack_addr(s1),
        (regs.pc % 0x100) as u8,
    ).update(spec_stack_addr(s2), pushed);
    (
        RegisterSet {
            s: s3,
            p: regs.p.set_flag(FLAG_INTERRUPT_DISABLE, true),
            pc: irq,
            ..regs
        },
        mem3,
    )
}

impl Cpu {
    /// Execute a break: push the program counter and the status byte with the
    /// instruction-initiated break encoding, disable interrupts, and jump
    /// through the interrupt vector.
    pub fn run_brk(&mut self)
        requires
            old(self).wf(),
        ensures
            final(self).wf(),
            (final(self).registers, final(self).memory@) == spec_brk(
                old(self).registers,
                old(self).memory@,
                old(self).vectors.irq,
            ),
            final(self).registers.pc == old(self).vectors.irq,
            final(self).registers.p.interrupt_disable(),
            final(self).vectors == old(self).vectors,
            final(self).clock == old(self).clock,
    {
        let pc = self.registers.pc;
        self.stack_push((pc / 0x100) as u8);
        self.stack_push((pc % 0x100) as u8);
        let mut pushed = self.registers.p;
        pushed.set_break(BreakType::Instruction);
        let pushed_bits = pushed.bits();
        self.stack_push(pushed_bits);
        self.registers.p.insert(FLAG_INTERRUPT_DISABLE);
        self.registers.pc = self.vectors.irq;
        proof {
            lemma_set_flag(old(self).registers.p, FLAG_INTERRUPT_DISABLE, true);
        }
    }
}

/// The branch target for a relative displacement: the second instruction
/// byte, read as a signed 8-bit value, added to the program counter as it
/// stands at resolution time, with 16-bit wraparound.
pub open spec fn spec_relative_target(pc: u16, offset: u8) -> u16 {
    let delta: int = if offset < 0x80 {
        offset as int
    } else {
        offset - 0x100
    };
    if pc + delta < 0 {
        (pc + delta + 0x10000) as u16
    } else if pc + delta > 0xFFFF {
        (pc + delta - 0x10000) as u16
    } else {
        (pc + delta) as u16
    }
}

/// The input value each addressing mode resolves to, as a mathematical
/// function of the instruction bytes, the register file and memory. For the
/// indirect mode the value is meaningful only while the pointer's second byte
/// lies inside the address space; the resolver fails on exactly that input.
pub open spec fn spec_resolve(
    mode: InstructionMode,
    bytes: Seq<u8>,
    regs: RegisterSet,
    mem: Seq<u8>,
) -> InstructionInput {
    match mode {
        InstructionMode::Implied => InstructionInput::Implied,
        InstructionMode::Accumulator => InstructionInput::Accumulator,
        InstructionMode::Immediate => InstructionInput::Byte(bytes[1]),
        InstructionMode::Relative => InstructionInput::Address(
            spec_relative_target(regs.pc, bytes[1]),
        ),
        InstructionMode::ZeroPage => InstructionInput::Address(bytes[1] as u16),
        InstructionMode::ZeroPageX => InstructionInput::Address(
            wrap_add8(bytes[1], regs.x) as u16,
        ),
        InstructionMode::ZeroPageY => InstructionInput::Address(
            wrap_add8(bytes[1], regs.y) as u16,
        ),
        InstructionMode::Absolute => InstructionInput::Address(u16_from_le(bytes[1], bytes[2])),
        InstructionMode::AbsoluteX => InstructionInput::Address(
            wrap_add16(u16_from_le(bytes[1], bytes[2]), regs.x as u16),
        ),
        InstructionMode::AbsoluteY => InstructionInput::Address(
            wrap_add16(u16_from_le(bytes[1], bytes[2]), regs.y as u16),
        ),
        InstructionMode::Indirect => InstructionInput::Address(
            spec_read_u16(mem, u16_from_le(bytes[1], bytes[2])),
        ),
        InstructionMode::IndirectX => InstructionInput::Address(
            spec_read_u16(mem, wrap_add8(bytes[1], regs.x) as u16),
        ),
        InstructionMode::IndirectY => InstructionInput::Address(
            wrap_add16(spec_read_u16(mem, bytes[1] as u16), regs.y as u16),
        ),
    }
}

impl Cpu {
    /// The fetch step hands the resolver exactly as many bytes as the mode
    /// declares; any other count means the fetch step is corrupted, so callers
    /// must establish the equality before resolving.
    pub fn assert_input_len(len_expected: usize, bytes: &[u8])
        requires
            len_expected == bytes@.len(),
    {
        proof {
            assert(len_expected == bytes@.len());
        }
    }

    /// Resolve an addressing mode over the instruction's raw bytes into a
    /// transient input value. Fails exactly when an indirect pointer's second
    /// byte would lie past the end of the address space.
    pub fn determine_input(&self, mode: InstructionMode, bytes: &[u8]) -> (r: Result<
        InstructionInput,
        CpuError,
    >)
        requires
            self.wf(),
            bytes@.len() == spec_mode_len(mode),
        ensures
            mode != InstructionMode::Indirect ==> r == Ok::<InstructionInput, CpuError>(
                spec_resolve(mode, bytes@, self.registers, self.memory@),
            ),
            mode == InstructionMode::Indirect ==> {
                if u16_from_le(bytes@[1], bytes@[2]) < 0xFFFF {
                    r == Ok::<InstructionInput, CpuError>(
                        spec_resolve(mode, bytes@, self.registers, self.memory@),
                    )
                } else {
                    r == Err::<InstructionInput, CpuError>(CpuError::AddressOutOfRange)
                }
            },
    {
        let input = match mode {
            InstructionMode::Implied => {
                Self::assert_input_len(1, bytes);
                InstructionInput::Implied
            },
            InstructionMode::Accumulator => {
                Self::assert_input_len(1, bytes);
                InstructionInput::Accumulator
            },
            InstructionMode::Immediate => {
                Self::assert_input_len(2, bytes);
                InstructionInput::Byte(bytes[1])
            },
            InstructionMode::Relative => {
                Self::assert_input_len(2, bytes);
                let offset = bytes[1];
                let pc = self.registers.pc;
                let address = if offset < 0x80 {
                    pc.wrapping_add(offset as u16)
                } else {
                    pc.wrapping_add(offset as u16).wrapping_sub(0x100)
                };
                proof {
                    assert(address == spec_relative_target(pc, offset));
                }
                InstructionInput::Address(address)
            },
            InstructionMode::ZeroPage => {
                Self::assert_input_len(2, bytes);
                InstructionInput::Address(bytes[1] as u16)
            },
            InstructionMode::ZeroPageX => {
                Self::assert_input_len(2, bytes);
                InstructionInput::Address(bytes[1].wrapping_add(self.registers.x) as u16)
            },
            InstructionMode::ZeroPageY => {
                Self::assert_input_len(2, bytes);
                InstructionInput::Address(bytes[1].wrapping_add(self.registers.y) as u16)
            },
            InstructionMode::Absolute => {
                Self::assert_input_len(3, bytes);
                InstructionInput::Address(bytes[1] as u16 + bytes[2] as u16 * 0x100)
            },
            InstructionMode::AbsoluteX => {
                Self::assert_input_len(3, bytes);
                let base = bytes[1] as u16 + bytes[2] as u16 * 0x100;
                InstructionInput::Address(base.wrapping_add(self.registers.x as u16))
            },
            InstructionMode::AbsoluteY => {
                Self::assert_input_len(3, bytes);
                let base = bytes[1] as u16 + bytes[2] as u16 * 0x100;
                InstructionInput::Address(base.wrapping_add(self.registers.y as u16))
            },
            InstructionMode::Indirect => {
                Self::assert_input_len(3, bytes);
                let pointer = bytes[1] as u16 + bytes[2] as u16 * 0x100;
                let address = match self.memory.read_u16(pointer) {
                    Ok(v) => v,
                    Err(e) => {
                        return Err(e);
                    },
                };
                InstructionInput::Address(address)
            },
            InstructionMode::IndirectX => {
                Self::assert_input_len(2, bytes);
                let pointer = bytes[1].wrapping_add(self.registers.x) as u16;
                let address = match self.memory.read_u16(pointer) {
                    Ok(v) => v,
                    Err(e) => {
                        return Err(e);
                    },
                };
                InstructionInput::Address(address)
            },
            InstructionMode::IndirectY => {
                Self::assert_input_len(2, bytes);
                let pointer = bytes[1] as u16;
                let base = match self.memory.read_u16(pointer) {
                    Ok(v) => v,
                    Err(e) => {
                        return Err(e);
                    },
                };
                InstructionInput::Address(base.wrapping_add(self.registers.y as u16))
            },
        };
        Ok(input)
    }
}

/// The data byte an input designates: an immediate byte itself, or the byte
/// in memory at a resolved address. Inputs without a data byte fall outside.
pub open spec fn spec_input_byte(input: InstructionInput, mem: Seq<u8>) -> Option<u8> {
    match input {
        InstructionInput::Byte(b) => Some(b),
        InstructionInput::Address(address) => Some(mem[address as int]),
        _ => None,
    }
}

/// The read-modify-write target an input designates. Inputs without one fall
/// outside.
pub open spec fn spec_input_location(input: InstructionInput) -> Option<Location> {
    match input {
        InstructionInput::Accumulator => Some(Location::Accumulator),
        InstructionInput::Address(address) => Some(Location::Address(address)),
        _ => None,
    }
}

impl Cpu {
    /// Fetch the data byte an input designates; an input without a data byte
    /// means the table paired an operation with a mode it cannot carry.
    pub fn input_to_byte(&self, input: InstructionInput) -> (r: Result<u8, CpuError>)
        requires
            self.wf(),
        ensures
            r == match spec_input_byte(input, self.memory@) {
                Some(b) => Ok::<u8, CpuError>(b),
                None => Err::<u8, CpuError>(CpuError::InputMismatch),
            },
    {
        match input {
            InstructionInput::Byte(b) => Ok(b),
            InstructionInput::Address(address) => Ok(self.memory.read(address)),
            _ => Err(CpuError::InputMismatch),
        }
    }

    /// Interpret an input as a read-modify-write target; an input without one
    /// means the table paired an operation with a mode it cannot carry.
    pub fn input_to_location(&self, input: InstructionInput) -> (r: Result<Location, CpuError>)
        ensures
            r == match spec_input_location(input) {
                Some(l) => Ok::<Location, CpuError>(l),
                None => Err::<Location, CpuError>(CpuError::InputMismatch),
            },
    {
        match input {
            InstructionInput::Accumulator => Ok(Location::Accumulator),
            InstructionInput::Address(address) => Ok(Location::Address(address)),
            _ => Err(CpuError::InputMismatch),
        }
    }
}

/// The operations the executor implements today. Every other operation is an
/// explicit extension point: dispatching it fails loudly with an unsupported
/// error instead of silently executing wrong semantics.
pub open spec fn op_implemented(operation: InstructionOperation) -> bool {
    ||| operation is Adc
    ||| operation is Asl
    ||| operation is Brk
    ||| operation is Clc
    ||| operation is Cld
    ||| operation is Cli
    ||| operation is Clv
    ||| operation is Inx
    ||| operation is Iny
    ||| operation is Lda
    ||| operation is Ldx
    ||| operation is Ldy
    ||| operation is Nop
    ||| operation is Sec
    ||| operation is Sed
    ||| operation is Sei
    ||| operation is Tax
    ||| operation is Tay
    ||| operation is Txa
    ||| operation is Tya
}

/// The data byte an input designates, defaulting to 0 for inputs without one;
/// the executor only applies it under modes that do carry a data byte.
pub open spec fn spec_input_byte_or0(input: InstructionInput, mem: Seq<u8>) -> u8 {
    match spec_input_byte(input, mem) {
        Some(b) => b,
        None => 0,
    }
}

/// The shift-left effect on a resolved target: flags from the old byte and
/// the shifted result, the result written back in place.
pub open spec fn spec_asl(regs: RegisterSet, mem: Seq<u8>, location: Location) -> (
    RegisterSet,
    Seq<u8>,
) {
    let input = match location {
        Location::Accumulator => regs.a,
        Location::Address(address) => mem[address as int],
    };
    let result = spec_asl_result(input);
    let p_new = regs.p.set_flag(FLAG_CARRY, input >= 0x80).set_flag(FLAG_ZERO, result == 0)
        .set_flag(FLAG_NEGATIVE, result >= 0x80);
    match location {
        Location::Accumulator => (RegisterSet { a: result, p: p_new, ..regs }, mem),
        Location::Address(address) => (
            RegisterSet { p: p_new, ..regs },
            mem.update(address as int, result),
        ),
    }
}

/// One operation's whole effect on registers and memory, as a mathematical
/// function of the resolved input and the pre-state. Operations that are not
/// implemented leave the state unchanged; the dispatcher reports them as
/// errors instead of applying this function.
pub open spec fn spec_execute(
    operation: InstructionOperation,
    input: InstructionInput,
    regs: RegisterSet,
    mem: Seq<u8>,
    irq: u16,
) -> (RegisterSet, Seq<u8>) {
    match operation {
        InstructionOperation::Adc => (spec_adc(regs, spec_input_byte_or0(input, mem)), mem),
        InstructionOperation::Asl => match spec_input_location(input) {
            Some(location) => spec_asl(regs, mem, location),
            None => (regs, mem),
        },
        InstructionOperation::Brk => spec_brk(regs, mem, irq),
        InstructionOperation::Clc => (
            RegisterSet { p: regs.p.set_flag(FLAG_CARRY, false), ..regs },
            mem,
        ),
        InstructionOperation::Cld => (
            RegisterSet { p: regs.p.set_flag(FLAG_DECIMAL, false), ..regs },
            mem,
        ),
        InstructionOperation::Cli => (
            RegisterSet { p: regs.p.set_flag(FLAG_INTERRUPT_DISABLE, false), ..regs },
            mem,
        ),
        InstructionOperation::Clv => (
            RegisterSet { p: regs.p.set_flag(FLAG_OVERFLOW, false), ..regs },
            mem,
        ),
        InstructionOperation::Inx => (
            RegisterSet {
                x: wrap_add8(regs.x, 1),
                p: spec_flags_zn(regs.p, wrap_add8(regs.x, 1)),
                ..regs
            },
            mem,
        ),
        InstructionOperation::Iny => (
            RegisterSet {
                y: wrap_add8(regs.y, 1),
                p: spec_flags_zn(regs.p, wrap_add8(regs.y, 1)),
                ..regs
            },
            mem,
        ),
        InstructionOperation::Lda => (
            RegisterSet {
                a: spec_input_byte_or0(input, mem),
                p: spec_flags_zn(regs.p, spec_input_byte_or0(input, mem)),
                ..regs
            },
            mem,
        ),
        InstructionOperation::Ldx => (
            RegisterSet {
                x: spec_input_byte_or0(input, mem),
                p: spec_flags_zn(regs.p, spec_input_byte_or0(input, mem)),
                ..regs
            },
            mem,
        ),
        InstructionOperation::Ldy => (
            RegisterSet {
                y: spec_input_byte_or0(input, mem),
                p: spec_flags_zn(regs.p, spec_input_byte_or0(input, mem)),
                ..regs
            },
            mem,
        ),
        InstructionOperation::Nop => (regs, mem),
        InstructionOperation::Sec => (
            RegisterSet { p: regs.p.set_flag(FLAG_CARRY, true), ..regs },
            mem,
        ),
        InstructionOperation::Sed => (
            RegisterSet { p: regs.p.set_flag(FLAG_DECIMAL, true), ..regs },
            mem,
        ),
        InstructionOperation::Sei => (
            RegisterSet { p: regs.p.set_flag(FLAG_INTERRUPT_DISABLE, true), ..regs },
            mem,
        ),
        InstructionOperation::Tax => (
            RegisterSet { x: regs.a, p: spec_flags_zn(regs.p, regs.a), ..regs },
            mem,
        ),
        InstructionOperation::Tay => (
            RegisterSet { y: regs.a, p: spec_flags_zn(regs.p, regs.a), ..regs },
            mem,
        ),
        InstructionOperation::Txa => (
            RegisterSet { a: regs.x, p: spec_flags_zn(regs.p, regs.x), ..regs },
            mem,
        ),
        InstructionOperation::Tya => (
            RegisterSet { a: regs.y, p: spec_flags_zn(regs.p, regs.y), ..regs },
            mem,
        ),
        _ => (regs, mem),
    }
}

/// The additive-carry comparison: after a wrapping add, the result sits below
/// the addend exactly when the add wrapped (except when the carry-in alone
/// wrapped the sum to the addend itself).
pub fn is_carry(input: u8, value_new: u8) -> (r: bool)
    ensures
        r == (value_new < input),
{
    value_new < input
}

/// The three-operand signed-overflow test: both addends share a sign bit and
/// the result's sign bit differs from it.
pub fn has_overflown(value_old: u8, input: u8, value_new: u8) -> (r: bool)
    ensures
        r == spec_has_overflown(value_old, input, value_new),
{
    (value_old >= 0x80) == (input >= 0x80) && (value_old >= 0x80) != (value_new >= 0x80)
}

pub open spec fn spec_has_overflown(value_old: u8, input: u8, value_new: u8) -> bool {
    (value_old >= 0x80) == (input >= 0x80) && (value_old >= 0x80) != (value_new >= 0x80)
}

/// The sign flag reads bit 7 of the result byte.
pub fn is_negative(value: u8) -> (r: bool)
    ensures
        r == (value >= 0x80),
{
    value >= 0x80
}

impl Cpu {
    /// Dispatch one fetched instruction: resolve its input under its
    /// addressing mode and apply the operation's semantics to registers and
    /// memory. Fails exactly on the operations the executor does not
    /// implement, leaving the state untouched.
    pub fn call_instruction(&mut self, instruction: Instruction, bytes: &[u8]) -> (r: Result<
        (),
        CpuError,
    >)
        requires
            old(self).wf(),
            op_mode_ok(instruction.operation, instruction.mode),
            bytes@.len() == spec_mode_len(instruction.mode),
        ensures
            final(self).wf(),
            final(self).vectors == old(self).vectors,
            final(self).clock == old(self).clock,
            r is Ok <==> op_implemented(instruction.operation),
            !op_implemented(instruction.operation) ==> r == Err::<(), CpuError>(
                CpuError::UnsupportedOperation(instruction.operation),
            ) && final(self).registers == old(self).registers && final(self).memory@ == old(
                self,
            ).memory@,
            op_implemented(instruction.operation) ==> (final(self).registers, final(self).memory@)
                == spec_execute(
                instruction.operation,
                spec_resolve(instruction.mode, bytes@, old(self).registers, old(self).memory@),
                old(self).registers,
                old(self).memory@,
                old(self).vectors.irq,
            ),
    {
        match instruction.operation() {
            InstructionOperation::Adc => {
                let input = match self.determine_input(instruction.mode(), bytes) {
                    Ok(i) => i,
                    Err(e) => {
                        return Err(e);
                    },
                };
                let value = match self.input_to_byte(input) {
                    Ok(b) => b,
                    Err(e) => {
                        return Err(e);
                    },
                };
                self.run_adc(value);
                Ok(())
            },
            InstructionOperation::And => Err(
                CpuError::UnsupportedOperation(InstructionOperation::And),
            ),
            InstructionOperation::Asl => {
                let input = match self.determine_input(instruction.mode(), bytes) {
                    Ok(i) => i,
                    Err(e) => {
                        return Err(e);
                    },
                };
                let target = match self.input_to_location(input) {
                    Ok(l) => l,
                    Err(e) => {
                        return Err(e);
                    },
                };
                self.run_asl(target);
                Ok(())
            },
            InstructionOperation::Bcc => Err(
                CpuError::UnsupportedOperation(InstructionOperation::Bcc),
            ),
            InstructionOperation::Bcs => Err(
                CpuError::UnsupportedOperation(InstructionOperation::Bcs),
            ),
            InstructionOperation::Beq => Err(
                CpuError::UnsupportedOperation(InstructionOperation::Beq),
            ),
            InstructionOperation::Bit => Err(
                CpuError::UnsupportedOperation(InstructionOperation::Bit),
            ),
            InstructionOperation::Bmi => Err(
                CpuError::UnsupportedOperation(InstructionOperation::Bmi),
            ),
            InstructionOperation::Bne => Err(
                CpuError::UnsupportedOperation(InstructionOperation::Bne),
            ),
            InstructionOperation::Bpl => Err(
                CpuError::UnsupportedOperation(InstructionOperation::Bpl),
            ),
            InstructionOperation::Brk => {
                self.run_brk();
                Ok(())
            },
            InstructionOperation::Bvc => Err(
                CpuError::UnsupportedOperation(InstructionOperation::Bvc),
            ),
            InstructionOperation::Bvs => Err(
                CpuError::UnsupportedOperation(InstructionOperation::Bvs),
            ),
            InstructionOperation::Clc => {
                self.run_clc();
                Ok(())
            },
            InstructionOperation::Cld => {
                self.run_cld();
                Ok(())
            },
            InstructionOperation::Cli => {
                self.run_cli();
                Ok(())
            },
            InstructionOperation::Clv => {
                self.run_clv();
                Ok(())
            },
            InstructionOperation::Cmp => Err(
                CpuError::UnsupportedOperation(InstructionOperation::Cmp),
            ),
            InstructionOperation::Cpx => Err(
                CpuError::UnsupportedOperation(InstructionOperation::Cpx),
            ),
            InstructionOperation::Cpy => Err(
                CpuError::UnsupportedOperation(InstructionOperation::Cpy),
            ),
            InstructionOperation::Dec => Err(
                CpuError::UnsupportedOperation(InstructionOperation::Dec),
            ),
            InstructionOperation::Dex => Err(
                CpuError::UnsupportedOperation(InstructionOperation::Dex),
            ),
            InstructionOperation::Dey => Err(
                CpuError::UnsupportedOperation(InstructionOperation::Dey),
            ),
            InstructionOperation::Eor => Err(
                CpuError::UnsupportedOperation(InstructionOperation::Eor),
            ),
            InstructionOperation::Inc => Err(
                CpuError::UnsupportedOperation(InstructionOperation::Inc),
            ),
            InstructionOperation::Inx => {
                self.run_inx();
                Ok(())
            },
            InstructionOperation::Iny => {
                self.run_iny();
                Ok(())
            },
            InstructionOperation::Jmp => Err(
                CpuError::UnsupportedOperation(InstructionOperation::Jmp),
            ),
            InstructionOperation::Jsr => Err(
                CpuError::UnsupportedOperation(InstructionOperation::Jsr),
            ),
            InstructionOperation::Lda => {
                let input = match self.determine_input(instruction.mode(), bytes) {
                    Ok(i) => i,
                    Err(e) => {
                        return Err(e);
                    },
                };
                let value = match self.input_to_byte(input) {
                    Ok(b) => b,
                    Err(e) => {
                        return Err(e);
                    },
                };
                self.run_lda(value);
                Ok(())
            },
            InstructionOperation::Ldx => {
                let input = match self.determine_input(instruction.mode(), bytes) {
                    Ok(i) => i,
                    Err(e) => {
                        return Err(e);
                    },
                };
                let value = match self.input_to_byte(input) {
                    Ok(b) => b,
                    Err(e) => {
                        return Err(e);
                    },
                };
                self.run_ldx(value);
                Ok(())
            },
            InstructionOperation::Ldy => {
                let input = match self.determine_input(instruction.mode(), bytes) {
                    Ok(i) => i,
                    Err(e) => {
                        return Err(e);
                    },
                };
                let value = match self.input_to_byte(input) {
                    Ok(b) => b,
                    Err(e) => {
                        return Err(e);
                    },
                };
                self.run_ldy(value);
                Ok(())
            },
            InstructionOperation::Lsr => Err(
                CpuError::UnsupportedOperation(InstructionOperation::Lsr),
            ),
            InstructionOperation::Nop => Ok(()),
            InstructionOperation::Ora => Err(
                CpuError::UnsupportedOperation(InstructionOperation::Ora),
            ),
            InstructionOperation::Pha => Err(
                CpuError::UnsupportedOperation(InstructionOperation::Pha),
            ),
            InstructionOperation::Php => Err(
                CpuError::UnsupportedOperation(InstructionOperation::Php),
            ),
            InstructionOperation::Pla => Err(
                CpuError::UnsupportedOperation(InstructionOperation::Pla),
            ),
            InstructionOperation::Plp => Err(
                CpuError::UnsupportedOperation(InstructionOperation::Plp),
            ),
            InstructionOperation::Rol => Err(
                CpuError::UnsupportedOperation(InstructionOperation::Rol),
            ),
            InstructionOperation::Ror => Err(
                CpuError::UnsupportedOperation(InstructionOperation::Ror),
            ),
            InstructionOperation::Rti => Err(
                CpuError::UnsupportedOperation(InstructionOperation::Rti),
            ),
            InstructionOperation::Rts => Err(
                CpuError::UnsupportedOperation(InstructionOperation::Rts),
            ),
            InstructionOperation::Sbc => Err(
                CpuError::UnsupportedOperation(InstructionOperation::Sbc),
            ),
            InstructionOperation::Sec => {
                self.run_sec();
                Ok(())
            },
            InstructionOperation::Sed => {
                self.run_sed();
                Ok(())
            },
            InstructionOperation::Sei => {
                self.run_sei();
                Ok(())
            },
            InstructionOperation::Sta => Err(
                CpuError::UnsupportedOperation(InstructionOperation::Sta),
            ),
            InstructionOperation::Stx => Err(
                CpuError::UnsupportedOperation(InstructionOperation::Stx),
            ),
            InstructionOperation::Sty => Err(
                CpuError::UnsupportedOperation(InstructionOperation::Sty),
            ),
            InstructionOperation::Tax => {
                self.run_tax();
                Ok(())
            },
            InstructionOperation::Tay => {
                self.run_tay();
                Ok(())
            },
            InstructionOperation::Tsx => Err(
                CpuError::UnsupportedOperation(InstructionOperation::Tsx),
            ),
            InstructionOperation::Txa => {
                self.run_txa();
                Ok(())
            },
            InstructionOperation::Txs => Err(
                CpuError::UnsupportedOperation(InstructionOperation::Txs),
            ),
            InstructionOperation::Tya => {
                self.run_tya();
                Ok(())
            },
        }
    }

    /// Run one instruction through the pipeline: read exactly the shape's
    /// byte span at the program counter — failing, with nothing changed, when
    /// that span would run past the end of the address space — advance the
    /// counter by the shape's length with 16-bit wraparound before executing,
    /// so that relative targets and pushed return addresses point at the next
    /// instruction, charge the shape's base cycle cost, then resolve and
    /// execute. Whatever the operation, the read length always equals the
    /// shape's declared length, and the counter after processing sits at the
    /// old counter plus that length, except that an executed break transfers
    /// control to the interrupt vector.
    pub fn process_instruction(&mut self, instruction: Instruction) -> (r: Result<(), CpuError>)
        requires
            old(self).wf(),
            instruction_wf(instruction),
            old(self).clock.cycles + instruction.cycles_base <= u64::MAX,
        ensures
            final(self).wf(),
            final(self).vectors == old(self).vectors,
            old(self).registers.pc + instruction.len > 0x10000 ==> r == Err::<(), CpuError>(
                CpuError::AddressOutOfRange,
            ) && final(self).registers == old(self).registers && final(self).memory@ == old(
                self,
            ).memory@ && final(self).clock == old(self).clock,
            old(self).registers.pc + instruction.len <= 0x10000 ==> ({
                let pc_next = wrap_add16(old(self).registers.pc, instruction.len as u16);
                let regs_next = RegisterSet { pc: pc_next, ..old(self).registers };
                let bytes = old(self).memory@.subrange(
                    old(self).registers.pc as int,
                    old(self).registers.pc + instruction.len,
                );
                &&& final(self).clock == (Clock {
                    mode: old(self).clock.mode,
                    cycles: (old(self).clock.cycles + instruction.cycles_base) as u64,
                })
                &&& (r is Ok <==> op_implemented(instruction.operation))
                &&& !op_implemented(instruction.operation) ==> r == Err::<(), CpuError>(
                    CpuError::UnsupportedOperation(instruction.operation),
                ) && final(self).registers == regs_next && final(self).memory@ == old(
                    self,
                ).memory@
                &&& op_implemented(instruction.operation) ==> (
                final(self).registers,
                final(self).memory@,
                ) == spec_execute(
                    instruction.operation,
                    spec_resolve(instruction.mode, bytes, regs_next, old(self).memory@),
                    regs_next,
                    old(self).memory@,
                    old(self).vectors.irq,
                )
                &&& !(instruction.operation is Brk) ==> final(self).registers.pc == pc_next
                &&& instruction.operation is Brk ==> final(self).registers.pc == old(
                    self,
                ).vectors.irq
            }),
    {
        let len = instruction.len();
        let bytes = match self.memory.read_n(self.registers.pc, len as u16) {
            Ok(b) => b,
            Err(e) => {
                return Err(e);
            },
        };
        self.registers.pc = self.registers.pc.wrapping_add(len as u16);
        self.clock.tick(instruction.cycles_base());
        self.call_instruction(instruction, bytes.as_slice())
    }

    /// Fetch the shape of the instruction at the program counter, unless the
    /// instruction would reach into the reserved region right below the
    /// interrupt vectors; that boundary is the driver's terminal condition.
    pub fn determine_instruction_next(&self) -> (r: Option<Instruction>)
        requires
            self.wf(),
        ensures
            ({
                let i = spec_from_opcode(self.memory@[self.registers.pc as int]);
                if self.registers.pc + i.len < ADDRESS_NMI {
                    r == Some(i)
                } else {
                    r == None::<Instruction>
                }
            }),
            r matches Some(i) ==> instruction_wf(i) && self.registers.pc + i.len < ADDRESS_NMI,
    {
        let opcode = self.memory.read(self.registers.pc);
        let instruction = Instruction::from_opcode(opcode);
        if (self.registers.pc as usize) + (instruction.len() as usize) < ADDRESS_NMI as usize {
            Some(instruction)
        } else {
            None
        }
    }

    /// Drive the fetch-decode-execute loop until the next instruction would
    /// reach the reserved boundary below the interrupt vectors, an operation
    /// without semantics is encountered, or the cycle counter runs out of
    /// headroom. The result and the machine afterwards are exactly what
    /// `spec_run` gives for the machine before the call; on success the
    /// processor stands at that terminal boundary.
    pub fn start(&mut self) -> (r: Result<(), CpuError>)
        requires
            old(self).wf(),
        ensures
            final(self).wf(),
            final(self).vectors == old(self).vectors,
            final(self).clock.mode == old(self).clock.mode,
            final(self).clock.cycles >= old(self).clock.cycles,
            r == spec_run(old(self).machine(), old(self).vectors.irq).0,
            final(self).machine() == spec_run(old(self).machine(), old(self).vectors.irq).1,
            r is Ok ==> final(self).registers.pc + spec_from_opcode(
                final(self).memory@[final(self).registers.pc as int],
            ).len >= ADDRESS_NMI,
            r matches Err(e) ==> (e is UnsupportedOperation || e == CpuError::CycleLimit),
            r matches Err(CpuError::UnsupportedOperation(operation)) ==> !op_implemented(operation),
            r == Err::<(), CpuError>(CpuError::CycleLimit) ==> final(self).clock.cycles > u64::MAX
                - 7,
    {
        loop
            invariant
                self.wf(),
                self.vectors == old(self).vectors,
                self.clock.mode == old(self).clock.mode,
                self.clock.cycles >= old(self).clock.cycles,
                spec_run(self.machine(), self.vectors.irq) == spec_run(
                    old(self).machine(),
                    old(self).vectors.irq,
                ),
            decreases u64::MAX - self.clock.cycles,
        {
            let ghost pre = self.machine();
            let next = self.determine_instruction_next();
            match next {
                None => {
                    proof {
                        assert(spec_run(pre, self.vectors.irq) == (Ok::<(), CpuError>(()), pre));
                    }
                    return Ok(());
                },
                Some(instruction) => {
                    if self.clock.cycles() > u64::MAX - 7 {
                        proof {
                            assert(spec_run(pre, self.vectors.irq) == (
                                Err::<(), CpuError>(CpuError::CycleLimit),
                                pre,
                            ));
                        }
                        return Err(CpuError::CycleLimit);
                    }
                    match self.process_instruction(instruction) {
                        Ok(()) => {
                            proof {
                                assert(spec_run(pre, self.vectors.irq) == spec_run(
                                    self.machine(),
                                    self.vectors.irq,
                                ));
                            }
                        },
                        Err(e) => {
                            proof {
                                assert(spec_run(pre, self.vectors.irq) == (
                                    Err::<(), CpuError>(e),
                                    self.machine(),
                                ));
                            }
                            return Err(e);
                        },
                    }
                },
            }
        }
    }
}

/// The whole machine state the driver moves: the register file, the contents
/// of the address space and the cycle count.
pub ghost struct MachineState {
    pub regs: RegisterSet,
    pub mem: Seq<u8>,
    pub cycles: u64,
}

impl Cpu {
    pub open spec fn machine(self) -> MachineState {
        MachineState { regs: self.registers, mem: self.memory@, cycles: self.clock.cycles }
    }
}

/// The driver's outcome and final machine, as a mathematical function of the
/// starting machine: fetch the shape at the program counter; stop with
/// success at the reserved boundary below the interrupt vectors; stop with a
/// cycle-limit fault when the counter has no headroom for one more
/// instruction; stop with an unsupported-operation fault — the counter
/// advanced past the offending instruction and its cycles charged — on the
/// first operation without semantics; otherwise execute the instruction and
/// continue.
pub open spec fn spec_run(st: MachineState, irq: u16) -> (Result<(), CpuError>, MachineState)
    decreases u64::MAX - st.cycles,
    via spec_run_decreases
{
    let shape = spec_from_opcode(st.mem[st.regs.pc as int]);
    if st.regs.pc + shape.len >= ADDRESS_NMI {
        (Ok(()), st)
    } else if st.cycles > u64::MAX - 7 {
        (Err(CpuError::CycleLimit), st)
    } else {
        let regs_next = RegisterSet { pc: wrap_add16(st.regs.pc, shape.len as u16), ..st.regs };
        let bytes = st.mem.subrange(st.regs.pc as int, st.regs.pc + shape.len);
        let cycles_next = (st.cycles + shape.cycles_base) as u64;
        if !op_implemented(shape.operation) {
            (
                Err(CpuError::UnsupportedOperation(shape.operation)),
                MachineState { regs: regs_next, mem: st.mem, cycles: cycles_next },
            )
        } else {
            let stepped = spec_execute(
                shape.operation,
                spec_resolve(shape.mode, bytes, regs_next, st.mem),
                regs_next,
                st.mem,
                irq,
            );
            spec_run(MachineState { regs: stepped.0, mem: stepped.1, cycles: cycles_next }, irq)
        }
    }
}

#[via_fn]
proof fn spec_run_decreases(st: MachineState, irq: u16) {
    lemma_from_opcode_wf(st.mem[st.regs.pc as int]);
}

/// Writing a 16-bit pointer little-endian at a zero-page location and then
/// resolving the pre-indexed or post-indexed indirect mode over that
/// location, with the index register at 0, yields exactly that pointer as
/// the effective address.
pub proof fn lemma_pointer_round_trip(
    mem: Seq<u8>,
    regs: RegisterSet,
    opcode: u8,
    pointer_at: u8,
    target: u16,
)
    requires
        mem.len() == MEMORY_SIZE,
        regs.x == 0,
        regs.y == 0,
    ensures
        ({
            let written = mem.update(pointer_at as int, (target % 0x100) as u8).update(
                pointer_at + 1,
                (target / 0x100) as u8,
            );
            &&& spec_resolve(InstructionMode::IndirectX, seq![opcode, pointer_at], regs, written)
                == InstructionInput::Address(target)
            &&& spec_resolve(InstructionMode::IndirectY, seq![opcode, pointer_at], regs, written)
                == InstructionInput::Address(target)
        }),
{
    let written = mem.update(pointer_at as int, (target % 0x100) as u8).update(
        pointer_at + 1,
        (target / 0x100) as u8,
    );
    assert(wrap_add8(pointer_at, 0) == pointer_at);
    assert(written[pointer_at as int] == (target % 0x100) as u8);
    assert(written[pointer_at + 1] == (target / 0x100) as u8);
    assert(target % 0x100 + (target / 0x100) * 0x100 == target) by {
        vstd::arithmetic::div_mod::lemma_fundamental_div_mod(target as int, 0x100);
    }
    assert(spec_read_u16(written, pointer_at as u16) == target);
    assert(wrap_add16(target, 0) == target);
}

/// Pushing a byte and pulling it straight back returns that byte, restores
/// the stack pointer, clears the vacated stack cell, and leaves every
/// address outside the stack page exactly as it was.
pub proof fn lemma_stack_push_then_pull(mem: Seq<u8>, s: u8, value: u8)
    requires
        mem.len() == MEMORY_SIZE,
    ensures
        ({
            // The memory and stack pointer after a push ...
            let mem_pushed = mem.update(spec_stack_addr(s), value);
            let s_pushed = wrap_sub8(s, 1);
            // ... and after the matching pull.
            let s_pulled = wrap_add8(s_pushed, 1);
            let pulled = mem_pushed[spec_stack_addr(s_pulled)];
            let mem_pulled = mem_pushed.update(spec_stack_addr(s_pulled), 0u8);
            &&& s_pulled == s
            &&& pulled == value
            &&& mem_pulled[spec_stack_addr(s)] == 0u8
            &&& forall|address: int|
                0 <= address < MEMORY_SIZE && !(0x0100 <= address < 0x0200)
                    ==> mem_pulled[address] == mem[address]
        }),
{
}

} // verus!
