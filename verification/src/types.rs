//! Faults that the emulation core reports to its caller. Every fault bubbles
//! up through the run loop; the core never retries a faulted step.

use vstd::prelude::*;
use crate::instruction::InstructionOperation;

verus! {

#[derive(Clone, Copy, Debug, PartialEq, Eq, Structural)]
pub enum CpuError {
    /// A multi-byte read would run past the end of the 16-bit address space.
    AddressOutOfRange,
    /// The operation is a declared extension point with no semantics yet; the
    /// core halts loudly instead of executing wrong semantics silently.
    UnsupportedOperation(InstructionOperation),
    /// The resolved input does not fit the operation, which means the
    /// instruction table and the resolver disagree.
    InputMismatch,
    /// The cycle counter has no headroom left for another instruction.
    CycleLimit,
}

} // verus!
