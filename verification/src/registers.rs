//! The processor's register file: accumulator, the two index registers, the
//! stack pointer, the packed status flags and the program counter.

use vstd::prelude::*;
use crate::flags::StatusFlags;

verus! {

/// All mutable processor state outside memory. Every register is a plain
/// unsigned value; arithmetic on them wraps at the 8-bit or 16-bit boundary.
#[derive(Clone, Copy, Debug, PartialEq, Eq, Structural)]
pub struct RegisterSet {
    pub a: u8,
    pub x: u8,
    pub y: u8,
    pub s: u8,
    pub p: StatusFlags,
    pub pc: u16,
}

impl RegisterSet {
    /// The power-on register file: cleared registers and flags, the stack
    /// pointer at the top of the stack page, and a program counter that the
    /// reset vector seeds afterwards.
    pub fn new() -> (r: RegisterSet)
        ensures
            r == (RegisterSet {
                a: 0,
                x: 0,
                y: 0,
                s: 0xFF,
                p: StatusFlags { bits: 0 },
                pc: 0,
            }),
    {
        RegisterSet { a: 0, x: 0, y: 0, s: 0xFF, p: StatusFlags::empty(), pc: 0 }
    }
}

} // verus!
