//! Emulation core for a classic 8-bit microprocessor: an instruction table,
//! an addressing-mode resolver, a register and status-flag model, a stack and
//! interrupt-vector discipline, and the fetch-decode-execute driver, each with
//! a verified contract.

pub mod clock;
pub mod cpu;
pub mod flags;
pub mod instruction;
pub mod memory;
pub mod registers;
pub mod types;
