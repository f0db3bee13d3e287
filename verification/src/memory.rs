//! The byte-addressable 16-bit address space behind the processor: single-byte
//! reads and writes, 16-bit little-endian reads, and bounded multi-byte reads.

use vstd::prelude::*;
use crate::types::CpuError;

verus! {

pub const MEMORY_SIZE: usize = 0x10000;

/// A 16-bit unsigned value assembled from two bytes, low byte first.
pub open spec fn u16_from_le(lo: u8, hi: u8) -> u16 {
    (lo + hi * 0x100) as u16
}

/// The 16-bit little-endian value stored at `address` and `address + 1`.
/// Meaningful only while `address + 1` is inside the address space.
pub open spec fn spec_read_u16(mem: Seq<u8>, address: u16) -> u16 {
    u16_from_le(mem[address as int], mem[address as int + 1])
}

/// The full 64 KiB address space as one byte array.
pub struct Memory {
    bytes: Vec<u8>,
}

impl View for Memory {
    type V = Seq<u8>;

    closed spec fn view(&self) -> Seq<u8> {
        self.bytes@
    }
}

impl Memory {
    /// The address space always spans exactly 2^16 bytes.
    pub open spec fn wf(self) -> bool {
        self@.len() == MEMORY_SIZE
    }

    /// A fresh, fully zeroed address space.
    pub fn new() -> (r: Memory)
        ensures
            r.wf(),
            forall|i: int| 0 <= i < MEMORY_SIZE ==> r@[i] == 0u8,
    {
        let mut bytes: Vec<u8> = Vec::new();
        let mut i: usize = 0;
        while i < MEMORY_SIZE
            invariant
                i <= MEMORY_SIZE,
                bytes@.len() == i,
                forall|j: int| 0 <= j < i ==> bytes@[j] == 0u8,
            decreases MEMORY_SIZE - i,
        {
            bytes.push(0);
            i = i + 1;
        }
        Memory { bytes }
    }

    pub fn read(&self, address: u16) -> (r: u8)
        requires
            self.wf(),
        ensures
            r == self@[address as int],
    {
        self.bytes[address as usize]
    }

    pub fn write(&mut self, address: u16, value: u8)
        requires
            old(self).wf(),
        ensures
            final(self).wf(),
            final(self)@ == old(self)@.update(address as int, value),
    {
        self.bytes[address as usize] = value;
    }

    /// Read a 16-bit little-endian value from `address` and `address + 1`;
    /// the read fails exactly when the second byte would lie past the end of
    /// the address space.
    pub fn read_u16(&self, address: u16) -> (r: Result<u16, CpuError>)
        requires
            self.wf(),
        ensures
            address < 0xFFFF ==> r == Ok::<u16, CpuError>(spec_read_u16(self@, address)),
            address == 0xFFFF ==> r == Err::<u16, CpuError>(CpuError::AddressOutOfRange),
    {
        if address == 0xFFFF {
            Err(CpuError::AddressOutOfRange)
        } else {
            let lo = self.read(address);
            let hi = self.read(address + 1);
            Ok(lo as u16 + hi as u16 * 0x100)
        }
    }

    /// Read `len` consecutive bytes starting at `address`; the read fails
    /// exactly when the range would run past the end of the address space.
    pub fn read_n(&self, address: u16, len: u16) -> (r: Result<Vec<u8>, CpuError>)
        requires
            self.wf(),
        ensures
            address as int + len as int <= MEMORY_SIZE ==> (r matches Ok(bytes) && bytes@
                == self@.subrange(address as int, address as int + len as int)),
            address as int + len as int > MEMORY_SIZE ==> r == Err::<Vec<u8>, CpuError>(
                CpuError::AddressOutOfRange,
            ),
    {
        if address as usize + len as usize > MEMORY_SIZE {
            return Err(CpuError::AddressOutOfRange);
        }
        let mut bytes: Vec<u8> = Vec::new();
        let mut i: u16 = 0;
        while i < len
            invariant
                self.wf(),
                i <= len,
                address as int + len as int <= MEMORY_SIZE,
                bytes@ == self@.subrange(address as int, address as int + i as int),
            decreases len - i,
        {
            bytes.push(self.read(address + i));
            proof {
                assert(bytes@ =~= self@.subrange(address as int, address as int + i as int + 1));
            }
            i = i + 1;
        }
        Ok(bytes)
    }
}

} // verus!
