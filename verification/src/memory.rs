//! The read-write (RAM-like) region: zero-initialized byte storage, read and
//! written in little-endian order at widths of 1, 2 or 4 bytes. Addresses
//! here are region-local offsets; the bus translates and bounds-checks them.

use crate::util::{le_read, le_write, zero_bytes, MemorySize};
use vstd::prelude::*;

verus! {

/// Size in bytes of the read-write region in the example address map.
pub const MEMORY_SIZE: u32 = 1024 * 1024;

/// Base address of the read-write region in the example address map.
pub const MEMORY_BASE: u32 = 0x8000_0000;

/// Last address of the read-write region in the example address map.
pub const MEMORY_END: u32 = MEMORY_BASE + MEMORY_SIZE - 1;

pub struct Memory {
    mem: Vec<u8>,
}

impl View for Memory {
    type V = Seq<u8>;

    closed spec fn view(&self) -> Seq<u8> {
        self.mem@
    }
}

impl Memory {
    /// Well-formedness: at least one byte, and the capacity is addressable
    /// with 32 bits.
    pub open spec fn wf(&self) -> bool {
        1 <= self@.len() <= 0xFFFF_FFFF
    }

    /// A zero-filled region of the example map's size.
    pub fn new() -> (r: Memory)
        ensures
            r.wf(),
            r@.len() == MEMORY_SIZE,
            forall|i: int| 0 <= i < r@.len() ==> r@[i] == 0u8,
    {
        Self::with_size(MEMORY_SIZE)
    }

    /// A zero-filled region of a configurable size.
    pub fn with_size(size: u32) -> (r: Memory)
        requires
            1 <= size,
        ensures
            r.wf(),
            r@.len() == size,
            forall|i: int| 0 <= i < r@.len() ==> r@[i] == 0u8,
    {
        Memory { mem: zero_bytes(size as usize) }
    }

    /// How many bytes the region holds.
    pub fn len(&self) -> (n: usize)
        ensures
            n == self@.len(),
    {
        self.mem.len()
    }

    /// The little-endian value at region-local offset `address`. Staying
    /// within the region is a caller contract; the bus checks it.
    pub fn read(&self, address: u32, size: MemorySize) -> (v: u32)
        requires
            self.wf(),
            address + size.width() <= self@.len(),
        ensures
            v == le_read(self@, address as int, size.width()),
    {
        let a = address as usize;
        match size {
            MemorySize::Byte => self.mem[a] as u32,
            MemorySize::HalfWord => self.mem[a] as u32 + self.mem[a + 1] as u32 * 0x100,
            MemorySize::Word => self.mem[a] as u32 + self.mem[a + 1] as u32 * 0x100 + self.mem[a
                + 2] as u32 * 0x1_0000 + self.mem[a + 3] as u32 * 0x100_0000,
        }
    }

    /// Stores the low bytes of `value` at region-local offset `address`,
    /// least significant first; every other byte keeps its value.
    pub fn write(&mut self, address: u32, size: MemorySize, value: u32)
        requires
            old(self).wf(),
            address + size.width() <= old(self)@.len(),
        ensures
            final(self).wf(),
            final(self)@ == le_write(old(self)@, address as int, size.width(), value),
    {
        let a = address as usize;
        match size {
            MemorySize::Byte => {
                self.mem[a] = (value % 0x100) as u8;
            },
            MemorySize::HalfWord => {
                self.mem[a] = (value % 0x100) as u8;
                self.mem[a + 1] = ((value / 0x100) % 0x100) as u8;
            },
            MemorySize::Word => {
                self.mem[a] = (value % 0x100) as u8;
                self.mem[a + 1] = ((value / 0x100) % 0x100) as u8;
                self.mem[a + 2] = ((value / 0x1_0000) % 0x100) as u8;
                self.mem[a + 3] = ((value / 0x100_0000) % 0x100) as u8;
            },
        }
    }
}

} // verus!
