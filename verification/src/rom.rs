//! The read-only (ROM-like) region: byte storage loaded once from an
//! externally supplied image and never written by the core. An absent or
//! short image leaves the remainder zero-filled.

use crate::util::{le_read, zero_bytes, MemorySize};
use vstd::prelude::*;

verus! {

/// Size in bytes of the read-only region in the example address map.
pub const ROM_SIZE: u32 = 4096;

/// Base address of the read-only region in the example address map.
pub const ROM_BASE: u32 = 0x0000_1000;

/// Last address of the read-only region in the example address map.
pub const ROM_END: u32 = ROM_BASE + ROM_SIZE - 1;

pub struct Rom {
    rom: Vec<u8>,
}

impl View for Rom {
    type V = Seq<u8>;

    closed spec fn view(&self) -> Seq<u8> {
        self.rom@
    }
}

impl Default for Rom {
    /// Same as `new`: a zero-filled region of the example map's size.
    fn default() -> (r: Rom)
        ensures
            r.wf(),
            r@.len() == ROM_SIZE,
            forall|i: int| 0 <= i < r@.len() ==> r@[i] == 0u8,
    {
        Rom::new()
    }
}

impl Rom {
    /// Well-formedness: at least one byte, and the capacity is addressable
    /// with 32 bits.
    pub open spec fn wf(&self) -> bool {
        1 <= self@.len() <= 0xFFFF_FFFF
    }

    /// A zero-filled region of the example map's size.
    pub fn new() -> (r: Rom)
        ensures
            r.wf(),
            r@.len() == ROM_SIZE,
            forall|i: int| 0 <= i < r@.len() ==> r@[i] == 0u8,
    {
        Rom { rom: zero_bytes(ROM_SIZE as usize) }
    }

    /// A region of the example map's size, holding the supplied image
    /// followed by zero fill.
    pub fn from_binary_file(data: Vec<u8>) -> (r: Rom)
        requires
            data@.len() <= ROM_SIZE,
        ensures
            r.wf(),
            r@.len() == ROM_SIZE,
            forall|i: int| 0 <= i < data@.len() ==> r@[i] == data@[i],
            forall|i: int| data@.len() <= i < r@.len() ==> r@[i] == 0u8,
    {
        Self::with_image(data, ROM_SIZE)
    }

    /// A region of a configurable size, holding the supplied image followed
    /// by zero fill.
    pub fn with_image(data: Vec<u8>, size: u32) -> (r: Rom)
        requires
            1 <= size,
            data@.len() <= size,
        ensures
            r.wf(),
            r@.len() == size,
            forall|i: int| 0 <= i < data@.len() ==> r@[i] == data@[i],
            forall|i: int| data@.len() <= i < r@.len() ==> r@[i] == 0u8,
    {
        let ghost image: Seq<u8> = data@;
        let mut rom = data;
        let n = size as usize;
        while rom.len() < n
            invariant
                image.len() <= rom@.len() <= n,
                forall|i: int| 0 <= i < image.len() ==> rom@[i] == image[i],
                forall|i: int| image.len() <= i < rom@.len() ==> rom@[i] == 0u8,
            decreases n - rom@.len(),
    {
            rom.push(0u8);
        }
        Rom { rom }
    }

    /// How many bytes the region holds.
    pub fn len(&self) -> (n: usize)
        ensures
            n == self@.len(),
    {
        self.rom.len()
    }

    /// The little-endian value at region-local offset `address`. Staying
    /// within the region is a caller contract; the bus checks it.
    pub fn read(&self, address: u32, size: MemorySize) -> (v: u32)
        requires
            self.wf(),
            address + size.width() <= self@.len(),
        ensures
            v == le_read(self@, address as int, size.width()),
    {
        let a = address as usize;
        match size {
            MemorySize::Byte => self.rom[a] as u32,
            MemorySize::HalfWord => self.rom[a] as u32 + self.rom[a + 1] as u32 * 0x100,
            MemorySize::Word => self.rom[a] as u32 + self.rom[a + 1] as u32 * 0x100 + self.rom[a
                + 2] as u32 * 0x1_0000 + self.rom[a + 3] as u32 * 0x100_0000,
        }
    }
}

} // verus!
