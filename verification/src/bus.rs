//! The address space: routes byte-addressable reads and writes to the unique
//! region whose range contains the address — the read-only region or the
//! read-write one — after translating to a region-local offset. An unmapped
//! address, or an access that would run past its region's end, is an
//! `AddressFault`; a write into the read-only region is a
//! `WriteProtectFault`. The bus imposes no alignment requirement.

use crate::memory::{Memory, MEMORY_BASE, MEMORY_SIZE};
use crate::rom::{Rom, ROM_BASE, ROM_SIZE};
use crate::util::{le_read, le_write, lemma_le_write_read, Fault, MemorySize};
use vstd::prelude::*;

verus! {

pub struct Bus {
    rom_base: u32,
    mem_base: u32,
    rom: Rom,
    mem: Memory,
}

impl Default for Bus {
    /// Same as `new`: the example address map with both regions zeroed.
    fn default() -> (r: Bus)
        ensures
            r.wf(),
            r.rom_base_spec() == ROM_BASE,
            r.mem_base_spec() == MEMORY_BASE,
            r.rom_view().len() == ROM_SIZE,
            r.mem_view().len() == MEMORY_SIZE,
            forall|i: int| 0 <= i < r.rom_view().len() ==> r.rom_view()[i] == 0u8,
            forall|i: int| 0 <= i < r.mem_view().len() ==> r.mem_view()[i] == 0u8,
    {
        Bus::new()
    }
}

impl Bus {
    /// Base address of the read-only region.
    pub closed spec fn rom_base_spec(&self) -> u32 {
        self.rom_base
    }

    /// Base address of the read-write region.
    pub closed spec fn mem_base_spec(&self) -> u32 {
        self.mem_base
    }

    /// The bytes of the read-only region.
    pub closed spec fn rom_view(&self) -> Seq<u8> {
        self.rom@
    }

    /// The bytes of the read-write region.
    pub closed spec fn mem_view(&self) -> Seq<u8> {
        self.mem@
    }

    /// Whether the read-only region's range contains `address`.
    pub open spec fn rom_contains(&self, address: u32) -> bool {
        self.rom_base_spec() <= address && address - self.rom_base_spec()
            < self.rom_view().len()
    }

    /// Whether the read-write region's range contains `address`.
    pub open spec fn mem_contains(&self, address: u32) -> bool {
        self.mem_base_spec() <= address && address - self.mem_base_spec()
            < self.mem_view().len()
    }

    /// Well-formedness: both regions are non-empty, lie within the 32-bit
    /// address space, and do not overlap.
    pub open spec fn wf(&self) -> bool {
        &&& 1 <= self.rom_view().len() <= 0xFFFF_FFFF
        &&& 1 <= self.mem_view().len() <= 0xFFFF_FFFF
        &&& self.rom_base_spec() + self.rom_view().len() <= 0x1_0000_0000
        &&& self.mem_base_spec() + self.mem_view().len() <= 0x1_0000_0000
        &&& (self.rom_base_spec() + self.rom_view().len() <= self.mem_base_spec()
            || self.mem_base_spec() + self.mem_view().len() <= self.rom_base_spec())
    }

    /// What a read of width `w` at `address` returns: the little-endian value
    /// of the containing region's bytes, or an `AddressFault` when no region
    /// contains the address or the access would run past the region's end.
    pub open spec fn read_spec(&self, address: u32, w: int) -> Result<u32, Fault> {
        if self.rom_contains(address) {
            if address - self.rom_base_spec() + w <= self.rom_view().len() {
                Ok(le_read(self.rom_view(), address - self.rom_base_spec(), w))
            } else {
                Err(Fault::AddressFault { address })
            }
        } else if self.mem_contains(address) {
            if address - self.mem_base_spec() + w <= self.mem_view().len() {
                Ok(le_read(self.mem_view(), address - self.mem_base_spec(), w))
            } else {
                Err(Fault::AddressFault { address })
            }
        } else {
            Err(Fault::AddressFault { address })
        }
    }

    /// Whether a write of width `w` at `address` succeeds: it must fall in
    /// the read-write region and fit within it.
    pub open spec fn write_ok(&self, address: u32, w: int) -> bool {
        self.mem_contains(address) && address - self.mem_base_spec() + w
            <= self.mem_view().len()
    }

    /// A bus with the example address map: the read-only region loaded with
    /// zeros and the zero-initialized read-write region.
    pub fn new() -> (r: Bus)
        ensures
            r.wf(),
            r.rom_base_spec() == ROM_BASE,
            r.mem_base_spec() == MEMORY_BASE,
            r.rom_view().len() == ROM_SIZE,
            r.mem_view().len() == MEMORY_SIZE,
            forall|i: int| 0 <= i < r.rom_view().len() ==> r.rom_view()[i] == 0u8,
            forall|i: int| 0 <= i < r.mem_view().len() ==> r.mem_view()[i] == 0u8,
    {
        Bus { rom_base: ROM_BASE, mem_base: MEMORY_BASE, rom: Rom::new(), mem: Memory::new() }
    }

    /// A bus with the example address map, the read-only region initialized
    /// from the supplied image (zero fill past its end).
    pub fn from_binary_file(data: Vec<u8>) -> (r: Bus)
        requires
            data@.len() <= ROM_SIZE,
        ensures
            r.wf(),
            r.rom_base_spec() == ROM_BASE,
            r.mem_base_spec() == MEMORY_BASE,
            r.rom_view().len() == ROM_SIZE,
            r.mem_view().len() == MEMORY_SIZE,
            forall|i: int| 0 <= i < data@.len() ==> r.rom_view()[i] == data@[i],
            forall|i: int| data@.len() <= i < r.rom_view().len() ==> r.rom_view()[i] == 0u8,
            forall|i: int| 0 <= i < r.mem_view().len() ==> r.mem_view()[i] == 0u8,
    {
        Bus {
            rom_base: ROM_BASE,
            mem_base: MEMORY_BASE,
            rom: Rom::from_binary_file(data),
            mem: Memory::new(),
        }
    }

    /// A bus with a configurable address map. The regions must be laid out
    /// within the 32-bit address space without overlapping.
    pub fn with_layout(rom_base: u32, rom: Rom, mem_base: u32, mem: Memory) -> (r: Bus)
        requires
            rom.wf(),
            mem.wf(),
            rom_base + rom@.len() <= 0x1_0000_0000,
            mem_base + mem@.len() <= 0x1_0000_0000,
            rom_base + rom@.len() <= mem_base || mem_base + mem@.len() <= rom_base,
        ensures
            r.wf(),
            r.rom_base_spec() == rom_base,
            r.mem_base_spec() == mem_base,
            r.rom_view() == rom@,
            r.mem_view() == mem@,
    {
        Bus { rom_base, mem_base, rom, mem }
    }

    /// The base address of the read-only region.
    pub fn rom_base(&self) -> (b: u32)
        ensures
            b == self.rom_base_spec(),
    {
        self.rom_base
    }

    /// The base address of the read-write region.
    pub fn mem_base(&self) -> (b: u32)
        ensures
            b == self.mem_base_spec(),
    {
        self.mem_base
    }

    /// Routes a read to the region containing `address`, translated to a
    /// region-local offset; multi-byte values are little-endian.
    pub fn read(&self, address: u32, size: MemorySize) -> (r: Result<u32, Fault>)
        requires
            self.wf(),
        ensures
            r == self.read_spec(address, size.width()),
    {
        let w = size.bytes();
        if address >= self.rom_base {
            let off = address - self.rom_base;
            if (off as usize) < self.rom.len() {
                return if w <= self.rom.len() && off as usize <= self.rom.len() - w {
                    Ok(self.rom.read(off, size))
                } else {
                    Err(Fault::AddressFault { address })
                };
            }
        }
        if address >= self.mem_base {
            let off = address - self.mem_base;
            if (off as usize) < self.mem.len() {
                return if w <= self.mem.len() && off as usize <= self.mem.len() - w {
                    Ok(self.mem.read(off, size))
                } else {
                    Err(Fault::AddressFault { address })
                };
            }
        }
        Err(Fault::AddressFault { address })
    }

    /// Routes a write: the read-only region refuses it with
    /// `WriteProtectFault`; the read-write region stores the low bytes of
    /// `value` little-endian at the translated offset; anywhere else is an
    /// `AddressFault`. Nothing outside the written bytes changes.
    pub fn write(&mut self, address: u32, size: MemorySize, value: u32) -> (r: Result<(), Fault>)
        requires
            old(self).wf(),
        ensures
            final(self).wf(),
            final(self).rom_base_spec() == old(self).rom_base_spec(),
            final(self).mem_base_spec() == old(self).mem_base_spec(),
            final(self).rom_view() == old(self).rom_view(),
            ({
                let w = size.width();
                if old(self).rom_contains(address) {
                    r == Err::<(), Fault>(Fault::WriteProtectFault { address })
                        && final(self).mem_view() == old(self).mem_view()
                } else if old(self).write_ok(address, w) {
                    r == Ok::<(), Fault>(()) && final(self).mem_view() == le_write(
                        old(self).mem_view(),
                        address - old(self).mem_base_spec(),
                        w,
                        value,
                    )
                } else {
                    r == Err::<(), Fault>(Fault::AddressFault { address })
                        && final(self).mem_view() == old(self).mem_view()
                }
            }),
    {
        let w = size.bytes();
        if address >= self.rom_base {
            let off = address - self.rom_base;
            if (off as usize) < self.rom.len() {
                return Err(Fault::WriteProtectFault { address });
            }
        }
        if address >= self.mem_base {
            let off = address - self.mem_base;
            if (off as usize) < self.mem.len() {
                return if w <= self.mem.len() && off as usize <= self.mem.len() - w {
                    self.mem.write(off, size, value);
                    Ok(())
                } else {
                    Err(Fault::AddressFault { address })
                };
            }
        }
        Err(Fault::AddressFault { address })
    }
}

/// After a successful write, a read of the same address at the same width
/// returns the written value, reduced to the width of the access. `before`
/// is the bus the write was applied to and `after` any bus in the state its
/// contract describes.
pub proof fn lemma_write_then_read(before: Bus, after: Bus, address: u32, w: int, value: u32)
    requires
        before.wf(),
        w == 1 || w == 2 || w == 4,
        before.write_ok(address, w),
        after.rom_base_spec() == before.rom_base_spec(),
        after.mem_base_spec() == before.mem_base_spec(),
        after.rom_view() == before.rom_view(),
        after.mem_view() == le_write(
            before.mem_view(),
            address - before.mem_base_spec(),
            w,
            value,
        ),
    ensures
        w == 1 ==> after.read_spec(address, w) == Ok::<u32, Fault>((value % 0x100) as u32),
        w == 2 ==> after.read_spec(address, w) == Ok::<u32, Fault>((value % 0x1_0000) as u32),
        w == 4 ==> after.read_spec(address, w) == Ok::<u32, Fault>(value),
{
    let off = address - before.mem_base_spec();
    lemma_le_write_read(before.mem_view(), off, w, value);
    assert(after.mem_view().len() == before.mem_view().len());
    assert(!after.rom_contains(address));
}

} // verus!
