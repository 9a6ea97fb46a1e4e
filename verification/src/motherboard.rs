//! The machine aggregate: one bus and one core, owned together and threaded
//! through the step loop. No process-wide mutable state exists; the driver
//! owns a `Motherboard` and steps it.

use crate::bus::Bus;
use crate::cpu::{cpu_step_spec, Cpu};
use crate::rom::ROM_SIZE;
use crate::util::Fault;
use vstd::prelude::*;

verus! {

/// What stepping the machine up to `fuel` times yields: the register file,
/// the program counter, and the first fault if one arises before the fuel
/// runs out.
pub open spec fn run_spec(bus: Bus, regs: Seq<u32>, pc: u32, fuel: nat) -> (
    Seq<u32>,
    u32,
    Option<Fault>,
)
    decreases fuel,
{
    if fuel == 0 {
        (regs, pc, None)
    } else {
        match cpu_step_spec(bus, regs, pc) {
            Ok(rp) => run_spec(bus, rp.0, rp.1, (fuel - 1) as nat),
            Err(f) => (regs, pc, Some(f)),
        }
    }
}

pub struct Motherboard {
    pub bus: Bus,
    pub cpu: Cpu,
}

impl Motherboard {
    /// Well-formedness of both components.
    pub open spec fn wf(&self) -> bool {
        self.bus.wf() && self.cpu.wf()
    }

    /// A machine with the example address map, an all-zero read-only region,
    /// and the program counter at that region's base.
    pub fn new() -> (m: Motherboard)
        ensures
            m.wf(),
            m.cpu.pc_spec() == m.bus.rom_base_spec(),
            forall|i: int| 0 <= i < 32 ==> m.cpu.regs()[i] == 0u32,
            forall|i: int| 0 <= i < m.bus.rom_view().len() ==> m.bus.rom_view()[i] == 0u8,
            forall|i: int| 0 <= i < m.bus.mem_view().len() ==> m.bus.mem_view()[i] == 0u8,
    {
        Motherboard { bus: Bus::new(), cpu: Cpu::new() }
    }

    /// A machine with the example address map, the read-only region loaded
    /// from the supplied image, and the program counter at that region's
    /// base.
    pub fn from_binary_file(rom: Vec<u8>) -> (m: Motherboard)
        requires
            rom@.len() <= ROM_SIZE,
        ensures
            m.wf(),
            m.cpu.pc_spec() == m.bus.rom_base_spec(),
            forall|i: int| 0 <= i < 32 ==> m.cpu.regs()[i] == 0u32,
            m.bus.rom_view().len() == ROM_SIZE,
            forall|i: int| 0 <= i < rom@.len() ==> m.bus.rom_view()[i] == rom@[i],
            forall|i: int| rom@.len() <= i < m.bus.rom_view().len() ==> m.bus.rom_view()[i]
                == 0u8,
            forall|i: int| 0 <= i < m.bus.mem_view().len() ==> m.bus.mem_view()[i] == 0u8,
    {
        Motherboard { bus: Bus::from_binary_file(rom), cpu: Cpu::new() }
    }

    /// A machine around a configurable bus, the program counter at the
    /// read-only region's base.
    pub fn with_bus(bus: Bus) -> (m: Motherboard)
        requires
            bus.wf(),
        ensures
            m.wf(),
            m.bus == bus,
            m.cpu.pc_spec() == bus.rom_base_spec(),
            forall|i: int| 0 <= i < 32 ==> m.cpu.regs()[i] == 0u32,
    {
        let pc = bus.rom_base();
        Motherboard { cpu: Cpu::with_pc(pc), bus }
    }

    /// Drives the step loop. Every fault is fatal, so the first one ends
    /// the run and is returned; a run that exhausts its step budget without
    /// faulting returns `None`, and the driver may simply call again.
    pub fn run(&mut self, steps: u64) -> (r: Option<Fault>)
        requires
            old(self).wf(),
        ensures
            final(self).wf(),
            final(self).bus == old(self).bus,
            ({
                let end = run_spec(
                    old(self).bus,
                    old(self).cpu.regs(),
                    old(self).cpu.pc_spec(),
                    steps as nat,
                );
                final(self).cpu.regs() == end.0 && final(self).cpu.pc_spec() == end.1 && r
                    == end.2
            }),
    {
        let mut remaining: u64 = steps;
        while remaining > 0
            invariant
                self.cpu.wf(),
                self.bus.wf(),
                self.bus == old(self).bus,
                run_spec(
                    old(self).bus,
                    old(self).cpu.regs(),
                    old(self).cpu.pc_spec(),
                    steps as nat,
                ) == run_spec(self.bus, self.cpu.regs(), self.cpu.pc_spec(), remaining as nat),
            decreases remaining,
        {
            match self.cpu.step(&self.bus) {
                Ok(()) => {
                    remaining = remaining - 1;
                },
                Err(f) => {
                    return Some(f);
                },
            }
        }
        None
    }
}

} // verus!
