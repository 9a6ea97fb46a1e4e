//! An instruction-set simulator for a subset of the 32-bit RISC-V
//! architecture (RV32I): a register file, a byte-addressable bus routing
//! accesses to a read-only and a read-write region, a decoder from 32-bit
//! instruction words to typed operations, and an execution unit applying
//! their register and program-counter effects.

pub mod bus;
pub mod cpu;
pub mod memory;
pub mod motherboard;
pub mod register;
pub mod rom;
pub mod util;
