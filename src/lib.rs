//! Instruction-level interpreter core for the 8-bit handheld-console CPU:
//! register file, flag logic, operand addressing, opcode decoding and the
//! memory manager the core reads and writes through.

use vstd::prelude::*;

pub mod alu;
pub mod cpu;
pub mod decode;
pub mod laws;
pub mod mmu;
pub mod state;

pub use cpu::CPU;
pub use mmu::MMU;

verus! {

/// The two fatal conditions of the core.
#[derive(Debug, Clone, Copy, PartialEq, Eq, Structural)]
pub enum Fault {
    /// The boot image handed to the memory manager was not 256 bytes long.
    BadBootImage { len: usize },
    /// The opcode fetched by a step has no defined operation.
    UnimplementedOpcode { opcode: u8 },
}

} // verus!
