//! An instruction-level emulator core for a 6502-class 8-bit processor:
//! a memory bus made of fixed blocks, a register file, the addressing-mode
//! resolvers, the operations, and the fetch-decode-execute step.
//!
//! Every fault (an access outside the memory map, a write to ROM, an opcode
//! without an operation, a malformed memory map) is returned as a [`fault::Fault`];
//! no function of this crate panics.

pub mod cpu;
pub mod fault;
pub mod laws;
pub mod machine;
pub mod mmu;
pub mod ops;
pub mod registers;
pub mod snake;
