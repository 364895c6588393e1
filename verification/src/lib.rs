//! A verified instruction-level emulator core for the MOS 6502 CPU.
//!
//! The crate models the architectural state of the processor (registers,
//! packed status flags, a cycle counter) and executes one instruction at a
//! time against a caller-supplied memory bus.  Every public operation carries
//! a contract that pins down, bit for bit, the registers, flags, memory and
//! cycle count after the call, stated against a mathematical model of the
//! machine (`CpuState`).

pub mod addressing;
pub mod addressing_modes;
pub mod bus;
pub mod cpu;
pub mod instructions;
pub mod laws;
pub mod registers;
pub mod state;
