//! Execution core of a 16-bit x86-family CPU emulator.
//!
//! The crate models a register file, a flat 64 KiB memory, an operand decoder
//! built around the ModRM byte, an opcode dispatcher and a breakpoint-driven
//! stepping controller. Every operation carries a contract stated over the
//! mathematical view of the machine.

pub mod breakpoints;
pub mod control;
pub mod cpu;
pub mod decode;
pub mod execute;
pub mod fault;
pub mod laws;
pub mod memory;
pub mod number;
pub mod operand;
pub mod registers;
pub mod snapshot;
