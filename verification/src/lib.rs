//! The processor and memory of a handheld game console: an 8-bit processor
//! that fetches, decodes and carries out operations against a 16-bit address
//! space, the bus that routes each address to the memory or device behind it,
//! the interrupt logic, and the timer.
//!
//! What the machine does is stated over a model of plain values, in
//! [`machine::Machine`] and [`interconnect::Bus`]; the processor in [`cpu`]
//! and the bus in [`interconnect`] are proved to do exactly that.

pub mod alu;
pub mod clock;
pub mod cpu;
pub mod echo;
pub mod eram;
pub mod error;
pub mod hram;
pub mod interconnect;
pub mod io;
pub mod laws;
pub mod machine;
pub mod opcode;
pub mod register;
pub mod rom;
pub mod sdt;
pub mod timer;
pub mod word;
pub mod wram;
