//! Emulator core for a fifteen-bit, one's-complement guidance computer:
//! word arithmetic, the register and memory map, and instruction decoding
//! and execution.
pub mod arith;
pub mod memory;
pub mod instructions;
pub mod symbols;
