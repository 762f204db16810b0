//! Core of a toolchain and debugger for a small pedagogical 16-bit
//! accumulator-style processor.
//!
//! The crate covers the instruction set with its bit-exact 15-bit binary
//! encoding, a deterministic tick-based emulator over fixed-size
//! ROM/RAM/register/flag state, a two-pass assembly parser, a loader with a
//! static bound check, and the generators for the hardware description
//! artifacts (instruction ROM and data RAM tables).

pub mod assembler;
pub mod instructions;
pub mod load;
pub mod parser;
pub mod processor;
