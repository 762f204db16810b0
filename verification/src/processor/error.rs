//! Errors reported by decoding and emulation.

use vstd::prelude::*;

verus! {

/// Everything that can go wrong while decoding a binary instruction word or
/// executing a program.
///
/// `InvalidLength`, `BinaryParsing` and `InvalidInstruction` are decode
/// errors; `OutOfRange` reports an operand outside its domain at execution
/// time; `StackOverflow` reports a program counter that ran off the end of
/// the ROM without a jump.
#[derive(Clone, Copy, Debug, PartialEq, Eq, Structural)]
pub enum EmulationError {
    InvalidLength,
    BinaryParsing,
    InvalidInstruction,
    OutOfRange,
    StackOverflow,
}

} // verus!
