//! The instruction set: a tagged union of four instruction classes plus the
//! no-operation default, together with the static operand bound check.

use vstd::prelude::*;

use crate::processor::{REG_COUNT, ROM_SIZE};

pub mod display;
pub mod from_str;
pub mod roundtrip;
pub mod to_vhdl;

verus! {

/// Arithmetic/logic instructions. Operands are register indices; the first
/// operand is the destination register.
#[derive(Clone, Copy, Debug, PartialEq, Eq, Structural)]
pub enum AluInstruction {
    Move(u8, u8),
    Add(u8, u8, u8),
    Subtract(u8, u8, u8),
    LogicalAnd(u8, u8, u8),
    LogicalOr(u8, u8, u8),
    LogicalNot(u8, u8),
    Increment(u8, u8),
    Decrement(u8, u8),
    LShiftLeft(u8, u8),
    LShiftRight(u8, u8),
    AShiftLeft(u8, u8),
    AShiftRight(u8, u8),
}

/// Memory instructions. `Load(z, y)` reads `ram[reg[y]]` into `reg[z]`;
/// `Store(x, y)` writes `reg[x]` to `ram[reg[y]]`.
#[derive(Clone, Copy, Debug, PartialEq, Eq, Structural)]
pub enum MemoryInstruction {
    Load(u8, u8),
    Store(u8, u8),
}

/// Control-flow instructions carrying an absolute program address.
#[derive(Clone, Copy, Debug, PartialEq, Eq, Structural)]
pub enum ControlFlowInstruction {
    Jump(u16),
    JumpZero(u16),
    JumpSign(u16),
    JumpCarry(u16),
    JumpNotZero(u16),
    JumpNotSign(u16),
    JumpNotCarry(u16),
}

/// Debugger-only instructions; they have no hardware encoding.
#[derive(Clone, Copy, Debug, PartialEq, Eq, Structural)]
pub enum DebugInstruction {
    SetRegister(u8, u16),
    SetFlagZero(bool),
    SetFlagSign(bool),
    SetFlagCarry(bool),
    SetMemory(u16, u16),
    Breakpoint(u16),
    Halt,
}

/// One instruction word. A zero-initialized ROM cell reads as `NoOperation`.
#[derive(Clone, Copy, Debug, PartialEq, Eq, Structural)]
pub enum Instruction {
    Alu(AluInstruction),
    Memory(MemoryInstruction),
    ControlFlow(ControlFlowInstruction),
    Debug(DebugInstruction),
    NoOperation,
}

/// Whether a register index names one of the machine's registers.
pub open spec fn reg_ok(r: u8) -> bool {
    (r as usize) < REG_COUNT
}

/// Whether a program address names one of the machine's ROM cells.
pub open spec fn addr_ok(a: u16) -> bool {
    (a as usize) < ROM_SIZE
}

/// Static bound check over an instruction's operands: every register index
/// must name an existing register and every jump address an existing ROM cell.
pub trait RegisterBoundCheck {
    /// What it means for the operands to be in bounds.
    spec fn bound_spec(&self) -> bool;

    /// Decides `bound_spec`.
    fn reg_bound_check(&self) -> (b: bool)
        ensures
            b == self.bound_spec(),
    ;
}

impl RegisterBoundCheck for AluInstruction {
    open spec fn bound_spec(&self) -> bool {
        match *self {
            AluInstruction::Move(a, b) => reg_ok(a) && reg_ok(b),
            AluInstruction::Add(a, b, c) => reg_ok(a) && reg_ok(b) && reg_ok(c),
            AluInstruction::Subtract(a, b, c) => reg_ok(a) && reg_ok(b) && reg_ok(c),
            AluInstruction::LogicalAnd(a, b, c) => reg_ok(a) && reg_ok(b) && reg_ok(c),
            AluInstruction::LogicalOr(a, b, c) => reg_ok(a) && reg_ok(b) && reg_ok(c),
            AluInstruction::LogicalNot(a, b) => reg_ok(a) && reg_ok(b),
            AluInstruction::Increment(a, b) => reg_ok(a) && reg_ok(b),
            AluInstruction::Decrement(a, b) => reg_ok(a) && reg_ok(b),
            AluInstruction::LShiftLeft(a, b) => reg_ok(a) && reg_ok(b),
            AluInstruction::LShiftRight(a, b) => reg_ok(a) && reg_ok(b),
            AluInstruction::AShiftLeft(a, b) => reg_ok(a) && reg_ok(b),
            AluInstruction::AShiftRight(a, b) => reg_ok(a) && reg_ok(b),
        }
    }

    fn reg_bound_check(&self) -> (b: bool) {
        match *self {
            AluInstruction::Move(a, b) => (a as usize) < REG_COUNT && (b as usize) < REG_COUNT,
            AluInstruction::Add(a, b, c) => {
                (a as usize) < REG_COUNT && (b as usize) < REG_COUNT && (c as usize) < REG_COUNT
            },
            AluInstruction::Subtract(a, b, c) => {
                (a as usize) < REG_COUNT && (b as usize) < REG_COUNT && (c as usize) < REG_COUNT
            },
            AluInstruction::LogicalAnd(a, b, c) => {
                (a as usize) < REG_COUNT && (b as usize) < REG_COUNT && (c as usize) < REG_COUNT
            },
            AluInstruction::LogicalOr(a, b, c) => {
                (a as usize) < REG_COUNT && (b as usize) < REG_COUNT && (c as usize) < REG_COUNT
            },
            AluInstruction::LogicalNot(a, b) => {
                (a as usize) < REG_COUNT && (b as usize) < REG_COUNT
            },
            AluInstruction::Increment(a, b) => (a as usize) < REG_COUNT && (b as usize) < REG_COUNT,
            AluInstruction::Decrement(a, b) => (a as usize) < REG_COUNT && (b as usize) < REG_COUNT,
            AluInstruction::LShiftLeft(a, b) => {
                (a as usize) < REG_COUNT && (b as usize) < REG_COUNT
            },
            AluInstruction::LShiftRight(a, b) => {
                (a as usize) < REG_COUNT && (b as usize) < REG_COUNT
            },
            AluInstruction::AShiftLeft(a, b) => {
                (a as usize) < REG_COUNT && (b as usize) < REG_COUNT
            },
            AluInstruction::AShiftRight(a, b) => {
                (a as usize) < REG_COUNT && (b as usize) < REG_COUNT
            },
        }
    }
}

impl RegisterBoundCheck for MemoryInstruction {
    open spec fn bound_spec(&self) -> bool {
        match *self {
            MemoryInstruction::Load(a, b) => reg_ok(a) && reg_ok(b),
            MemoryInstruction::Store(a, b) => reg_ok(a) && reg_ok(b),
        }
    }

    fn reg_bound_check(&self) -> (b: bool) {
        match *self {
            MemoryInstruction::Load(a, b) => (a as usize) < REG_COUNT && (b as usize) < REG_COUNT,
            MemoryInstruction::Store(a, b) => (a as usize) < REG_COUNT && (b as usize) < REG_COUNT,
        }
    }
}

impl RegisterBoundCheck for ControlFlowInstruction {
    open spec fn bound_spec(&self) -> bool {
        addr_ok(self.spec_address())
    }

    fn reg_bound_check(&self) -> (b: bool) {
        (self.get_address() as usize) < ROM_SIZE
    }
}

impl RegisterBoundCheck for Instruction {
    open spec fn bound_spec(&self) -> bool {
        match *self {
            Instruction::Alu(i) => i.bound_spec(),
            Instruction::Memory(i) => i.bound_spec(),
            Instruction::ControlFlow(i) => i.bound_spec(),
            _ => true,
        }
    }

    fn reg_bound_check(&self) -> (b: bool) {
        match *self {
            Instruction::Alu(i) => i.reg_bound_check(),
            Instruction::Memory(i) => i.reg_bound_check(),
            Instruction::ControlFlow(i) => i.reg_bound_check(),
            _ => true,
        }
    }
}

impl ControlFlowInstruction {
    /// The jump target carried by any control-flow instruction.
    pub open spec fn spec_address(self) -> u16 {
        match self {
            ControlFlowInstruction::Jump(a) => a,
            ControlFlowInstruction::JumpZero(a) => a,
            ControlFlowInstruction::JumpSign(a) => a,
            ControlFlowInstruction::JumpCarry(a) => a,
            ControlFlowInstruction::JumpNotZero(a) => a,
            ControlFlowInstruction::JumpNotSign(a) => a,
            ControlFlowInstruction::JumpNotCarry(a) => a,
        }
    }

    /// Returns the jump target carried by the instruction.
    pub fn get_address(&self) -> (a: u16)
        ensures
            a == self.spec_address(),
    {
        match *self {
            ControlFlowInstruction::Jump(a) => a,
            ControlFlowInstruction::JumpZero(a) => a,
            ControlFlowInstruction::JumpSign(a) => a,
            ControlFlowInstruction::JumpCarry(a) => a,
            ControlFlowInstruction::JumpNotZero(a) => a,
            ControlFlowInstruction::JumpNotSign(a) => a,
            ControlFlowInstruction::JumpNotCarry(a) => a,
        }
    }
}

} // verus!
