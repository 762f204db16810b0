//! The textual mnemonic form of instructions: the mnemonic, `Rn` for
//! register operands, plain decimal for addresses and immediates.

use vstd::prelude::*;
use vstd::string::StringExecFns;

use super::{
    AluInstruction, ControlFlowInstruction, DebugInstruction, Instruction, MemoryInstruction,
};
use crate::assembler::{dec_digits, dec_u16};

verus! {

/// A register operand's text.
pub open spec fn reg_operand(r: u8) -> Seq<char> {
    "R"@ + dec_digits(r as nat)
}

/// A boolean operand's text.
pub open spec fn bool_text(b: bool) -> Seq<char> {
    if b {
        "true"@
    } else {
        "false"@
    }
}

/// Renders a register operand.
fn reg_str(r: u8) -> (s: String)
    ensures
        s@ == reg_operand(r),
{
    let mut s = String::from_str("R");
    let digits = dec_u16(r as u16);
    s.append(digits.as_str());
    s
}

/// Renders a decimal operand.
fn num_str(v: u16) -> (s: String)
    ensures
        s@ == dec_digits(v as nat),
{
    dec_u16(v)
}

/// Glues a mnemonic to two register operands.
fn two_reg(m: &str, a: u8, b: u8) -> (s: String)
    ensures
        s@ == m@ + reg_operand(a) + ", "@ + reg_operand(b),
{
    let mut s = String::from_str(m);
    let ra = reg_str(a);
    s.append(ra.as_str());
    s.append(", ");
    let rb = reg_str(b);
    s.append(rb.as_str());
    s
}

/// Glues a mnemonic to three register operands.
fn three_reg(m: &str, a: u8, b: u8, c: u8) -> (s: String)
    ensures
        s@ == m@ + reg_operand(a) + ", "@ + reg_operand(b) + ", "@ + reg_operand(c),
{
    let mut s = two_reg(m, a, b);
    s.append(", ");
    let rc = reg_str(c);
    s.append(rc.as_str());
    s
}

impl AluInstruction {
    /// The mnemonic text of an ALU instruction.
    pub open spec fn spec_mnemonic(self) -> Seq<char> {
        match self {
            AluInstruction::Move(z, x) => "mov   "@ + reg_operand(z) + ", "@ + reg_operand(x),
            AluInstruction::Add(z, x, y) => "add   "@ + reg_operand(z) + ", "@ + reg_operand(x)
                + ", "@ + reg_operand(y),
            AluInstruction::Subtract(z, x, y) => "sub   "@ + reg_operand(z) + ", "@ + reg_operand(
                x,
            ) + ", "@ + reg_operand(y),
            AluInstruction::LogicalAnd(z, x, y) => "and   "@ + reg_operand(z) + ", "@
                + reg_operand(x) + ", "@ + reg_operand(y),
            AluInstruction::LogicalOr(z, x, y) => "or    "@ + reg_operand(z) + ", "@ + reg_operand(
                x,
            ) + ", "@ + reg_operand(y),
            AluInstruction::LogicalNot(z, x) => "not   "@ + reg_operand(z) + ", "@ + reg_operand(
                x,
            ),
            AluInstruction::Increment(z, x) => "inc   "@ + reg_operand(z) + ", "@ + reg_operand(x),
            AluInstruction::Decrement(z, x) => "dec   "@ + reg_operand(z) + ", "@ + reg_operand(x),
            AluInstruction::LShiftLeft(z, x) => "shl   "@ + reg_operand(z) + ", "@ + reg_operand(
                x,
            ),
            AluInstruction::LShiftRight(z, x) => "shr   "@ + reg_operand(z) + ", "@ + reg_operand(
                x,
            ),
            AluInstruction::AShiftLeft(z, x) => "ashl  "@ + reg_operand(z) + ", "@ + reg_operand(
                x,
            ),
            AluInstruction::AShiftRight(z, x) => "ashr  "@ + reg_operand(z) + ", "@ + reg_operand(
                x,
            ),
        }
    }

    /// Renders the mnemonic text.
    pub fn mnemonic(&self) -> (s: String)
        ensures
            s@ == self.spec_mnemonic(),
    {
        match *self {
            AluInstruction::Move(z, x) => two_reg("mov   ", z, x),
            AluInstruction::Add(z, x, y) => three_reg("add   ", z, x, y),
            AluInstruction::Subtract(z, x, y) => three_reg("sub   ", z, x, y),
            AluInstruction::LogicalAnd(z, x, y) => three_reg("and   ", z, x, y),
            AluInstruction::LogicalOr(z, x, y) => three_reg("or    ", z, x, y),
            AluInstruction::LogicalNot(z, x) => two_reg("not   ", z, x),
            AluInstruction::Increment(z, x) => two_reg("inc   ", z, x),
            AluInstruction::Decrement(z, x) => two_reg("dec   ", z, x),
            AluInstruction::LShiftLeft(z, x) => two_reg("shl   ", z, x),
            AluInstruction::LShiftRight(z, x) => two_reg("shr   ", z, x),
            AluInstruction::AShiftLeft(z, x) => two_reg("ashl  ", z, x),
            AluInstruction::AShiftRight(z, x) => two_reg("ashr  ", z, x),
        }
    }
}

impl MemoryInstruction {
    /// The mnemonic text of a memory instruction.
    pub open spec fn spec_mnemonic(self) -> Seq<char> {
        match self {
            MemoryInstruction::Load(z, y) => "ld    "@ + reg_operand(z) + ", "@ + reg_operand(y),
            MemoryInstruction::Store(x, y) => "st    "@ + reg_operand(x) + ", "@ + reg_operand(y),
        }
    }

    /// Renders the mnemonic text.
    pub fn mnemonic(&self) -> (s: String)
        ensures
            s@ == self.spec_mnemonic(),
    {
        match *self {
            MemoryInstruction::Load(z, y) => two_reg("ld    ", z, y),
            MemoryInstruction::Store(x, y) => two_reg("st    ", x, y),
        }
    }
}

impl ControlFlowInstruction {
    /// The mnemonic text of a control-flow instruction.
    pub open spec fn spec_mnemonic(self) -> Seq<char> {
        match self {
            ControlFlowInstruction::Jump(a) => "jmp   "@ + dec_digits(a as nat),
            ControlFlowInstruction::JumpZero(a) => "jmpz  "@ + dec_digits(a as nat),
            ControlFlowInstruction::JumpSign(a) => "jmps  "@ + dec_digits(a as nat),
            ControlFlowInstruction::JumpCarry(a) => "jmpc  "@ + dec_digits(a as nat),
            ControlFlowInstruction::JumpNotZero(a) => "jmpnz "@ + dec_digits(a as nat),
            ControlFlowInstruction::JumpNotSign(a) => "jmpns "@ + dec_digits(a as nat),
            ControlFlowInstruction::JumpNotCarry(a) => "jmpnc "@ + dec_digits(a as nat),
        }
    }

    /// Renders the mnemonic text.
    pub fn mnemonic(&self) -> (s: String)
        ensures
            s@ == self.spec_mnemonic(),
    {
        let (m, a): (&'static str, u16) = match *self {
            ControlFlowInstruction::Jump(a) => ("jmp   ", a),
            ControlFlowInstruction::JumpZero(a) => ("jmpz  ", a),
            ControlFlowInstruction::JumpSign(a) => ("jmps  ", a),
            ControlFlowInstruction::JumpCarry(a) => ("jmpc  ", a),
            ControlFlowInstruction::JumpNotZero(a) => ("jmpnz ", a),
            ControlFlowInstruction::JumpNotSign(a) => ("jmpns ", a),
            ControlFlowInstruction::JumpNotCarry(a) => ("jmpnc ", a),
        };
        let mut s = String::from_str(m);
        let digits = num_str(a);
        s.append(digits.as_str());
        s
    }
}

impl DebugInstruction {
    /// The mnemonic text of a debug instruction.
    pub open spec fn spec_mnemonic(self) -> Seq<char> {
        match self {
            DebugInstruction::SetRegister(r, v) => "sreg  "@ + reg_operand(r) + ", "@ + dec_digits(
                v as nat,
            ),
            DebugInstruction::SetFlagZero(v) => "sfz   "@ + bool_text(v),
            DebugInstruction::SetFlagSign(v) => "sfs   "@ + bool_text(v),
            DebugInstruction::SetFlagCarry(v) => "sfc   "@ + bool_text(v),
            DebugInstruction::SetMemory(a, v) => "smem  "@ + dec_digits(a as nat) + ", "@
                + dec_digits(v as nat),
            DebugInstruction::Breakpoint(a) => "brk   "@ + dec_digits(a as nat),
            DebugInstruction::Halt => "halt"@,
        }
    }

    /// Renders the mnemonic text.
    pub fn mnemonic(&self) -> (s: String)
        ensures
            s@ == self.spec_mnemonic(),
    {
        match *self {
            DebugInstruction::SetRegister(r, v) => {
                let mut s = String::from_str("sreg  ");
                let rr = reg_str(r);
                s.append(rr.as_str());
                s.append(", ");
                let vv = num_str(v);
                s.append(vv.as_str());
                s
            },
            DebugInstruction::SetFlagZero(v) => {
                let mut s = String::from_str("sfz   ");
                s.append(if v { "true" } else { "false" });
                s
            },
            DebugInstruction::SetFlagSign(v) => {
                let mut s = String::from_str("sfs   ");
                s.append(if v { "true" } else { "false" });
                s
            },
            DebugInstruction::SetFlagCarry(v) => {
                let mut s = String::from_str("sfc   ");
                s.append(if v { "true" } else { "false" });
                s
            },
            DebugInstruction::SetMemory(a, v) => {
                let mut s = String::from_str("smem  ");
                let aa = num_str(a);
                s.append(aa.as_str());
                s.append(", ");
                let vv = num_str(v);
                s.append(vv.as_str());
                s
            },
            DebugInstruction::Breakpoint(a) => {
                let mut s = String::from_str("brk   ");
                let aa = num_str(a);
                s.append(aa.as_str());
                s
            },
            DebugInstruction::Halt => String::from_str("halt"),
        }
    }
}

impl Instruction {
    /// The mnemonic text of any instruction.
    pub open spec fn spec_mnemonic(self) -> Seq<char> {
        match self {
            Instruction::Alu(op) => op.spec_mnemonic(),
            Instruction::Memory(op) => op.spec_mnemonic(),
            Instruction::ControlFlow(op) => op.spec_mnemonic(),
            Instruction::Debug(op) => op.spec_mnemonic(),
            Instruction::NoOperation => "nop"@,
        }
    }

    /// Renders the mnemonic text.
    pub fn mnemonic(&self) -> (s: String)
        ensures
            s@ == self.spec_mnemonic(),
    {
        match *self {
            Instruction::Alu(op) => op.mnemonic(),
            Instruction::Memory(op) => op.mnemonic(),
            Instruction::ControlFlow(op) => op.mnemonic(),
            Instruction::Debug(op) => op.mnemonic(),
            Instruction::NoOperation => String::from_str("nop"),
        }
    }
}

} // verus!
