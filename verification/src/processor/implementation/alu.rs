//! Execution of the arithmetic/logic instructions.
//!
//! All operations clear the three flags first and then set `zero` and `sign`
//! from the result. The shift operations sample `carry` (and, for the
//! arithmetic right shift, the sign bit) from the pre-shift value of the
//! *destination* register, not the source; the hardware behaves the same
//! way, so this is specified rather than repaired.

use vstd::prelude::*;

use super::super::{EmulationError, ProcState, Processor, REG_COUNT};
use crate::instructions::{AluInstruction, RegisterBoundCheck};

verus! {

/// The destination register index of an ALU instruction.
pub open spec fn alu_dst(op: AluInstruction) -> u8 {
    match op {
        AluInstruction::Move(z, _) => z,
        AluInstruction::Add(z, _, _) => z,
        AluInstruction::Subtract(z, _, _) => z,
        AluInstruction::LogicalAnd(z, _, _) => z,
        AluInstruction::LogicalOr(z, _, _) => z,
        AluInstruction::LogicalNot(z, _) => z,
        AluInstruction::Increment(z, _) => z,
        AluInstruction::Decrement(z, _) => z,
        AluInstruction::LShiftLeft(z, _) => z,
        AluInstruction::LShiftRight(z, _) => z,
        AluInstruction::AShiftLeft(z, _) => z,
        AluInstruction::AShiftRight(z, _) => z,
    }
}

/// The 16-bit value an ALU instruction writes to its destination register,
/// given the register file it executes over.
pub open spec fn alu_value(op: AluInstruction, regs: Seq<u16>) -> u16 {
    match op {
        AluInstruction::Move(_, x) => regs[x as int],
        AluInstruction::Add(_, x, y) => vstd::wrapping::u16_specs::wrapping_add(
            regs[x as int],
            regs[y as int],
        ),
        AluInstruction::Subtract(_, x, y) => vstd::wrapping::u16_specs::wrapping_sub(
            regs[x as int],
            regs[y as int],
        ),
        AluInstruction::LogicalAnd(_, x, y) => regs[x as int] & regs[y as int],
        AluInstruction::LogicalOr(_, x, y) => regs[x as int] | regs[y as int],
        AluInstruction::LogicalNot(_, x) => !regs[x as int],
        AluInstruction::Increment(_, x) => vstd::wrapping::u16_specs::wrapping_add(
            regs[x as int],
            1u16,
        ),
        AluInstruction::Decrement(_, x) => vstd::wrapping::u16_specs::wrapping_sub(
            regs[x as int],
            1u16,
        ),
        AluInstruction::LShiftLeft(_, x) => regs[x as int] << 1u16,
        AluInstruction::LShiftRight(_, x) => regs[x as int] >> 1u16,
        AluInstruction::AShiftLeft(_, x) => regs[x as int] << 1u16,
        AluInstruction::AShiftRight(z, x) => (regs[x as int] >> 1u16) | (regs[z as int] & 0x8000),
    }
}

/// The carry flag an ALU instruction leaves behind: the carry/borrow of the
/// additive operations, the sampled bit of the shifts, and `false` for the
/// purely logical operations.
pub open spec fn alu_carry(op: AluInstruction, regs: Seq<u16>) -> bool {
    match op {
        AluInstruction::Move(_, _) => false,
        AluInstruction::Add(_, x, y) => regs[x as int] + regs[y as int] > 0xffff,
        AluInstruction::Subtract(_, x, y) => regs[x as int] < regs[y as int],
        AluInstruction::LogicalAnd(_, _, _) => false,
        AluInstruction::LogicalOr(_, _, _) => false,
        AluInstruction::LogicalNot(_, _) => false,
        AluInstruction::Increment(_, x) => regs[x as int] == 0xffff,
        AluInstruction::Decrement(_, x) => regs[x as int] == 0,
        AluInstruction::LShiftLeft(z, _) => regs[z as int] & 0x8000 != 0,
        AluInstruction::LShiftRight(z, _) => regs[z as int] & 0x0001 != 0,
        AluInstruction::AShiftLeft(z, _) => regs[z as int] & 0x8000 != 0,
        AluInstruction::AShiftRight(z, _) => regs[z as int] & 0x0001 != 0,
    }
}

/// The machine state after an in-bounds ALU instruction: the destination
/// register holds the result, `zero` and `sign` describe the result, and
/// `carry` is the operation's carry.
pub open spec fn spec_execute_alu(s: ProcState, op: AluInstruction) -> ProcState {
    let v = alu_value(op, s.regs);
    ProcState {
        regs: s.regs.update(alu_dst(op) as int, v),
        zero: v == 0,
        sign: v & 0x8000 != 0,
        carry: alu_carry(op, s.regs),
        ..s
    }
}

/// The purely logical ALU operations — move, and, or, not — set only `zero`
/// and `sign`: the carry flag is always clear after any of them, whatever
/// the register file held.
pub proof fn lemma_logic_ops_leave_carry_clear(s: ProcState, op: AluInstruction)
    requires
        op is Move || op is LogicalAnd || op is LogicalOr || op is LogicalNot,
    ensures
        !spec_execute_alu(s, op).carry,
{
}

impl Processor {
    /// Runs one ALU instruction. An operand outside the register file yields
    /// `OutOfRange` and leaves the machine unchanged except for the flags,
    /// which are already cleared at that point.
    pub(in crate::processor) fn execute_alu(&mut self, op: AluInstruction) -> (r: Result<
        (),
        EmulationError,
    >)
        requires
            old(self)@.wf(),
        ensures
            match r {
                Ok(_) => op.bound_spec() && final(self)@ == spec_execute_alu(old(self)@, op),
                Err(e) => {
                    &&& e == EmulationError::OutOfRange
                    &&& !op.bound_spec()
                    &&& final(self)@ == old(self)@.with_flags_cleared()
                },
            },
    {
        self.flags.unset();
        let (z, v, c): (u8, u16, bool) = match op {
            AluInstruction::Move(z, x) => {
                if (z as usize) >= REG_COUNT || (x as usize) >= REG_COUNT {
                    return Err(EmulationError::OutOfRange);
                }
                (z, self.registers[x as usize], false)
            },
            AluInstruction::Add(z, x, y) => {
                if (z as usize) >= REG_COUNT || (x as usize) >= REG_COUNT || (y as usize)
                    >= REG_COUNT {
                    return Err(EmulationError::OutOfRange);
                }
                let a = self.registers[x as usize];
                let b = self.registers[y as usize];
                (z, a.wrapping_add(b), (a as u32) + (b as u32) > 0xffff)
            },
            AluInstruction::Subtract(z, x, y) => {
                if (z as usize) >= REG_COUNT || (x as usize) >= REG_COUNT || (y as usize)
                    >= REG_COUNT {
                    return Err(EmulationError::OutOfRange);
                }
                let a = self.registers[x as usize];
                let b = self.registers[y as usize];
                (z, a.wrapping_sub(b), a < b)
            },
            AluInstruction::LogicalAnd(z, x, y) => {
                if (z as usize) >= REG_COUNT || (x as usize) >= REG_COUNT || (y as usize)
                    >= REG_COUNT {
                    return Err(EmulationError::OutOfRange);
                }
                (z, self.registers[x as usize] & self.registers[y as usize], false)
            },
            AluInstruction::LogicalOr(z, x, y) => {
                if (z as usize) >= REG_COUNT || (x as usize) >= REG_COUNT || (y as usize)
                    >= REG_COUNT {
                    return Err(EmulationError::OutOfRange);
                }
                (z, self.registers[x as usize] | self.registers[y as usize], false)
            },
            AluInstruction::LogicalNot(z, x) => {
                if (z as usize) >= REG_COUNT || (x as usize) >= REG_COUNT {
                    return Err(EmulationError::OutOfRange);
                }
                (z, !self.registers[x as usize], false)
            },
            AluInstruction::Increment(z, x) => {
                if (z as usize) >= REG_COUNT || (x as usize) >= REG_COUNT {
                    return Err(EmulationError::OutOfRange);
                }
                let a = self.registers[x as usize];
                (z, a.wrapping_add(1), a == 0xffff)
            },
            AluInstruction::Decrement(z, x) => {
                if (z as usize) >= REG_COUNT || (x as usize) >= REG_COUNT {
                    return Err(EmulationError::OutOfRange);
                }
                let a = self.registers[x as usize];
                (z, a.wrapping_sub(1), a == 0)
            },
            AluInstruction::LShiftLeft(z, x) => {
                if (z as usize) >= REG_COUNT || (x as usize) >= REG_COUNT {
                    return Err(EmulationError::OutOfRange);
                }
                let c = self.registers[z as usize] & 0x8000 != 0;
                (z, self.registers[x as usize] << 1u16, c)
            },
            AluInstruction::LShiftRight(z, x) => {
                if (z as usize) >= REG_COUNT || (x as usize) >= REG_COUNT {
                    return Err(EmulationError::OutOfRange);
                }
                let c = self.registers[z as usize] & 0x0001 != 0;
                (z, self.registers[x as usize] >> 1u16, c)
            },
            AluInstruction::AShiftLeft(z, x) => {
                if (z as usize) >= REG_COUNT || (x as usize) >= REG_COUNT {
                    return Err(EmulationError::OutOfRange);
                }
                let c = self.registers[z as usize] & 0x8000 != 0;
                (z, self.registers[x as usize] << 1u16, c)
            },
            AluInstruction::AShiftRight(z, x) => {
                if (z as usize) >= REG_COUNT || (x as usize) >= REG_COUNT {
                    return Err(EmulationError::OutOfRange);
                }
                let c = self.registers[z as usize] & 0x0001 != 0;
                let sign_bit = self.registers[z as usize] & 0x8000;
                (z, (self.registers[x as usize] >> 1u16) | sign_bit, c)
            },
        };
        self.registers.set(z as usize, v);
        self.flags.zero = v == 0;
        self.flags.sign = v & 0x8000 != 0;
        self.flags.carry = c;
        Ok(())
    }
}

} // verus!
