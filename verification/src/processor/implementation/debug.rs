//! Execution of the debugger-only instructions, which write registers,
//! memory, flags and breakpoints directly or halt the machine.

use vstd::prelude::*;

use super::super::{EmulationError, ProcState, Processor, RAM_SIZE, REG_COUNT, ROM_SIZE};
use crate::instructions::{reg_ok, DebugInstruction};

verus! {

/// Whether a debug instruction's operands are in bounds: a register index
/// inside the register file, or an address inside the memory.
pub open spec fn debug_ok(op: DebugInstruction) -> bool {
    match op {
        DebugInstruction::SetRegister(z, _) => reg_ok(z),
        DebugInstruction::SetMemory(a, _) => (a as usize) < RAM_SIZE,
        DebugInstruction::Breakpoint(a) => (a as usize) < RAM_SIZE,
        _ => true,
    }
}

/// The machine state after an in-bounds debug instruction: the flags are
/// cleared first, then the named component is written.
pub open spec fn spec_execute_debug(s: ProcState, op: DebugInstruction) -> ProcState {
    let c = s.with_flags_cleared();
    match op {
        DebugInstruction::SetRegister(z, v) => ProcState { regs: c.regs.update(z as int, v), ..c },
        DebugInstruction::SetFlagZero(v) => ProcState { zero: v, ..c },
        DebugInstruction::SetFlagSign(v) => ProcState { sign: v, ..c },
        DebugInstruction::SetFlagCarry(v) => ProcState { carry: v, ..c },
        DebugInstruction::SetMemory(a, v) => ProcState { ram: c.ram.update(a as int, v), ..c },
        DebugInstruction::Breakpoint(a) => ProcState {
            breakpoints: c.breakpoints.update(a as int, true),
            ..c
        },
        DebugInstruction::Halt => ProcState { pc: ROM_SIZE, ..c },
    }
}

impl Processor {
    /// Runs one debug instruction. An operand outside its domain yields
    /// `OutOfRange` and leaves the machine unchanged except for the flags,
    /// which are already cleared at that point.
    pub(in crate::processor) fn execute_debug(&mut self, op: DebugInstruction) -> (r: Result<
        (),
        EmulationError,
    >)
        requires
            old(self)@.wf(),
        ensures
            match r {
                Ok(_) => debug_ok(op) && final(self)@ == spec_execute_debug(old(self)@, op),
                Err(e) => {
                    &&& e == EmulationError::OutOfRange
                    &&& !debug_ok(op)
                    &&& final(self)@ == old(self)@.with_flags_cleared()
                },
            },
    {
        self.flags.unset();
        match op {
            DebugInstruction::SetRegister(z, v) => {
                if (z as usize) >= REG_COUNT {
                    return Err(EmulationError::OutOfRange);
                }
                self.registers.set(z as usize, v);
                Ok(())
            },
            DebugInstruction::SetFlagZero(v) => {
                self.flags.zero = v;
                Ok(())
            },
            DebugInstruction::SetFlagSign(v) => {
                self.flags.sign = v;
                Ok(())
            },
            DebugInstruction::SetFlagCarry(v) => {
                self.flags.carry = v;
                Ok(())
            },
            DebugInstruction::SetMemory(a, v) => {
                if (a as usize) >= RAM_SIZE {
                    return Err(EmulationError::OutOfRange);
                }
                self.ram.set(a as usize, v);
                Ok(())
            },
            DebugInstruction::Breakpoint(a) => {
                if (a as usize) >= RAM_SIZE {
                    return Err(EmulationError::OutOfRange);
                }
                self.breakpoints.set(a as usize, true);
                Ok(())
            },
            DebugInstruction::Halt => {
                self.program_counter = ROM_SIZE;
                Ok(())
            },
        }
    }
}

} // verus!
