//! Execution of the memory instructions. Loads and stores address the data
//! memory through a register value, which must name an existing RAM cell;
//! both clear the three flags.

use vstd::prelude::*;

use super::super::{EmulationError, ProcState, Processor, RAM_SIZE, REG_COUNT};
use crate::instructions::{reg_ok, MemoryInstruction};

verus! {

/// Whether a memory instruction's operands are in bounds over the given
/// state: register indices inside the register file and the addressing
/// register's value inside the RAM.
pub open spec fn memory_ok(s: ProcState, op: MemoryInstruction) -> bool {
    match op {
        MemoryInstruction::Load(z, y) => {
            reg_ok(z) && reg_ok(y) && (s.regs[y as int] as usize) < RAM_SIZE
        },
        MemoryInstruction::Store(x, y) => {
            reg_ok(x) && reg_ok(y) && (s.regs[y as int] as usize) < RAM_SIZE
        },
    }
}

/// The machine state after an in-bounds memory instruction: the transferred
/// word moved, all flags cleared.
pub open spec fn spec_execute_memory(s: ProcState, op: MemoryInstruction) -> ProcState {
    let c = s.with_flags_cleared();
    match op {
        MemoryInstruction::Load(z, y) => ProcState {
            regs: c.regs.update(z as int, c.ram[c.regs[y as int] as int]),
            ..c
        },
        MemoryInstruction::Store(x, y) => ProcState {
            ram: c.ram.update(c.regs[y as int] as int, c.regs[x as int]),
            ..c
        },
    }
}

impl Processor {
    /// Runs one memory instruction. An operand outside its domain yields
    /// `OutOfRange` and leaves the machine unchanged except for the flags,
    /// which are already cleared at that point.
    pub(in crate::processor) fn execute_memory(&mut self, op: MemoryInstruction) -> (r: Result<
        (),
        EmulationError,
    >)
        requires
            old(self)@.wf(),
        ensures
            match r {
                Ok(_) => {
                    &&& memory_ok(old(self)@, op)
                    &&& final(self)@ == spec_execute_memory(old(self)@, op)
                },
                Err(e) => {
                    &&& e == EmulationError::OutOfRange
                    &&& !memory_ok(old(self)@, op)
                    &&& final(self)@ == old(self)@.with_flags_cleared()
                },
            },
    {
        self.flags.unset();
        match op {
            MemoryInstruction::Load(z, y) => {
                if (z as usize) >= REG_COUNT || (y as usize) >= REG_COUNT {
                    return Err(EmulationError::OutOfRange);
                }
                let addr = self.registers[y as usize];
                if (addr as usize) >= RAM_SIZE {
                    return Err(EmulationError::OutOfRange);
                }
                let w = self.ram[addr as usize];
                self.registers.set(z as usize, w);
                Ok(())
            },
            MemoryInstruction::Store(x, y) => {
                if (x as usize) >= REG_COUNT || (y as usize) >= REG_COUNT {
                    return Err(EmulationError::OutOfRange);
                }
                let addr = self.registers[y as usize];
                if (addr as usize) >= RAM_SIZE {
                    return Err(EmulationError::OutOfRange);
                }
                let w = self.registers[x as usize];
                self.ram.set(addr as usize, w);
                Ok(())
            },
        }
    }
}

} // verus!
