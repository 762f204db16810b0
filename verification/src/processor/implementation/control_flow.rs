//! Execution of the control-flow instructions. A jump whose condition holds
//! moves the program counter; either way all three flags end up cleared.

use vstd::prelude::*;

use super::super::{EmulationError, ProcState, Processor, ROM_SIZE};
use crate::instructions::{ControlFlowInstruction, RegisterBoundCheck};

verus! {

/// Whether the jump's condition holds over the given flags.
pub open spec fn cf_taken(s: ProcState, op: ControlFlowInstruction) -> bool {
    match op {
        ControlFlowInstruction::Jump(_) => true,
        ControlFlowInstruction::JumpZero(_) => s.zero,
        ControlFlowInstruction::JumpSign(_) => s.sign,
        ControlFlowInstruction::JumpCarry(_) => s.carry,
        ControlFlowInstruction::JumpNotZero(_) => !s.zero,
        ControlFlowInstruction::JumpNotSign(_) => !s.sign,
        ControlFlowInstruction::JumpNotCarry(_) => !s.carry,
    }
}

/// The machine state after an in-bounds control-flow instruction: the
/// program counter moved when the condition held, and all flags cleared.
pub open spec fn spec_execute_control_flow(s: ProcState, op: ControlFlowInstruction) -> ProcState {
    if cf_taken(s, op) {
        ProcState { pc: op.spec_address() as usize, ..s }.with_flags_cleared()
    } else {
        s.with_flags_cleared()
    }
}

/// After any control-flow instruction — taken or not — all three flags are
/// clear.
pub proof fn lemma_control_flow_clears_flags(s: ProcState, op: ControlFlowInstruction)
    ensures
        !spec_execute_control_flow(s, op).zero,
        !spec_execute_control_flow(s, op).sign,
        !spec_execute_control_flow(s, op).carry,
{
}

impl Processor {
    /// Runs one control-flow instruction. A target address outside the ROM
    /// yields `OutOfRange` and leaves the machine entirely unchanged; the
    /// flags are cleared only when the instruction executes.
    pub(in crate::processor) fn execute_control_flow(
        &mut self,
        op: ControlFlowInstruction,
    ) -> (r: Result<(), EmulationError>)
        requires
            old(self)@.wf(),
        ensures
            match r {
                Ok(_) => {
                    &&& op.bound_spec()
                    &&& final(self)@ == spec_execute_control_flow(old(self)@, op)
                },
                Err(e) => {
                    &&& e == EmulationError::OutOfRange
                    &&& !op.bound_spec()
                    &&& final(self)@ == old(self)@
                },
            },
    {
        let addr = self.get_address_checked(op)?;
        let taken: bool = match op {
            ControlFlowInstruction::Jump(_) => true,
            ControlFlowInstruction::JumpZero(_) => self.flags.zero,
            ControlFlowInstruction::JumpSign(_) => self.flags.sign,
            ControlFlowInstruction::JumpCarry(_) => self.flags.carry,
            ControlFlowInstruction::JumpNotZero(_) => !self.flags.zero,
            ControlFlowInstruction::JumpNotSign(_) => !self.flags.sign,
            ControlFlowInstruction::JumpNotCarry(_) => !self.flags.carry,
        };
        if taken {
            self.program_counter = addr as usize;
        }
        self.flags.unset();
        Ok(())
    }

    /// The jump target of `op` when it names a ROM cell, `OutOfRange`
    /// otherwise; the machine is untouched.
    fn get_address_checked(&self, op: ControlFlowInstruction) -> (r: Result<u16, EmulationError>)
        ensures
            match r {
                Ok(a) => op.bound_spec() && a == op.spec_address(),
                Err(e) => e == EmulationError::OutOfRange && !op.bound_spec(),
            },
    {
        let addr = op.get_address();
        if (addr as usize) >= ROM_SIZE {
            Err(EmulationError::OutOfRange)
        } else {
            Ok(addr)
        }
    }
}

} // verus!
