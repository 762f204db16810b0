//! Loading, resetting and the debugger-facing controls of the machine.

use vstd::pervasive::VecAdditionalExecFns;
use vstd::prelude::*;

use super::{
    labels_view, DisplayRadix, EmulationError, ProcState, Processor, RAM_SIZE, REG_COUNT,
    ROM_SIZE,
};
use crate::instructions::{Instruction, RegisterBoundCheck};

pub mod alu;
pub mod control_flow;
pub mod debug;
pub mod memory;

use alu::spec_execute_alu;
use control_flow::spec_execute_control_flow;
use debug::{debug_ok, spec_execute_debug};
use memory::{memory_ok, spec_execute_memory};

verus! {

/// Whether `op` can execute over the state `s` without an operand leaving
/// its domain.
pub open spec fn spec_op_ok(s: ProcState, op: Instruction) -> bool {
    match op {
        Instruction::Alu(a) => a.bound_spec(),
        Instruction::Memory(m) => memory_ok(s, m),
        Instruction::ControlFlow(c) => c.bound_spec(),
        Instruction::Debug(d) => debug_ok(d),
        Instruction::NoOperation => true,
    }
}

/// The machine state after executing `op` over `s`, assuming its operands
/// are in bounds. A no-operation changes nothing.
pub open spec fn spec_execute(s: ProcState, op: Instruction) -> ProcState {
    match op {
        Instruction::Alu(a) => spec_execute_alu(s, a),
        Instruction::Memory(m) => spec_execute_memory(s, m),
        Instruction::ControlFlow(c) => spec_execute_control_flow(s, c),
        Instruction::Debug(d) => spec_execute_debug(s, d),
        Instruction::NoOperation => s,
    }
}

/// The machine state left behind when `op` fails its bound check: the flags
/// are already cleared for every class except control flow, which checks its
/// address before touching anything.
pub open spec fn spec_fail_state(s: ProcState, op: Instruction) -> ProcState {
    match op {
        Instruction::ControlFlow(_) => s,
        Instruction::NoOperation => s,
        _ => s.with_flags_cleared(),
    }
}

/// Counts one executed instruction; the counter wraps at the machine-word
/// limit.
pub open spec fn bump_runtime(s: ProcState) -> ProcState {
    ProcState { runtime: vstd::wrapping::usize_specs::wrapping_add(s.runtime, 1), ..s }
}

/// The machine state after executing `op` and counting it.
pub open spec fn spec_tick_op(s: ProcState, op: Instruction) -> ProcState {
    bump_runtime(spec_execute(s, op))
}

/// The last program address holding a real instruction, or `-1` when the
/// whole ROM reads as `NoOperation`.
pub open spec fn prog_end(rom: Seq<Instruction>) -> int
    decreases rom.len(),
{
    if rom.len() == 0 {
        -1
    } else if rom.last() != Instruction::NoOperation {
        rom.len() - 1
    } else {
        prog_end(rom.drop_last())
    }
}

/// `prog_end` names an address followed only by `NoOperation` cells and,
/// when it exists at all, holding a real instruction itself.
pub proof fn lemma_prog_end(rom: Seq<Instruction>)
    ensures
        -1 <= prog_end(rom) < rom.len(),
        forall|j: int| prog_end(rom) < j < rom.len() ==> rom[j] == Instruction::NoOperation,
        prog_end(rom) >= 0 ==> rom[prog_end(rom)] != Instruction::NoOperation,
    decreases rom.len(),
{
    if rom.len() > 0 && rom.last() == Instruction::NoOperation {
        lemma_prog_end(rom.drop_last());
        assert forall|j: int| prog_end(rom) < j < rom.len() implies rom[j]
            == Instruction::NoOperation by {
            if j < rom.len() - 1 {
                assert(rom.drop_last()[j] == rom[j]);
            }
        }
    }
}

/// `s2` is the machine state after `n` successful, advancing ticks from
/// `s1`.
pub open spec fn reaches(s1: ProcState, s2: ProcState, n: nat) -> bool
    decreases n,
{
    if n == 0 {
        s2 == s1
    } else {
        exists|mid: ProcState|
            reaches(s1, mid, (n - 1) as nat) && spec_tick(mid) == (
                s2,
                Result::<bool, EmulationError>::Ok(true),
            )
    }
}

/// Appends one advancing tick to a chain of ticks.
pub proof fn lemma_reaches_step(s1: ProcState, mid: ProcState, s2: ProcState, n: nat)
    requires
        reaches(s1, mid, n),
        spec_tick(mid) == (s2, Result::<bool, EmulationError>::Ok(true)),
    ensures
        reaches(s1, s2, n + 1),
{
    let m = mid;
    assert(reaches(s1, m, n) && spec_tick(m) == (s2, Result::<bool, EmulationError>::Ok(true)));
}

/// One full tick: the state after it and the result it reports.
///
/// A halted machine (program counter at `ROM_SIZE`) stays untouched and
/// reports `Ok(false)`. Otherwise the instruction under the program counter
/// executes; a failed bound check aborts the tick with its partial state.
/// When execution leaves the program counter alone it advances by one,
/// except at the last ROM cell, which cannot advance and reports
/// `Ok(false)`; an instruction that moves the counter itself — a taken jump
/// or a halt — always reports `Ok(true)`, wherever it sits.
pub open spec fn spec_tick(s: ProcState) -> (ProcState, Result<bool, EmulationError>) {
    if s.pc >= ROM_SIZE {
        (s, Ok(false))
    } else {
        let op = s.rom[s.pc as int];
        if !spec_op_ok(s, op) {
            (spec_fail_state(s, op), Err(EmulationError::OutOfRange))
        } else {
            let s1 = spec_tick_op(s, op);
            if s1.pc == s.pc {
                if s.pc < ROM_SIZE - 1 {
                    (ProcState { pc: (s.pc + 1) as usize, ..s1 }, Ok(true))
                } else {
                    (s1, Ok(false))
                }
            } else {
                (s1, Ok(true))
            }
        }
    }
}

/// A tick never drives the program counter past the halted position, and an
/// executing tick that succeeds counts exactly one more instruction.
pub proof fn lemma_tick_bounds(s: ProcState)
    requires
        s.wf(),
    ensures
        spec_tick(s).0.wf(),
        spec_tick(s).0.pc <= ROM_SIZE,
        spec_tick(s).1 is Ok && s.pc < ROM_SIZE && s.runtime < usize::MAX ==> spec_tick(
            s,
        ).0.runtime == s.runtime + 1,
{
    if s.pc < ROM_SIZE {
        let op = s.rom[s.pc as int];
        if spec_op_ok(s, op) {
            match op {
                Instruction::Alu(a) => {
                    assert(spec_execute(s, op).wf());
                },
                Instruction::Memory(m) => {
                    assert(spec_execute(s, op).wf());
                },
                Instruction::ControlFlow(c) => {
                    assert(spec_execute(s, op).wf());
                },
                Instruction::Debug(d) => {
                    assert(spec_execute(s, op).wf());
                },
                Instruction::NoOperation => {},
            }
        }
    }
}

/// The instruction a binary word decodes to; an undecodable word counts as
/// a no-operation (it never arises where this function is applied).
pub open spec fn decoded(s: Seq<char>) -> Instruction {
    match crate::instructions::from_str::spec_decode(s) {
        Ok(i) => i,
        Err(_) => Instruction::NoOperation,
    }
}

/// The views of a sequence of string slices.
pub open spec fn str_views(strs: Seq<&str>) -> Seq<Seq<char>> {
    Seq::new(strs.len(), |i: int| strs[i]@)
}

/// The ROM with its first `n` cells replaced by the decodings of the given
/// words.
pub open spec fn rom_with_decoded(rom: Seq<Instruction>, strs: Seq<Seq<char>>, n: int) -> Seq<
    Instruction,
> {
    Seq::new(rom.len(), |j: int| if 0 <= j < n { decoded(strs[j]) } else { rom[j] })
}

/// The ROM contents after installing `insns` at address zero of an otherwise
/// cleared program memory.
pub open spec fn loaded_rom(insns: Seq<Instruction>) -> Seq<Instruction> {
    Seq::new(ROM_SIZE as nat, |i: int| if i < insns.len() { insns[i] } else {
        Instruction::NoOperation
    })
}

/// The RAM contents after installing `data` at address zero of an otherwise
/// zeroed data memory.
pub open spec fn loaded_ram(data: Seq<u16>) -> Seq<u16> {
    Seq::new(RAM_SIZE as nat, |i: int| if i < data.len() { data[i] } else { 0u16 })
}

impl Processor {
    /// Clears the whole program memory to `NoOperation` and forgets the label
    /// table.
    pub fn clear_rom(&mut self)
        requires
            old(self)@.wf(),
        ensures
            final(self)@ == (ProcState {
                rom: loaded_rom(Seq::empty()),
                labels: Seq::empty(),
                ..old(self)@
            }),
    {
        let mut i: usize = 0;
        while i < ROM_SIZE
            invariant
                self@.wf(),
                i <= ROM_SIZE,
                forall|j: int| 0 <= j < i ==> self@.rom[j] == Instruction::NoOperation,
                self@ == (ProcState { rom: self@.rom, ..old(self)@ }),
            decreases ROM_SIZE - i,
        {
            self.rom.set(i, Instruction::NoOperation);
            i += 1;
        }
        self.labels = Vec::new();
        proof {
            assert(self@.rom =~= loaded_rom(Seq::empty()));
            assert(self@.labels =~= Seq::<(usize, Seq<Seq<char>>)>::empty());
            assert(self@ =~= (ProcState {
                rom: loaded_rom(Seq::empty()),
                labels: Seq::empty(),
                ..old(self)@
            }));
        }
    }

    /// Clears the ROM, then installs `instructions` starting at address zero.
    /// The label table is forgotten; callers reload it separately.
    pub fn load_rom(&mut self, instructions: &[Instruction])
        requires
            old(self)@.wf(),
            instructions@.len() <= ROM_SIZE,
        ensures
            final(self)@ == (ProcState {
                rom: loaded_rom(instructions@),
                labels: Seq::empty(),
                ..old(self)@
            }),
    {
        self.clear_rom();
        let ghost cleared = self@;
        let mut i: usize = 0;
        while i < instructions.len()
            invariant
                self@.wf(),
                i <= instructions@.len() <= ROM_SIZE,
                forall|j: int| 0 <= j < i ==> self@.rom[j] == instructions@[j],
                forall|j: int|
                    i <= j < ROM_SIZE ==> self@.rom[j] == Instruction::NoOperation,
                self@ == (ProcState { rom: self@.rom, ..cleared }),
            decreases instructions@.len() - i,
        {
            self.rom.set(i, instructions[i]);
            i += 1;
        }
        proof {
            assert(self@.rom =~= loaded_rom(instructions@));
            assert(self@ =~= (ProcState {
                rom: loaded_rom(instructions@),
                labels: Seq::empty(),
                ..old(self)@
            }));
        }
    }

    /// Zeroes the whole data memory.
    fn clear_ram(&mut self)
        requires
            old(self)@.wf(),
        ensures
            final(self)@ == (ProcState { ram: loaded_ram(Seq::empty()), ..old(self)@ }),
    {
        let mut i: usize = 0;
        while i < RAM_SIZE
            invariant
                self@.wf(),
                i <= RAM_SIZE,
                forall|j: int| 0 <= j < i ==> self@.ram[j] == 0u16,
                self@ == (ProcState { ram: self@.ram, ..old(self)@ }),
            decreases RAM_SIZE - i,
        {
            self.ram.set(i, 0);
            i += 1;
        }
        proof {
            assert(self@.ram =~= loaded_ram(Seq::empty()));
            assert(self@ =~= (ProcState { ram: loaded_ram(Seq::empty()), ..old(self)@ }));
        }
    }

    /// Clears the RAM, installs `data` starting at address zero, and records
    /// the result as the snapshot that `reset` restores.
    pub fn load_ram(&mut self, data: &[u16])
        requires
            old(self)@.wf(),
            data@.len() <= RAM_SIZE,
        ensures
            final(self)@ == (ProcState {
                ram: loaded_ram(data@),
                ram_initial: loaded_ram(data@),
                ..old(self)@
            }),
    {
        self.clear_ram();
        let ghost cleared = self@;
        let mut i: usize = 0;
        while i < data.len()
            invariant
                self@.wf(),
                i <= data@.len() <= RAM_SIZE,
                forall|j: int| 0 <= j < i ==> self@.ram[j] == data@[j],
                forall|j: int| i <= j < RAM_SIZE ==> self@.ram[j] == 0u16,
                self@ == (ProcState { ram: self@.ram, ..cleared }),
            decreases data@.len() - i,
        {
            self.ram.set(i, data[i]);
            i += 1;
        }
        let mut i: usize = 0;
        while i < RAM_SIZE
            invariant
                self@.wf(),
                i <= RAM_SIZE,
                self@.ram == loaded_ram(data@).subrange(0, RAM_SIZE as int),
                forall|j: int| 0 <= j < i ==> self@.ram_initial[j] == self@.ram[j],
                self@ == (ProcState {
                    ram: self@.ram,
                    ram_initial: self@.ram_initial,
                    ..old(self)@
                }),
            decreases RAM_SIZE - i,
        {
            let w = self.ram[i];
            self.ram_initial.set(i, w);
            i += 1;
        }
        proof {
            assert(self@.ram =~= loaded_ram(data@));
            assert(self@.ram_initial =~= loaded_ram(data@));
            assert(self@ =~= (ProcState {
                ram: loaded_ram(data@),
                ram_initial: loaded_ram(data@),
                ..old(self)@
            }));
        }
    }

    /// Replaces the label table.
    pub fn load_labels(&mut self, labels: Vec<(usize, Vec<String>)>)
        ensures
            final(self)@ == (ProcState { labels: labels_view(labels@), ..old(self)@ }),
    {
        self.labels = labels;
    }

    /// Removes every breakpoint.
    pub fn clear_breakpoints(&mut self)
        requires
            old(self)@.wf(),
        ensures
            final(self)@ == (ProcState {
                breakpoints: Seq::new(ROM_SIZE as nat, |i: int| false),
                ..old(self)@
            }),
    {
        let mut i: usize = 0;
        while i < ROM_SIZE
            invariant
                self@.wf(),
                i <= ROM_SIZE,
                forall|j: int| 0 <= j < i ==> !self@.breakpoints[j],
                self@ == (ProcState { breakpoints: self@.breakpoints, ..old(self)@ }),
            decreases ROM_SIZE - i,
        {
            self.breakpoints.set(i, false);
            i += 1;
        }
        proof {
            assert(self@.breakpoints =~= Seq::new(ROM_SIZE as nat, |i: int| false));
            assert(self@ =~= (ProcState {
                breakpoints: Seq::new(ROM_SIZE as nat, |i: int| false),
                ..old(self)@
            }));
        }
    }

    /// Restores the RAM snapshot, zeroes registers and flags and rewinds the
    /// program counter. Breakpoints, the runtime counter, the ROM, the label
    /// table and the display radix are untouched.
    pub fn reset(&mut self)
        requires
            old(self)@.wf(),
        ensures
            final(self)@ == (ProcState {
                ram: old(self)@.ram_initial,
                regs: Seq::new(REG_COUNT as nat, |i: int| 0u16),
                zero: false,
                sign: false,
                carry: false,
                pc: 0,
                ..old(self)@
            }),
    {
        let mut i: usize = 0;
        while i < RAM_SIZE
            invariant
                self@.wf(),
                i <= RAM_SIZE,
                forall|j: int| 0 <= j < i ==> self@.ram[j] == self@.ram_initial[j],
                self@ == (ProcState { ram: self@.ram, ..old(self)@ }),
            decreases RAM_SIZE - i,
        {
            let w = self.ram_initial[i];
            self.ram.set(i, w);
            i += 1;
        }
        let mut i: usize = 0;
        while i < REG_COUNT
            invariant
                self@.wf(),
                i <= REG_COUNT,
                self@.ram == old(self)@.ram_initial.subrange(0, RAM_SIZE as int),
                forall|j: int| 0 <= j < i ==> self@.regs[j] == 0u16,
                self@ == (ProcState { regs: self@.regs, ram: self@.ram, ..old(self)@ }),
            decreases REG_COUNT - i,
        {
            self.registers.set(i, 0);
            i += 1;
        }
        self.flags.unset();
        self.program_counter = 0;
        proof {
            assert(self@.ram =~= old(self)@.ram_initial);
            assert(self@.regs =~= Seq::new(REG_COUNT as nat, |i: int| 0u16));
            assert(self@ =~= (ProcState {
                ram: old(self)@.ram_initial,
                regs: Seq::new(REG_COUNT as nat, |i: int| 0u16),
                zero: false,
                sign: false,
                carry: false,
                pc: 0,
                ..old(self)@
            }));
        }
    }

    /// Selects the radix used when rendering machine words.
    pub fn set_radix(&mut self, radix: DisplayRadix)
        ensures
            final(self)@ == (ProcState { radix: radix, ..old(self)@ }),
    {
        self.radix = radix;
    }

    /// Flips the breakpoint at `line` and reports its new state; addresses
    /// outside the ROM are ignored and report `false`.
    pub fn toggle_breakpoint(&mut self, line: usize) -> (on: bool)
        requires
            old(self)@.wf(),
        ensures
            line < ROM_SIZE ==> {
                &&& final(self)@ == (ProcState {
                    breakpoints: old(self)@.breakpoints.update(
                        line as int,
                        !old(self)@.breakpoints[line as int],
                    ),
                    ..old(self)@
                })
                &&& on == !old(self)@.breakpoints[line as int]
            },
            line >= ROM_SIZE ==> final(self)@ == old(self)@ && !on,
    {
        if line >= ROM_SIZE {
            false
        } else {
            let flipped = !self.breakpoints[line];
            self.breakpoints.set(line, flipped);
            flipped
        }
    }

    /// Runs the instruction at the current program counter and advances the
    /// counter. The whole observable effect is `spec_tick`; the returned
    /// `Ok` flag tells whether the machine can keep going.
    pub fn tick(&mut self) -> (r: Result<bool, EmulationError>)
        requires
            old(self)@.wf(),
        ensures
            final(self)@.wf(),
            final(self)@ == spec_tick(old(self)@).0,
            r == spec_tick(old(self)@).1,
            r is Ok && old(self)@.pc < ROM_SIZE && old(self)@.runtime < usize::MAX
                ==> final(self)@.runtime == old(self)@.runtime + 1,
            final(self)@.rom == old(self)@.rom,
            final(self)@.ram_initial == old(self)@.ram_initial,
            final(self)@.labels == old(self)@.labels,
            final(self)@.radix == old(self)@.radix,
    {
        if self.program_counter >= ROM_SIZE {
            return Ok(false);
        }
        let current = self.program_counter;
        let op = self.rom[current];
        self.tick_op(op)?;
        if self.program_counter == current {
            if self.program_counter < ROM_SIZE - 1 {
                self.program_counter = self.program_counter + 1;
                Ok(true)
            } else {
                Ok(false)
            }
        } else {
            Ok(true)
        }
    }

    /// Dispatches one instruction to its class and counts it as executed.
    fn tick_op(&mut self, op: Instruction) -> (r: Result<(), EmulationError>)
        requires
            old(self)@.wf(),
        ensures
            match r {
                Ok(_) => {
                    &&& spec_op_ok(old(self)@, op)
                    &&& final(self)@ == spec_tick_op(old(self)@, op)
                },
                Err(e) => {
                    &&& e == EmulationError::OutOfRange
                    &&& !spec_op_ok(old(self)@, op)
                    &&& final(self)@ == spec_fail_state(old(self)@, op)
                },
            },
    {
        match op {
            Instruction::Alu(op) => self.execute_alu(op)?,
            Instruction::Memory(op) => self.execute_memory(op)?,
            Instruction::ControlFlow(op) => self.execute_control_flow(op)?,
            Instruction::Debug(op) => self.execute_debug(op)?,
            Instruction::NoOperation => {},
        }
        self.runtime_counter = self.runtime_counter.wrapping_add(1);
        Ok(())
    }

    /// Moves the program counter to `line`; `ROM_SIZE` is accepted and
    /// denotes the halted state. Larger values are ignored and report
    /// `false`.
    pub fn program_counter_jump(&mut self, line: usize) -> (ok: bool)
        ensures
            line <= ROM_SIZE ==> final(self)@ == (ProcState { pc: line, ..old(self)@ }) && ok,
            line > ROM_SIZE ==> final(self)@ == old(self)@ && !ok,
    {
        if line > ROM_SIZE {
            false
        } else {
            self.program_counter = line;
            true
        }
    }

    /// Decodes binary words and installs them from address zero on, without
    /// clearing the rest of the ROM first. On the first undecodable word the
    /// words before it stay installed and its decode error is returned.
    pub fn load_rom_str(&mut self, instructions: &[&str]) -> (r: Result<(), EmulationError>)
        requires
            old(self)@.wf(),
            instructions@.len() <= ROM_SIZE,
        ensures
            final(self)@.wf(),
            match r {
                Ok(_) => {
                    &&& forall|j: int|
                        0 <= j < instructions@.len() ==> crate::instructions::from_str::spec_decode(
                            #[trigger] instructions@[j]@,
                        ) is Ok
                    &&& final(self)@ == (ProcState {
                        rom: rom_with_decoded(
                            old(self)@.rom,
                            str_views(instructions@),
                            instructions@.len() as int,
                        ),
                        ..old(self)@
                    })
                },
                Err(e) => exists|k: int|
                    {
                        &&& 0 <= k < instructions@.len()
                        &&& crate::instructions::from_str::spec_decode(
                            (#[trigger] instructions@[k])@,
                        ) == Err::<Instruction, EmulationError>(e)
                        &&& (forall|j: int|
                            0 <= j < k ==> crate::instructions::from_str::spec_decode(
                                #[trigger] instructions@[j]@,
                            ) is Ok)
                        &&& final(self)@ == (ProcState {
                            rom: rom_with_decoded(old(self)@.rom, str_views(instructions@), k),
                            ..old(self)@
                        })
                    },
            },
    {
        proof {
            assert(rom_with_decoded(old(self)@.rom, str_views(instructions@), 0)
                =~= old(self)@.rom);
        }
        let mut i: usize = 0;
        while i < instructions.len()
            invariant
                self@.wf(),
                instructions@.len() <= ROM_SIZE,
                i <= instructions@.len(),
                forall|j: int|
                    0 <= j < i ==> crate::instructions::from_str::spec_decode(
                        #[trigger] instructions@[j]@,
                    ) is Ok,
                self@ == (ProcState {
                    rom: rom_with_decoded(old(self)@.rom, str_views(instructions@), i as int),
                    ..old(self)@
                }),
            decreases instructions@.len() - i,
        {
            let op = match Instruction::from_str(instructions[i]) {
                Ok(op) => op,
                Err(e) => {
                    proof {
                        let k = i as int;
                        assert(crate::instructions::from_str::spec_decode(instructions@[k]@)
                            == Err::<Instruction, EmulationError>(e));
                    }
                    return Err(e);
                },
            };
            self.rom.set(i, op);
            proof {
                assert(self@.rom =~= rom_with_decoded(
                    old(self)@.rom,
                    str_views(instructions@),
                    i + 1,
                ));
                assert(self@ =~= (ProcState {
                    rom: rom_with_decoded(old(self)@.rom, str_views(instructions@), i + 1),
                    ..old(self)@
                }));
            }
            i += 1;
        }
        Ok(())
    }

    /// The address one past the last real instruction: every cell from the
    /// result onward reads as `NoOperation`, and the cell just before it, if
    /// any, does not.
    pub fn last_instruction_address(&self) -> (r: usize)
        requires
            self@.wf(),
        ensures
            r == prog_end(self@.rom) + 1,
    {
        let mut i: usize = ROM_SIZE;
        while i > 0 && self.rom[i - 1] == Instruction::NoOperation
            invariant
                self@.wf(),
                i <= ROM_SIZE,
                forall|j: int| i <= j < ROM_SIZE ==> self@.rom[j] == Instruction::NoOperation,
            decreases i,
        {
            i -= 1;
        }
        proof {
            lemma_prog_end(self@.rom);
            let e = prog_end(self@.rom);
            if i == 0 {
                if e >= 0 {
                    assert(self@.rom[e] == Instruction::NoOperation);
                }
            } else {
                assert(self@.rom[i - 1] != Instruction::NoOperation);
                if e < i - 1 {
                    assert(self@.rom[i - 1] == Instruction::NoOperation);
                }
                if e > i - 1 {
                    assert(self@.rom[e] == Instruction::NoOperation);
                }
            }
        }
        i
    }

    /// Runs ticks until the program counter leaves the program (the cells up
    /// to the last real instruction), a breakpoint is hit (when
    /// `breakpoints` is set), the machine cannot advance (`StackOverflow`),
    /// or an instruction fails its bound check (`OutOfRange`). Returns how
    /// many instructions this call executed. On an all-`NoOperation` ROM it
    /// returns zero without touching the machine.
    ///
    /// On `Ok`, the final state is either the starting state untouched (the
    /// program counter already stood past the program) or the outcome of an
    /// advancing tick executed inside the program. `StackOverflow` comes
    /// from a tick inside the program that could not advance — or, after
    /// `usize::MAX` ticks without another stop, from the iteration cap that
    /// keeps this loop finite, which its own clause states.
    pub fn run(&mut self, breakpoints: bool) -> (r: Result<usize, EmulationError>)
        requires
            old(self)@.wf(),
        ensures
            final(self)@.wf(),
            final(self)@.rom == old(self)@.rom,
            final(self)@.ram_initial == old(self)@.ram_initial,
            final(self)@.labels == old(self)@.labels,
            final(self)@.radix == old(self)@.radix,
            prog_end(old(self)@.rom) == -1 ==> final(self)@ == old(self)@ && r == Result::<
                usize,
                EmulationError,
            >::Ok(0),
            match r {
                Ok(n) => {
                    &&& n == vstd::wrapping::usize_specs::wrapping_sub(
                        final(self)@.runtime,
                        old(self)@.runtime,
                    )
                    &&& final(self)@ == old(self)@ || exists|mid: ProcState, k: nat|
                        reaches(old(self)@, mid, k) && mid.pc <= prog_end(old(self)@.rom)
                            && spec_tick(mid) == (
                            final(self)@,
                            Result::<bool, EmulationError>::Ok(true),
                        )
                    &&& final(self)@.pc > prog_end(old(self)@.rom) || (breakpoints
                        && final(self)@.pc < ROM_SIZE
                        && final(self)@.breakpoints[final(self)@.pc as int])
                },
                Err(e) => {
                    &&& (e == EmulationError::OutOfRange || e == EmulationError::StackOverflow)
                    &&& e == EmulationError::OutOfRange ==> exists|mid: ProcState, k: nat|
                        reaches(old(self)@, mid, k) && mid.pc <= prog_end(old(self)@.rom)
                            && spec_tick(mid) == (
                            final(self)@,
                            Result::<bool, EmulationError>::Err(EmulationError::OutOfRange),
                        )
                    &&& e == EmulationError::StackOverflow ==> (exists|mid: ProcState, k: nat|
                        reaches(old(self)@, mid, k) && mid.pc <= prog_end(old(self)@.rom)
                            && spec_tick(mid) == (
                            final(self)@,
                            Result::<bool, EmulationError>::Ok(false),
                        )) || reaches(old(self)@, final(self)@, usize::MAX as nat)
                },
            },
    {
        let last = self.last_instruction_address();
        if last == 0 {
            return Ok(0);
        }
        let end = last - 1;
        let initial = self.runtime_counter;
        proof {
            lemma_prog_end(self@.rom);
        }
        let ghost mut steps: nat = 0nat;
        let mut fuel: usize = usize::MAX;
        while self.program_counter <= end
            invariant
                self@.wf(),
                end == prog_end(old(self)@.rom),
                0 <= end < ROM_SIZE,
                self@.rom == old(self)@.rom,
                self@.ram_initial == old(self)@.ram_initial,
                self@.labels == old(self)@.labels,
                self@.radix == old(self)@.radix,
                initial == old(self)@.runtime,
                reaches(old(self)@, self@, steps),
                steps + fuel == usize::MAX,
                self@ == old(self)@ || exists|mid: ProcState, k: nat|
                    reaches(old(self)@, mid, k) && mid.pc <= end && spec_tick(mid) == (
                        self@,
                        Result::<bool, EmulationError>::Ok(true),
                    ),
            ensures
                self@.wf(),
                self@.rom == old(self)@.rom,
                self@.ram_initial == old(self)@.ram_initial,
                self@.labels == old(self)@.labels,
                self@.radix == old(self)@.radix,
                initial == old(self)@.runtime,
                self@ == old(self)@ || exists|mid: ProcState, k: nat|
                    reaches(old(self)@, mid, k) && mid.pc <= end && spec_tick(mid) == (
                        self@,
                        Result::<bool, EmulationError>::Ok(true),
                    ),
                self@.pc > end || (breakpoints && self@.pc < ROM_SIZE
                    && self@.breakpoints[self@.pc as int]),
            decreases fuel,
        {
            if fuel == 0 {
                proof {
                    assert(steps == usize::MAX as nat);
                    assert(reaches(old(self)@, self@, usize::MAX as nat));
                }
                return Err(EmulationError::StackOverflow);
            }
            fuel -= 1;
            let ghost prev = self@;
            let ghost steps0 = steps;
            let advanced = match self.tick() {
                Ok(b) => b,
                Err(e) => {
                    proof {
                        assert(reaches(old(self)@, prev, steps0) && prev.pc <= prog_end(
                            old(self)@.rom,
                        ) && spec_tick(prev) == (
                            self@,
                            Result::<bool, EmulationError>::Err(EmulationError::OutOfRange),
                        ));
                    }
                    return Err(e);
                },
            };
            if !advanced {
                proof {
                    assert(reaches(old(self)@, prev, steps0) && prev.pc <= prog_end(
                        old(self)@.rom,
                    ) && spec_tick(prev) == (
                        self@,
                        Result::<bool, EmulationError>::Ok(false),
                    ));
                }
                return Err(EmulationError::StackOverflow);
            }
            proof {
                lemma_reaches_step(old(self)@, prev, self@, steps0);
                steps = steps0 + 1;
                assert(reaches(old(self)@, prev, steps0) && prev.pc <= end && spec_tick(prev) == (
                    self@,
                    Result::<bool, EmulationError>::Ok(true),
                ));
            }
            if breakpoints && self.program_counter < ROM_SIZE
                && self.breakpoints[self.program_counter] {
                break;
            }
        }
        Ok(self.runtime_counter.wrapping_sub(initial))
    }

    /// Checks every ROM cell's operands against their static bounds and
    /// reports the first violating instruction, if any.
    pub fn check(&self) -> (r: Result<(), Instruction>)
        requires
            self@.wf(),
        ensures
            match r {
                Ok(_) => forall|i: int| 0 <= i < ROM_SIZE ==> self@.rom[i].bound_spec(),
                Err(ins) => exists|i: int|
                    {
                        &&& 0 <= i < ROM_SIZE
                        &&& !(#[trigger] self@.rom[i]).bound_spec()
                        &&& ins == self@.rom[i]
                        &&& forall|j: int| 0 <= j < i ==> self@.rom[j].bound_spec()
                    },
            },
    {
        let mut i: usize = 0;
        while i < ROM_SIZE
            invariant
                self@.wf(),
                i <= ROM_SIZE,
                forall|j: int| 0 <= j < i ==> self@.rom[j].bound_spec(),
            decreases ROM_SIZE - i,
        {
            let ins = self.rom[i];
            if !ins.reg_bound_check() {
                proof {
                    let w = i as int;
                    assert(0 <= w < ROM_SIZE && !self@.rom[w].bound_spec() && ins == self@.rom[w]
                        && forall|j: int| 0 <= j < w ==> self@.rom[j].bound_spec());
                }
                return Err(ins);
            }
            i += 1;
        }
        Ok(())
    }
}

} // verus!
