//! The machine: fixed-size ROM/RAM/register/flag state with a deterministic
//! tick-based execution model.

use vstd::prelude::*;

use crate::instructions::Instruction;

pub mod display;
pub mod error;
pub mod implementation;

pub use error::EmulationError;

verus! {

/// Number of program-memory cells; a program counter equal to `ROM_SIZE`
/// denotes the halted state.
pub const ROM_SIZE: usize = 256;

/// Number of data-memory cells.
pub const RAM_SIZE: usize = 256;

/// Number of general-purpose registers.
pub const REG_COUNT: usize = 8;

/// The three condition flags, set by ALU operations and cleared by
/// control-flow instructions.
#[derive(Clone, Copy, Debug, PartialEq, Eq, Structural)]
pub struct FlagRegisters {
    pub zero: bool,
    pub sign: bool,
    pub carry: bool,
}

impl FlagRegisters {
    /// Clears all three flags.
    pub fn unset(&mut self)
        ensures
            *final(self) == (FlagRegisters { zero: false, sign: false, carry: false }),
    {
        self.zero = false;
        self.sign = false;
        self.carry = false;
    }
}

impl Default for FlagRegisters {
    /// All flags start out cleared.
    fn default() -> (r: Self)
        ensures
            r == (FlagRegisters { zero: false, sign: false, carry: false }),
    {
        FlagRegisters { zero: false, sign: false, carry: false }
    }
}

/// Whether decimal display interprets a word as signed or unsigned.
#[derive(Clone, Copy, Debug, PartialEq, Eq, Structural)]
pub enum DisplaySigned {
    Unsigned,
    Signed,
}

/// The radix used when rendering a machine word as text.
#[derive(Clone, Copy, Debug, PartialEq, Eq, Structural)]
pub enum DisplayRadix {
    Decimal(DisplaySigned),
    Hexadecimal,
    Binary,
}

/// The mathematical value of one machine: every component of the state as a
/// sequence or scalar.
pub ghost struct ProcState {
    pub rom: Seq<Instruction>,
    pub ram: Seq<u16>,
    pub ram_initial: Seq<u16>,
    pub regs: Seq<u16>,
    pub zero: bool,
    pub sign: bool,
    pub carry: bool,
    pub pc: usize,
    pub runtime: usize,
    pub breakpoints: Seq<bool>,
    pub radix: DisplayRadix,
    pub labels: Seq<(usize, Seq<Seq<char>>)>,
}

impl ProcState {
    /// Well-formedness: all components have their fixed machine size and the
    /// program counter never exceeds the halted position.
    pub open spec fn wf(self) -> bool {
        &&& self.rom.len() == ROM_SIZE
        &&& self.ram.len() == RAM_SIZE
        &&& self.ram_initial.len() == RAM_SIZE
        &&& self.regs.len() == REG_COUNT
        &&& self.breakpoints.len() == ROM_SIZE
        &&& self.pc <= ROM_SIZE
    }

    /// The state after clearing the three flags, everything else unchanged.
    pub open spec fn with_flags_cleared(self) -> ProcState {
        ProcState { zero: false, sign: false, carry: false, ..self }
    }
}

/// The state every component of a freshly constructed machine has.
pub open spec fn initial_state() -> ProcState {
    ProcState {
        rom: Seq::new(ROM_SIZE as nat, |i: int| Instruction::NoOperation),
        ram: Seq::new(RAM_SIZE as nat, |i: int| 0u16),
        ram_initial: Seq::new(RAM_SIZE as nat, |i: int| 0u16),
        regs: Seq::new(REG_COUNT as nat, |i: int| 0u16),
        zero: false,
        sign: false,
        carry: false,
        pc: 0,
        runtime: 0,
        breakpoints: Seq::new(ROM_SIZE as nat, |i: int| false),
        radix: DisplayRadix::Decimal(DisplaySigned::Signed),
        labels: Seq::empty(),
    }
}

/// The view of a label table: each entry pairs a program address with the
/// names declared for it, in declaration order.
pub open spec fn labels_view(labels: Seq<(usize, Vec<String>)>) -> Seq<(usize, Seq<Seq<char>>)> {
    Seq::new(labels.len(), |i: int| (labels[i].0, labels[i].1.deep_view()))
}

/// The emulated processor. All state is held in fixed-size vectors; no
/// allocation happens after construction.
pub struct Processor {
    rom: Vec<Instruction>,
    ram: Vec<u16>,
    ram_initial: Vec<u16>,
    registers: Vec<u16>,
    flags: FlagRegisters,
    program_counter: usize,
    runtime_counter: usize,
    breakpoints: Vec<bool>,
    radix: DisplayRadix,
    labels: Vec<(usize, Vec<String>)>,
}

impl View for Processor {
    type V = ProcState;

    closed spec fn view(&self) -> ProcState {
        ProcState {
            rom: self.rom@,
            ram: self.ram@,
            ram_initial: self.ram_initial@,
            regs: self.registers@,
            zero: self.flags.zero,
            sign: self.flags.sign,
            carry: self.flags.carry,
            pc: self.program_counter,
            runtime: self.runtime_counter,
            breakpoints: self.breakpoints@,
            radix: self.radix,
            labels: labels_view(self.labels@),
        }
    }
}

impl Processor {
    /// Constructs a machine with empty ROM, zeroed memory and registers,
    /// cleared flags and breakpoints, and signed decimal display.
    pub fn new() -> (p: Processor)
        ensures
            p@ == initial_state(),
    {
        let p = Processor {
            rom: vec![Instruction::NoOperation; ROM_SIZE],
            ram: vec![0u16; RAM_SIZE],
            ram_initial: vec![0u16; RAM_SIZE],
            registers: vec![0u16; REG_COUNT],
            flags: FlagRegisters { zero: false, sign: false, carry: false },
            program_counter: 0,
            runtime_counter: 0,
            breakpoints: vec![false; ROM_SIZE],
            radix: DisplayRadix::Decimal(DisplaySigned::Signed),
            labels: Vec::new(),
        };
        proof {
            assert(p@.rom =~= initial_state().rom);
            assert(p@.ram =~= initial_state().ram);
            assert(p@.ram_initial =~= initial_state().ram_initial);
            assert(p@.regs =~= initial_state().regs);
            assert(p@.breakpoints =~= initial_state().breakpoints);
            assert(p@.labels =~= initial_state().labels);
            assert(p@ =~= initial_state());
        }
        p
    }
}

impl Default for Processor {
    /// Same as `Processor::new`.
    fn default() -> (p: Self)
        ensures
            p@ == initial_state(),
    {
        Processor::new()
    }
}

impl Processor {
    /// The instruction in the given ROM cell.
    pub fn get_rom(&self, addr: usize) -> (ins: Instruction)
        requires
            self@.wf(),
            addr < ROM_SIZE,
        ensures
            ins == self@.rom[addr as int],
    {
        self.rom[addr]
    }

    /// The word in the given RAM cell.
    pub fn get_ram(&self, addr: usize) -> (w: u16)
        requires
            self@.wf(),
            addr < RAM_SIZE,
        ensures
            w == self@.ram[addr as int],
    {
        self.ram[addr]
    }

    /// The word in the given register.
    pub fn get_register(&self, idx: usize) -> (w: u16)
        requires
            self@.wf(),
            idx < REG_COUNT,
        ensures
            w == self@.regs[idx as int],
    {
        self.registers[idx]
    }

    /// The three condition flags.
    pub fn get_flags(&self) -> (f: FlagRegisters)
        ensures
            f.zero == self@.zero,
            f.sign == self@.sign,
            f.carry == self@.carry,
    {
        self.flags
    }

    /// The next instruction address; `ROM_SIZE` denotes the halted state.
    pub fn get_program_counter(&self) -> (pc: usize)
        ensures
            pc == self@.pc,
    {
        self.program_counter
    }

    /// How many instructions have executed since construction.
    pub fn get_runtime_counter(&self) -> (n: usize)
        ensures
            n == self@.runtime,
    {
        self.runtime_counter
    }

    /// Whether a breakpoint is set on the given ROM cell.
    pub fn get_breakpoint(&self, addr: usize) -> (b: bool)
        requires
            self@.wf(),
            addr < ROM_SIZE,
        ensures
            b == self@.breakpoints[addr as int],
    {
        self.breakpoints[addr]
    }

    /// The current display radix.
    pub fn get_radix(&self) -> (r: DisplayRadix)
        ensures
            r == self@.radix,
    {
        self.radix
    }

    /// The label table, as address-to-names entries.
    pub fn get_labels(&self) -> (l: &Vec<(usize, Vec<String>)>)
        ensures
            labels_view(l@) == self@.labels,
    {
        &self.labels
    }
}

} // verus!
