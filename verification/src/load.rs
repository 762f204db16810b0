//! Installing a parsed program into the machine: the program image, the
//! data image and the label map go in together, breakpoints are cleared,
//! the machine is reset, and the static bound check decides whether the
//! program is admitted.

use vstd::prelude::*;

use crate::instructions::{Instruction, RegisterBoundCheck};
use crate::processor::implementation::{loaded_ram, loaded_rom};
use crate::processor::{ProcState, Processor, RAM_SIZE, REG_COUNT, ROM_SIZE};

verus! {

/// The machine state after installing the given pieces: a program brings a
/// cleared label table and breakpoints and a full reset with it; a data
/// image replaces both the RAM and its reset snapshot; a label map replaces
/// the label table.
pub open spec fn spec_load_cpu(
    s: ProcState,
    rom: Option<Seq<Instruction>>,
    ram: Option<Seq<u16>>,
    labels: Option<Seq<(usize, Seq<Seq<char>>)>>,
) -> ProcState {
    let s1 = match rom {
        Some(r) => ProcState {
            rom: loaded_rom(r),
            labels: Seq::empty(),
            breakpoints: Seq::new(ROM_SIZE as nat, |i: int| false),
            ram: s.ram_initial,
            regs: Seq::new(REG_COUNT as nat, |i: int| 0u16),
            zero: false,
            sign: false,
            carry: false,
            pc: 0,
            ..s
        },
        None => s,
    };
    let s2 = match ram {
        Some(d) => ProcState { ram: loaded_ram(d), ram_initial: loaded_ram(d), ..s1 },
        None => s1,
    };
    match labels {
        Some(l) => ProcState { labels: l, ..s2 },
        None => s2,
    }
}

/// Installs the given pieces into the machine and admits the result exactly
/// when every ROM cell passes the static bound check: ALU and memory
/// operands under the register count, control-flow addresses inside the
/// ROM.
pub fn load_cpu(
    proc: &mut Processor,
    rom: Option<&[Instruction]>,
    ram: Option<&[u16]>,
    labels: Option<Vec<(usize, Vec<String>)>>,
) -> (ok: bool)
    requires
        old(proc)@.wf(),
        rom matches Some(r) ==> r@.len() <= ROM_SIZE,
        ram matches Some(d) ==> d@.len() <= RAM_SIZE,
    ensures
        final(proc)@.wf(),
        final(proc)@ == spec_load_cpu(
            old(proc)@,
            match rom {
                Some(r) => Some(r@),
                None => None,
            },
            match ram {
                Some(d) => Some(d@),
                None => None,
            },
            match labels {
                Some(l) => Some(crate::processor::labels_view(l@)),
                None => None,
            },
        ),
        ok == forall|i: int| 0 <= i < ROM_SIZE ==> (#[trigger] final(proc)@.rom[i]).bound_spec(),
{
    if let Some(r) = rom {
        proc.load_rom(r);
        proc.clear_breakpoints();
        proc.reset();
    }
    if let Some(d) = ram {
        proc.load_ram(d);
    }
    if let Some(l) = labels {
        proc.load_labels(l);
    }
    match proc.check() {
        Ok(_) => true,
        Err(_) => false,
    }
}

} // verus!
