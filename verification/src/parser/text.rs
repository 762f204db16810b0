//! The text section: raw instructions collected in the first pass, and the
//! second pass that resolves labels and operand text into final
//! instructions.
//!
//! An instruction line has one of three shapes: a mnemonic with a label
//! operand (control flow), with two register operands, or with three. A
//! register operand is a decimal index with an optional `R` prefix, of
//! either case.

use vstd::prelude::*;
use vstd::string::{StrSliceExecFns, StringExecFns};

use super::data::{all_digits, dec_val, lemma_dec_val_prefix};
use super::lines::{find_first_ws, first_ws, spec_split_commas, spec_trim, split_commas, str_eq, trim_str};
use super::{ParsingError, SpecParsingError};
use crate::instructions::{
    AluInstruction, ControlFlowInstruction, Instruction, MemoryInstruction,
};

verus! {

/// An instruction as the first pass sees it: the mnemonic and its operands,
/// still as text.
#[derive(Debug)]
pub enum RawInstruction {
    Label { op: String, label: String },
    Reg2 { op: String, z: String, x: String },
    Reg3 { op: String, z: String, x: String, y: String },
}

/// The mathematical value of a raw instruction.
pub ghost enum SpecRawInstruction {
    Label { op: Seq<char>, label: Seq<char> },
    Reg2 { op: Seq<char>, z: Seq<char>, x: Seq<char> },
    Reg3 { op: Seq<char>, z: Seq<char>, x: Seq<char>, y: Seq<char> },
}

impl View for RawInstruction {
    type V = SpecRawInstruction;

    open spec fn view(&self) -> SpecRawInstruction {
        match self {
            RawInstruction::Label { op, label } => SpecRawInstruction::Label {
                op: op@,
                label: label@,
            },
            RawInstruction::Reg2 { op, z, x } => SpecRawInstruction::Reg2 {
                op: op@,
                z: z@,
                x: x@,
            },
            RawInstruction::Reg3 { op, z, x, y } => SpecRawInstruction::Reg3 {
                op: op@,
                z: z@,
                x: x@,
                y: y@,
            },
        }
    }
}

impl DeepView for RawInstruction {
    type V = SpecRawInstruction;

    open spec fn deep_view(&self) -> SpecRawInstruction {
        self.view()
    }
}

/// A label table as its entries' mathematical values.
pub open spec fn name_map_view(labels: Seq<(String, usize)>) -> Seq<(Seq<char>, usize)> {
    Seq::new(labels.len(), |i: int| (labels[i].0@, labels[i].1))
}

/// The shape of one instruction line: the mnemonic runs to the first
/// whitespace, the rest is its comma-separated operand list. One operand is
/// a label reference, two or three are registers; anything else fits no
/// rule.
pub open spec fn spec_parse_raw(t: Seq<char>) -> Result<SpecRawInstruction, SpecParsingError> {
    let k = first_ws(t);
    let op = t.subrange(0, k);
    let rest = spec_trim(t.subrange(k, t.len() as int));
    if rest.len() == 0 {
        Err(SpecParsingError::MissingToken)
    } else {
        let parts = spec_split_commas(rest);
        if parts.len() == 1 {
            Ok(SpecRawInstruction::Label { op: op, label: parts[0] })
        } else if parts.len() == 2 {
            Ok(SpecRawInstruction::Reg2 { op: op, z: parts[0], x: parts[1] })
        } else if parts.len() == 3 {
            Ok(SpecRawInstruction::Reg3 { op: op, z: parts[0], x: parts[1], y: parts[2] })
        } else {
            Err(SpecParsingError::UnexpectedToken)
        }
    }
}

/// Cuts one instruction line into its raw shape.
pub fn parse_raw_instruction(t: &str) -> (r: Result<RawInstruction, ParsingError>)
    ensures
        match r {
            Ok(raw) => spec_parse_raw(t@) == Ok::<SpecRawInstruction, SpecParsingError>(raw@),
            Err(e) => spec_parse_raw(t@) == Err::<SpecRawInstruction, SpecParsingError>(e@),
        },
{
    let n = t.unicode_len();
    let k = find_first_ws(t);
    let op = String::from_str(t.substring_char(0, k));
    let rest = trim_str(t.substring_char(k, n));
    if rest.unicode_len() == 0 {
        return Err(ParsingError::MissingToken);
    }
    let parts = split_commas(rest.as_str());
    proof {
        assert(parts.deep_view().len() == parts@.len());
    }
    if parts.len() == 1 {
        let label = parts[0].clone();
        proof {
            assert(parts.deep_view()[0] == label@);
        }
        Ok(RawInstruction::Label { op, label })
    } else if parts.len() == 2 {
        let z = parts[0].clone();
        let x = parts[1].clone();
        proof {
            assert(parts.deep_view()[0] == z@ && parts.deep_view()[1] == x@);
        }
        Ok(RawInstruction::Reg2 { op, z, x })
    } else if parts.len() == 3 {
        let z = parts[0].clone();
        let x = parts[1].clone();
        let y = parts[2].clone();
        proof {
            assert(parts.deep_view()[0] == z@ && parts.deep_view()[1] == x@ && parts.deep_view()[2]
                == y@);
        }
        Ok(RawInstruction::Reg3 { op, z, x, y })
    } else {
        Err(ParsingError::UnexpectedToken)
    }
}

/// An eight-bit decimal literal's value.
pub open spec fn spec_parse_u8_dec(s: Seq<char>) -> Option<u8> {
    if s.len() == 0 || !all_digits(s) {
        None
    } else if dec_val(s) > 0xff {
        None
    } else {
        Some(dec_val(s) as u8)
    }
}

/// A register operand's index: an optional `R` or `r`, then a decimal
/// eight-bit index. Whether the index names an existing register is the
/// loader's concern, not the parser's.
pub open spec fn spec_parse_reg(s: Seq<char>) -> Option<u8> {
    if s.len() > 0 && (s[0] == 'R' || s[0] == 'r') {
        spec_parse_u8_dec(s.subrange(1, s.len() as int))
    } else {
        spec_parse_u8_dec(s)
    }
}

/// Parses an eight-bit decimal literal.
fn parse_u8_dec(s: &str) -> (r: Option<u8>)
    ensures
        r == spec_parse_u8_dec(s@),
{
    let n = s.unicode_len();
    if n == 0 {
        return None;
    }
    let mut v: u32 = 0;
    let mut i: usize = 0;
    while i < n
        invariant
            n == s@.len(),
            i <= n,
            all_digits(s@.subrange(0, i as int)),
            v as nat == dec_val(s@.subrange(0, i as int)),
            v <= 0xff,
        decreases n - i,
    {
        let c = s.get_char(i);
        if !(c >= '0' && c <= '9') {
            return None;
        }
        let ghost pre = s@.subrange(0, i as int);
        let d: u32 = (c as u32) - ('0' as u32);
        v = v * 10 + d;
        proof {
            assert(s@.subrange(0, i + 1) =~= pre.push(s@[i as int]));
            assert(s@.subrange(0, i + 1).drop_last() =~= pre);
        }
        if v > 0xff {
            proof {
                if all_digits(s@) {
                    lemma_dec_val_prefix(s@, i + 1);
                }
            }
            return None;
        }
        i += 1;
    }
    proof {
        assert(s@.subrange(0, n as int) =~= s@);
    }
    Some(v as u8)
}

/// Parses a register operand.
pub fn parse_register(s: &str) -> (r: Option<u8>)
    ensures
        r == spec_parse_reg(s@),
{
    let n = s.unicode_len();
    if n > 0 {
        let c = s.get_char(0);
        if c == 'R' || c == 'r' {
            return parse_u8_dec(s.substring_char(1, n));
        }
    }
    parse_u8_dec(s)
}

/// The first label entry with the given name, searched from `i` on.
pub open spec fn spec_lookup_from(labels: Seq<(Seq<char>, usize)>, name: Seq<char>, i: int) -> Option<
    usize,
>
    decreases labels.len() - i,
{
    if i < 0 || i >= labels.len() {
        None
    } else if labels[i].0 == name {
        Some(labels[i].1)
    } else {
        spec_lookup_from(labels, name, i + 1)
    }
}

/// The address a label name resolves to, if it is declared.
pub open spec fn spec_lookup(labels: Seq<(Seq<char>, usize)>, name: Seq<char>) -> Option<usize> {
    spec_lookup_from(labels, name, 0)
}

/// Looks a label name up in the table.
pub fn lookup_label(labels: &Vec<(String, usize)>, name: &str) -> (r: Option<usize>)
    ensures
        r == spec_lookup(name_map_view(labels@), name@),
{
    let n = labels.len();
    let mut i: usize = 0;
    while i < n
        invariant
            n == labels@.len(),
            i <= n,
            spec_lookup(name_map_view(labels@), name@) == spec_lookup_from(
                name_map_view(labels@),
                name@,
                i as int,
            ),
        decreases n - i,
    {
        if str_eq(labels[i].0.as_str(), name) {
            return Some(labels[i].1);
        }
        i += 1;
    }
    None
}

/// The instruction a raw line resolves to. A label operand must be
/// declared; a mnemonic must belong to its shape; register text must be an
/// eight-bit index.
pub open spec fn spec_resolve_one(
    r: SpecRawInstruction,
    labels: Seq<(Seq<char>, usize)>,
) -> Result<Instruction, SpecParsingError> {
    match r {
        SpecRawInstruction::Label { op, label } => match spec_lookup(labels, label) {
            None => Err(SpecParsingError::UndefinedLabel(label)),
            Some(addr) => {
                let a = addr as u16;
                if op == "jmp"@ {
                    Ok(Instruction::ControlFlow(ControlFlowInstruction::Jump(a)))
                } else if op == "jmpz"@ {
                    Ok(Instruction::ControlFlow(ControlFlowInstruction::JumpZero(a)))
                } else if op == "jmps"@ {
                    Ok(Instruction::ControlFlow(ControlFlowInstruction::JumpSign(a)))
                } else if op == "jmpc"@ {
                    Ok(Instruction::ControlFlow(ControlFlowInstruction::JumpCarry(a)))
                } else if op == "jmpnz"@ {
                    Ok(Instruction::ControlFlow(ControlFlowInstruction::JumpNotZero(a)))
                } else if op == "jmpns"@ {
                    Ok(Instruction::ControlFlow(ControlFlowInstruction::JumpNotSign(a)))
                } else if op == "jmpnc"@ {
                    Ok(Instruction::ControlFlow(ControlFlowInstruction::JumpNotCarry(a)))
                } else {
                    Err(SpecParsingError::UnexpectedToken)
                }
            },
        },
        SpecRawInstruction::Reg2 { op, z, x } => match (spec_parse_reg(z), spec_parse_reg(x)) {
            (Some(zz), Some(xx)) => {
                if op == "mov"@ {
                    Ok(Instruction::Alu(AluInstruction::Move(zz, xx)))
                } else if op == "inc"@ {
                    Ok(Instruction::Alu(AluInstruction::Increment(zz, xx)))
                } else if op == "dec"@ {
                    Ok(Instruction::Alu(AluInstruction::Decrement(zz, xx)))
                } else if op == "shl"@ {
                    Ok(Instruction::Alu(AluInstruction::LShiftLeft(zz, xx)))
                } else if op == "shr"@ {
                    Ok(Instruction::Alu(AluInstruction::LShiftRight(zz, xx)))
                } else if op == "ashl"@ {
                    Ok(Instruction::Alu(AluInstruction::AShiftLeft(zz, xx)))
                } else if op == "ashr"@ {
                    Ok(Instruction::Alu(AluInstruction::AShiftRight(zz, xx)))
                } else if op == "not"@ {
                    Ok(Instruction::Alu(AluInstruction::LogicalNot(zz, xx)))
                } else if op == "ld"@ {
                    Ok(Instruction::Memory(MemoryInstruction::Load(zz, xx)))
                } else if op == "st"@ {
                    Ok(Instruction::Memory(MemoryInstruction::Store(zz, xx)))
                } else {
                    Err(SpecParsingError::UnexpectedToken)
                }
            },
            _ => Err(SpecParsingError::UnexpectedToken),
        },
        SpecRawInstruction::Reg3 { op, z, x, y } => match (
            spec_parse_reg(z),
            spec_parse_reg(x),
            spec_parse_reg(y),
        ) {
            (Some(zz), Some(xx), Some(yy)) => {
                if op == "add"@ {
                    Ok(Instruction::Alu(AluInstruction::Add(zz, xx, yy)))
                } else if op == "sub"@ {
                    Ok(Instruction::Alu(AluInstruction::Subtract(zz, xx, yy)))
                } else if op == "and"@ {
                    Ok(Instruction::Alu(AluInstruction::LogicalAnd(zz, xx, yy)))
                } else if op == "or"@ {
                    Ok(Instruction::Alu(AluInstruction::LogicalOr(zz, xx, yy)))
                } else {
                    Err(SpecParsingError::UnexpectedToken)
                }
            },
            _ => Err(SpecParsingError::UnexpectedToken),
        },
    }
}

/// Resolves one raw instruction.
fn resolve_one(r: &RawInstruction, labels: &Vec<(String, usize)>) -> (res: Result<
    Instruction,
    ParsingError,
>)
    ensures
        match res {
            Ok(ins) => spec_resolve_one(r@, name_map_view(labels@)) == Ok::<
                Instruction,
                SpecParsingError,
            >(ins),
            Err(e) => spec_resolve_one(r@, name_map_view(labels@)) == Err::<
                Instruction,
                SpecParsingError,
            >(e@),
        },
{
    match r {
        RawInstruction::Label { op, label } => {
            let addr = match lookup_label(labels, label.as_str()) {
                Some(a) => a,
                None => {
                    return Err(ParsingError::UndefinedLabel(label.clone()));
                },
            };
            #[verifier::truncate]
            let a = addr as u16;
            if str_eq(op.as_str(), "jmp") {
                Ok(Instruction::ControlFlow(ControlFlowInstruction::Jump(a)))
            } else if str_eq(op.as_str(), "jmpz") {
                Ok(Instruction::ControlFlow(ControlFlowInstruction::JumpZero(a)))
            } else if str_eq(op.as_str(), "jmps") {
                Ok(Instruction::ControlFlow(ControlFlowInstruction::JumpSign(a)))
            } else if str_eq(op.as_str(), "jmpc") {
                Ok(Instruction::ControlFlow(ControlFlowInstruction::JumpCarry(a)))
            } else if str_eq(op.as_str(), "jmpnz") {
                Ok(Instruction::ControlFlow(ControlFlowInstruction::JumpNotZero(a)))
            } else if str_eq(op.as_str(), "jmpns") {
                Ok(Instruction::ControlFlow(ControlFlowInstruction::JumpNotSign(a)))
            } else if str_eq(op.as_str(), "jmpnc") {
                Ok(Instruction::ControlFlow(ControlFlowInstruction::JumpNotCarry(a)))
            } else {
                Err(ParsingError::UnexpectedToken)
            }
        },
        RawInstruction::Reg2 { op, z, x } => {
            let zz = match parse_register(z.as_str()) {
                Some(v) => v,
                None => {
                    return Err(ParsingError::UnexpectedToken);
                },
            };
            let xx = match parse_register(x.as_str()) {
                Some(v) => v,
                None => {
                    return Err(ParsingError::UnexpectedToken);
                },
            };
            if str_eq(op.as_str(), "mov") {
                Ok(Instruction::Alu(AluInstruction::Move(zz, xx)))
            } else if str_eq(op.as_str(), "inc") {
                Ok(Instruction::Alu(AluInstruction::Increment(zz, xx)))
            } else if str_eq(op.as_str(), "dec") {
                Ok(Instruction::Alu(AluInstruction::Decrement(zz, xx)))
            } else if str_eq(op.as_str(), "shl") {
                Ok(Instruction::Alu(AluInstruction::LShiftLeft(zz, xx)))
            } else if str_eq(op.as_str(), "shr") {
                Ok(Instruction::Alu(AluInstruction::LShiftRight(zz, xx)))
            } else if str_eq(op.as_str(), "ashl") {
                Ok(Instruction::Alu(AluInstruction::AShiftLeft(zz, xx)))
            } else if str_eq(op.as_str(), "ashr") {
                Ok(Instruction::Alu(AluInstruction::AShiftRight(zz, xx)))
            } else if str_eq(op.as_str(), "not") {
                Ok(Instruction::Alu(AluInstruction::LogicalNot(zz, xx)))
            } else if str_eq(op.as_str(), "ld") {
                Ok(Instruction::Memory(MemoryInstruction::Load(zz, xx)))
            } else if str_eq(op.as_str(), "st") {
                Ok(Instruction::Memory(MemoryInstruction::Store(zz, xx)))
            } else {
                Err(ParsingError::UnexpectedToken)
            }
        },
        RawInstruction::Reg3 { op, z, x, y } => {
            let zz = match parse_register(z.as_str()) {
                Some(v) => v,
                None => {
                    return Err(ParsingError::UnexpectedToken);
                },
            };
            let xx = match parse_register(x.as_str()) {
                Some(v) => v,
                None => {
                    return Err(ParsingError::UnexpectedToken);
                },
            };
            let yy = match parse_register(y.as_str()) {
                Some(v) => v,
                None => {
                    return Err(ParsingError::UnexpectedToken);
                },
            };
            if str_eq(op.as_str(), "add") {
                Ok(Instruction::Alu(AluInstruction::Add(zz, xx, yy)))
            } else if str_eq(op.as_str(), "sub") {
                Ok(Instruction::Alu(AluInstruction::Subtract(zz, xx, yy)))
            } else if str_eq(op.as_str(), "and") {
                Ok(Instruction::Alu(AluInstruction::LogicalAnd(zz, xx, yy)))
            } else if str_eq(op.as_str(), "or") {
                Ok(Instruction::Alu(AluInstruction::LogicalOr(zz, xx, yy)))
            } else {
                Err(ParsingError::UnexpectedToken)
            }
        },
    }
}

/// The program a list of raw instructions resolves to, from position `i`
/// on, after the instructions already resolved.
pub open spec fn spec_resolve_from(
    raws: Seq<SpecRawInstruction>,
    labels: Seq<(Seq<char>, usize)>,
    i: int,
    acc: Seq<Instruction>,
) -> Result<Seq<Instruction>, SpecParsingError>
    decreases raws.len() - i,
{
    if i < 0 || i >= raws.len() {
        Ok(acc)
    } else {
        match spec_resolve_one(raws[i], labels) {
            Ok(ins) => spec_resolve_from(raws, labels, i + 1, acc.push(ins)),
            Err(e) => Err(e),
        }
    }
}

/// The program a list of raw instructions resolves to.
pub open spec fn spec_resolve(
    raws: Seq<SpecRawInstruction>,
    labels: Seq<(Seq<char>, usize)>,
) -> Result<Seq<Instruction>, SpecParsingError> {
    spec_resolve_from(raws, labels, 0, Seq::empty())
}

/// The second pass: resolves every raw instruction against the label table,
/// in order, stopping at the first failure.
pub fn parse_instructions(raws: &Vec<RawInstruction>, labels: &Vec<(String, usize)>) -> (r: Result<
    Vec<Instruction>,
    ParsingError,
>)
    ensures
        match r {
            Ok(prog) => spec_resolve(raws.deep_view(), name_map_view(labels@)) == Ok::<
                Seq<Instruction>,
                SpecParsingError,
            >(prog@),
            Err(e) => spec_resolve(raws.deep_view(), name_map_view(labels@)) == Err::<
                Seq<Instruction>,
                SpecParsingError,
            >(e@),
        },
{
    let n = raws.len();
    let mut prog: Vec<Instruction> = Vec::new();
    let mut i: usize = 0;
    proof {
        assert(prog@ =~= Seq::<Instruction>::empty());
    }
    while i < n
        invariant
            n == raws@.len(),
            i <= n,
            spec_resolve(raws.deep_view(), name_map_view(labels@)) == spec_resolve_from(
                raws.deep_view(),
                name_map_view(labels@),
                i as int,
                prog@,
            ),
        decreases n - i,
    {
        let ins = match resolve_one(&raws[i], labels) {
            Ok(ins) => ins,
            Err(e) => {
                proof {
                    assert(raws.deep_view()[i as int] == raws@[i as int]@);
                }
                return Err(e);
            },
        };
        proof {
            assert(raws.deep_view()[i as int] == raws@[i as int]@);
        }
        prog.push(ins);
        i += 1;
    }
    Ok(prog)
}

} // verus!
