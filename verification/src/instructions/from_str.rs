//! Decoding a 15-character binary word back into an instruction.
//!
//! A word whose length is not 15 is rejected as `InvalidLength`; one whose
//! class or opcode bits name no instruction (including the unassigned
//! control-flow opcode) as `InvalidInstruction`; and one whose payload holds
//! a character other than `'0'`/`'1'` as `BinaryParsing`.

use vstd::prelude::*;
use vstd::string::StrSliceExecFns;

use super::{AluInstruction, ControlFlowInstruction, Instruction, MemoryInstruction};
use crate::processor::EmulationError;

verus! {

/// Whether a character is a binary digit.
pub open spec fn is_bit(c: char) -> bool {
    c == '0' || c == '1'
}

/// Whether a sequence consists of binary digits only.
pub open spec fn bits_ok(s: Seq<char>) -> bool {
    forall|i: int| 0 <= i < s.len() ==> is_bit(#[trigger] s[i])
}

/// The value of a big-endian sequence of binary digits; any character other
/// than `'1'` counts as a zero bit.
pub open spec fn bits_val(s: Seq<char>) -> nat
    decreases s.len(),
{
    if s.len() == 0 {
        0
    } else {
        bits_val(s.drop_last()) * 2 + (if s.last() == '1' {
            1nat
        } else {
            0nat
        })
    }
}

/// Appending a digit doubles the value and adds the digit.
pub proof fn lemma_bits_val_snoc(s: Seq<char>, c: char)
    ensures
        bits_val(s.push(c)) == bits_val(s) * 2 + (if c == '1' {
            1nat
        } else {
            0nat
        }),
{
    assert(s.push(c).drop_last() =~= s);
    assert(s.push(c).last() == c);
}

/// An `n`-digit value is below two to the `n`.
pub proof fn lemma_bits_val_bound(s: Seq<char>)
    ensures
        bits_val(s) < vstd::arithmetic::power2::pow2(s.len()),
    decreases s.len(),
{
    if s.len() == 0 {
        vstd::arithmetic::power2::lemma2_to64();
    } else {
        lemma_bits_val_bound(s.drop_last());
        assert(vstd::arithmetic::power2::pow2(s.len()) == 2 * vstd::arithmetic::power2::pow2(
            (s.len() - 1) as nat,
        )) by {
            vstd::arithmetic::power::lemma_pow_adds(2, 1, (s.len() - 1) as nat);
            vstd::arithmetic::power::lemma_pow1(2);
            vstd::arithmetic::power::lemma_pow_positive(2, (s.len() - 1) as nat);
            vstd::arithmetic::power::lemma_pow_positive(2, s.len());
        };
    }
}

/// A sequence with a non-digit somewhere in a window has a non-digit.
proof fn lemma_not_bits_ok_sub(s: Seq<char>, from: int, to: int)
    requires
        0 <= from <= to <= s.len(),
        !bits_ok(s.subrange(from, to)),
    ensures
        !bits_ok(s),
{
    let sub = s.subrange(from, to);
    let i = choose|i: int| 0 <= i < sub.len() && !is_bit(sub[i]);
    assert(sub[i] == s[from + i]);
}

/// Parses the window of `len` characters starting at `from` as a big-endian
/// binary number.
fn parse_bin_field(s: &str, from: usize, len: usize) -> (r: Result<u16, EmulationError>)
    requires
        from + len <= s@.len(),
        from + len <= usize::MAX,
        len <= 9,
    ensures
        match r {
            Ok(v) => {
                &&& bits_ok(s@.subrange(from as int, from + len))
                &&& v as nat == bits_val(s@.subrange(from as int, from + len))
                &&& v < 512
            },
            Err(e) => {
                &&& e == EmulationError::BinaryParsing
                &&& !bits_ok(s@.subrange(from as int, from + len))
            },
        },
{
    let mut v: u16 = 0;
    let mut i: usize = 0;
    while i < len
        invariant
            from + len <= s@.len(),
            from + len <= usize::MAX,
            len <= 9,
            i <= len,
            bits_ok(s@.subrange(from as int, from + i)),
            v as nat == bits_val(s@.subrange(from as int, from + i)),
            v < 512,
        decreases len - i,
    {
        let ghost pre = s@.subrange(from as int, from + i);
        proof {
            lemma_bits_val_bound(pre);
            vstd::arithmetic::power::lemma_pow_increases(2, i as nat, 8);
            vstd::arithmetic::power2::lemma2_to64();
        }
        let c = s.get_char(from + i);
        if c == '1' {
            v = v * 2 + 1;
        } else if c == '0' {
            v = v * 2;
        } else {
            proof {
                assert(s@.subrange(from as int, from + len)[i as int] == s@[from + i]);
            }
            return Err(EmulationError::BinaryParsing);
        }
        proof {
            assert(s@.subrange(from as int, from + i + 1) =~= pre.push(s@[from + i]));
            lemma_bits_val_snoc(pre, s@[from + i]);
        }
        i += 1;
    }
    proof {
        assert(s@.subrange(from as int, from + len) =~= s@.subrange(from as int, from + i));
    }
    Ok(v)
}

/// Parses a 9-character payload as three 3-bit register fields.
pub fn parse_registers(s: &str) -> (r: Result<(u8, u8, u8), EmulationError>)
    ensures
        match r {
            Ok(t) => {
                &&& s@.len() == 9
                &&& bits_ok(s@)
                &&& t.0 < 8 && t.0 as nat == bits_val(s@.subrange(0, 3))
                &&& t.1 < 8 && t.1 as nat == bits_val(s@.subrange(3, 6))
                &&& t.2 < 8 && t.2 as nat == bits_val(s@.subrange(6, 9))
            },
            Err(e) => (e == EmulationError::InvalidLength && s@.len() != 9) || (e
                == EmulationError::BinaryParsing && s@.len() == 9 && !bits_ok(s@)),
        },
{
    if s.unicode_len() != 9 {
        return Err(EmulationError::InvalidLength);
    }
    let v1 = match parse_bin_field(s, 0, 3) {
        Ok(v) => v,
        Err(e) => {
            proof {
                lemma_not_bits_ok_sub(s@, 0, 3);
            }
            return Err(e);
        },
    };
    let v2 = match parse_bin_field(s, 3, 3) {
        Ok(v) => v,
        Err(e) => {
            proof {
                lemma_not_bits_ok_sub(s@, 3, 6);
            }
            return Err(e);
        },
    };
    let v3 = match parse_bin_field(s, 6, 3) {
        Ok(v) => v,
        Err(e) => {
            proof {
                lemma_not_bits_ok_sub(s@, 6, 9);
            }
            return Err(e);
        },
    };
    proof {
        lemma_bits_val_bound(s@.subrange(0, 3));
        lemma_bits_val_bound(s@.subrange(3, 6));
        lemma_bits_val_bound(s@.subrange(6, 9));
        vstd::arithmetic::power2::lemma2_to64();
        assert forall|i: int| 0 <= i < s@.len() implies is_bit(#[trigger] s@[i]) by {
            if i < 3 {
                assert(s@[i] == s@.subrange(0, 3)[i]);
            } else if i < 6 {
                assert(s@[i] == s@.subrange(3, 6)[i - 3]);
            } else {
                assert(s@[i] == s@.subrange(6, 9)[i - 6]);
            }
        }
    }
    Ok((v1 as u8, v2 as u8, v3 as u8))
}

/// Parses a 9-character payload as a 9-bit absolute address.
pub fn parse_address(s: &str) -> (r: Result<u16, EmulationError>)
    ensures
        match r {
            Ok(a) => {
                &&& s@.len() == 9
                &&& bits_ok(s@)
                &&& a as nat == bits_val(s@)
                &&& a < 512
            },
            Err(e) => (e == EmulationError::InvalidLength && s@.len() != 9) || (e
                == EmulationError::BinaryParsing && s@.len() == 9 && !bits_ok(s@)),
        },
{
    if s.unicode_len() != 9 {
        return Err(EmulationError::InvalidLength);
    }
    proof {
        assert(s@.subrange(0, 9) =~= s@);
    }
    parse_bin_field(s, 0, 9)
}

/// The decoding of an ALU word: class bits `00`, a 4-bit opcode, three
/// register fields.
pub open spec fn spec_decode_alu(s: Seq<char>) -> Result<AluInstruction, EmulationError> {
    if s.len() != 15 {
        Err(EmulationError::InvalidLength)
    } else if !(s[0] == '0' && s[1] == '0') {
        Err(EmulationError::InvalidInstruction)
    } else if !bits_ok(s.subrange(6, 15)) {
        Err(EmulationError::BinaryParsing)
    } else {
        let r1 = bits_val(s.subrange(6, 9)) as u8;
        let r2 = bits_val(s.subrange(9, 12)) as u8;
        let r3 = bits_val(s.subrange(12, 15)) as u8;
        if s[2] == '0' && s[3] == '0' && s[4] == '0' && s[5] == '0' {
            Ok(AluInstruction::Move(r1, r2))
        } else if s[2] == '0' && s[3] == '0' && s[4] == '0' && s[5] == '1' {
            Ok(AluInstruction::Add(r1, r2, r3))
        } else if s[2] == '0' && s[3] == '0' && s[4] == '1' && s[5] == '0' {
            Ok(AluInstruction::Subtract(r1, r2, r3))
        } else if s[2] == '0' && s[3] == '0' && s[4] == '1' && s[5] == '1' {
            Ok(AluInstruction::LogicalAnd(r1, r2, r3))
        } else if s[2] == '0' && s[3] == '1' && s[4] == '0' && s[5] == '0' {
            Ok(AluInstruction::LogicalOr(r1, r2, r3))
        } else if s[2] == '0' && s[3] == '1' && s[4] == '0' && s[5] == '1' {
            Ok(AluInstruction::LogicalNot(r1, r2))
        } else if s[2] == '0' && s[3] == '1' && s[4] == '1' && s[5] == '0' {
            Ok(AluInstruction::Increment(r1, r2))
        } else if s[2] == '0' && s[3] == '1' && s[4] == '1' && s[5] == '1' {
            Ok(AluInstruction::Decrement(r1, r2))
        } else if s[2] == '1' && s[3] == '0' && s[4] == '0' && s[5] == '0' {
            Ok(AluInstruction::LShiftLeft(r1, r2))
        } else if s[2] == '1' && s[3] == '0' && s[4] == '0' && s[5] == '1' {
            Ok(AluInstruction::LShiftRight(r1, r2))
        } else if s[2] == '1' && s[3] == '0' && s[4] == '1' && s[5] == '0' {
            Ok(AluInstruction::AShiftLeft(r1, r2))
        } else if s[2] == '1' && s[3] == '0' && s[4] == '1' && s[5] == '1' {
            Ok(AluInstruction::AShiftRight(r1, r2))
        } else {
            Err(EmulationError::InvalidInstruction)
        }
    }
}

/// The decoding of a memory word: class bits `10` (load) or `11` (store)
/// with an all-zero opcode. A load carries its destination in the top field
/// and its address register in the bottom one; a store its source in the
/// middle field and its address register in the bottom one.
pub open spec fn spec_decode_memory(s: Seq<char>) -> Result<MemoryInstruction, EmulationError> {
    if s.len() != 15 {
        Err(EmulationError::InvalidLength)
    } else if !bits_ok(s.subrange(6, 15)) {
        Err(EmulationError::BinaryParsing)
    } else {
        let r1 = bits_val(s.subrange(6, 9)) as u8;
        let r2 = bits_val(s.subrange(9, 12)) as u8;
        let r3 = bits_val(s.subrange(12, 15)) as u8;
        if s[0] == '1' && s[1] == '0' && s[2] == '0' && s[3] == '0' && s[4] == '0' && s[5] == '0' {
            Ok(MemoryInstruction::Load(r1, r3))
        } else if s[0] == '1' && s[1] == '1' && s[2] == '0' && s[3] == '0' && s[4] == '0' && s[5]
            == '0' {
            Ok(MemoryInstruction::Store(r2, r3))
        } else {
            Err(EmulationError::InvalidInstruction)
        }
    }
}

/// The decoding of a control-flow word: class bits `01`, a 4-bit opcode
/// (where `0100` is unassigned and rejected), and a 9-bit address.
pub open spec fn spec_decode_control_flow(s: Seq<char>) -> Result<
    ControlFlowInstruction,
    EmulationError,
> {
    if s.len() != 15 {
        Err(EmulationError::InvalidLength)
    } else if !(s[0] == '0' && s[1] == '1') {
        Err(EmulationError::InvalidInstruction)
    } else if !bits_ok(s.subrange(6, 15)) {
        Err(EmulationError::BinaryParsing)
    } else {
        let a = bits_val(s.subrange(6, 15)) as u16;
        if s[2] == '0' && s[3] == '0' && s[4] == '0' && s[5] == '0' {
            Ok(ControlFlowInstruction::Jump(a))
        } else if s[2] == '0' && s[3] == '0' && s[4] == '0' && s[5] == '1' {
            Ok(ControlFlowInstruction::JumpZero(a))
        } else if s[2] == '0' && s[3] == '0' && s[4] == '1' && s[5] == '0' {
            Ok(ControlFlowInstruction::JumpSign(a))
        } else if s[2] == '0' && s[3] == '0' && s[4] == '1' && s[5] == '1' {
            Ok(ControlFlowInstruction::JumpCarry(a))
        } else if s[2] == '0' && s[3] == '1' && s[4] == '0' && s[5] == '1' {
            Ok(ControlFlowInstruction::JumpNotZero(a))
        } else if s[2] == '0' && s[3] == '1' && s[4] == '1' && s[5] == '0' {
            Ok(ControlFlowInstruction::JumpNotSign(a))
        } else if s[2] == '0' && s[3] == '1' && s[4] == '1' && s[5] == '1' {
            Ok(ControlFlowInstruction::JumpNotCarry(a))
        } else {
            Err(EmulationError::InvalidInstruction)
        }
    }
}

/// The decoding of any instruction word, dispatching on the class bits.
pub open spec fn spec_decode(s: Seq<char>) -> Result<Instruction, EmulationError> {
    if s.len() != 15 {
        Err(EmulationError::InvalidLength)
    } else if s[0] == '0' && s[1] == '0' {
        match spec_decode_alu(s) {
            Ok(i) => Ok(Instruction::Alu(i)),
            Err(e) => Err(e),
        }
    } else if s[0] == '1' && (s[1] == '0' || s[1] == '1') {
        match spec_decode_memory(s) {
            Ok(i) => Ok(Instruction::Memory(i)),
            Err(e) => Err(e),
        }
    } else if s[0] == '0' && s[1] == '1' {
        match spec_decode_control_flow(s) {
            Ok(i) => Ok(Instruction::ControlFlow(i)),
            Err(e) => Err(e),
        }
    } else {
        Err(EmulationError::InvalidInstruction)
    }
}

impl AluInstruction {
    /// Decodes an ALU word.
    pub fn from_str(s: &str) -> (r: Result<AluInstruction, EmulationError>)
        ensures
            r == spec_decode_alu(s@),
    {
        if s.unicode_len() != 15 {
            return Err(EmulationError::InvalidLength);
        }
        if !(s.get_char(0) == '0' && s.get_char(1) == '0') {
            return Err(EmulationError::InvalidInstruction);
        }
        let payload = s.substring_char(6, 15);
        let (r1, r2, r3) = match parse_registers(payload) {
            Ok(t) => t,
            Err(e) => {
                return Err(e);
            },
        };
        proof {
            assert(payload@.subrange(0, 3) =~= s@.subrange(6, 9));
            assert(payload@.subrange(3, 6) =~= s@.subrange(9, 12));
            assert(payload@.subrange(6, 9) =~= s@.subrange(12, 15));
        }
        match (s.get_char(2), s.get_char(3), s.get_char(4), s.get_char(5)) {
            ('0', '0', '0', '0') => Ok(AluInstruction::Move(r1, r2)),
            ('0', '0', '0', '1') => Ok(AluInstruction::Add(r1, r2, r3)),
            ('0', '0', '1', '0') => Ok(AluInstruction::Subtract(r1, r2, r3)),
            ('0', '0', '1', '1') => Ok(AluInstruction::LogicalAnd(r1, r2, r3)),
            ('0', '1', '0', '0') => Ok(AluInstruction::LogicalOr(r1, r2, r3)),
            ('0', '1', '0', '1') => Ok(AluInstruction::LogicalNot(r1, r2)),
            ('0', '1', '1', '0') => Ok(AluInstruction::Increment(r1, r2)),
            ('0', '1', '1', '1') => Ok(AluInstruction::Decrement(r1, r2)),
            ('1', '0', '0', '0') => Ok(AluInstruction::LShiftLeft(r1, r2)),
            ('1', '0', '0', '1') => Ok(AluInstruction::LShiftRight(r1, r2)),
            ('1', '0', '1', '0') => Ok(AluInstruction::AShiftLeft(r1, r2)),
            ('1', '0', '1', '1') => Ok(AluInstruction::AShiftRight(r1, r2)),
            _ => Err(EmulationError::InvalidInstruction),
        }
    }
}

impl MemoryInstruction {
    /// Decodes a memory word.
    pub fn from_str(s: &str) -> (r: Result<MemoryInstruction, EmulationError>)
        ensures
            r == spec_decode_memory(s@),
    {
        if s.unicode_len() != 15 {
            return Err(EmulationError::InvalidLength);
        }
        let payload = s.substring_char(6, 15);
        let (r1, r2, r3) = match parse_registers(payload) {
            Ok(t) => t,
            Err(e) => {
                return Err(e);
            },
        };
        proof {
            assert(payload@.subrange(0, 3) =~= s@.subrange(6, 9));
            assert(payload@.subrange(3, 6) =~= s@.subrange(9, 12));
            assert(payload@.subrange(6, 9) =~= s@.subrange(12, 15));
        }
        match (
            s.get_char(0),
            s.get_char(1),
            s.get_char(2),
            s.get_char(3),
            s.get_char(4),
            s.get_char(5),
        ) {
            ('1', '0', '0', '0', '0', '0') => Ok(MemoryInstruction::Load(r1, r3)),
            ('1', '1', '0', '0', '0', '0') => Ok(MemoryInstruction::Store(r2, r3)),
            _ => Err(EmulationError::InvalidInstruction),
        }
    }
}

impl ControlFlowInstruction {
    /// Decodes a control-flow word.
    pub fn from_str(s: &str) -> (r: Result<ControlFlowInstruction, EmulationError>)
        ensures
            r == spec_decode_control_flow(s@),
    {
        if s.unicode_len() != 15 {
            return Err(EmulationError::InvalidLength);
        }
        if !(s.get_char(0) == '0' && s.get_char(1) == '1') {
            return Err(EmulationError::InvalidInstruction);
        }
        let payload = s.substring_char(6, 15);
        let a = match parse_address(payload) {
            Ok(a) => a,
            Err(e) => {
                return Err(e);
            },
        };
        match (s.get_char(2), s.get_char(3), s.get_char(4), s.get_char(5)) {
            ('0', '0', '0', '0') => Ok(ControlFlowInstruction::Jump(a)),
            ('0', '0', '0', '1') => Ok(ControlFlowInstruction::JumpZero(a)),
            ('0', '0', '1', '0') => Ok(ControlFlowInstruction::JumpSign(a)),
            ('0', '0', '1', '1') => Ok(ControlFlowInstruction::JumpCarry(a)),
            ('0', '1', '0', '1') => Ok(ControlFlowInstruction::JumpNotZero(a)),
            ('0', '1', '1', '0') => Ok(ControlFlowInstruction::JumpNotSign(a)),
            ('0', '1', '1', '1') => Ok(ControlFlowInstruction::JumpNotCarry(a)),
            _ => Err(EmulationError::InvalidInstruction),
        }
    }
}

impl Instruction {
    /// Decodes any instruction word, dispatching on the class bits.
    pub fn from_str(s: &str) -> (r: Result<Instruction, EmulationError>)
        ensures
            r == spec_decode(s@),
    {
        if s.unicode_len() != 15 {
            return Err(EmulationError::InvalidLength);
        }
        let c0 = s.get_char(0);
        let c1 = s.get_char(1);
        if c0 == '0' && c1 == '0' {
            match AluInstruction::from_str(s) {
                Ok(i) => Ok(Instruction::Alu(i)),
                Err(e) => Err(e),
            }
        } else if c0 == '1' && (c1 == '0' || c1 == '1') {
            match MemoryInstruction::from_str(s) {
                Ok(i) => Ok(Instruction::Memory(i)),
                Err(e) => Err(e),
            }
        } else if c0 == '0' && c1 == '1' {
            match ControlFlowInstruction::from_str(s) {
                Ok(i) => Ok(Instruction::ControlFlow(i)),
                Err(e) => Err(e),
            }
        } else {
            Err(EmulationError::InvalidInstruction)
        }
    }
}

} // verus!
