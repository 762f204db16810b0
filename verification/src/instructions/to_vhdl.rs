//! The 15-bit binary encoding of the hardware instruction set, rendered as
//! positional text of `'0'`/`'1'`: a 6-bit opcode followed by a 9-bit
//! payload. ALU payloads are three 3-bit register fields; a load carries its
//! destination on top and its address register at the bottom, a store its
//! source in the middle and its address register at the bottom; control flow
//! carries a 9-bit absolute address. Debugger instructions and no-operations
//! have no wire encoding and render as the empty string.

use vstd::prelude::*;
use vstd::string::StringExecFns;

use super::{
    AluInstruction, ControlFlowInstruction, Instruction, MemoryInstruction, RegisterBoundCheck,
};

verus! {

/// The character for bit `k` of `v`.
pub open spec fn bit_char(v: u16, k: u16) -> char {
    if (v >> k) & 1 == 1 {
        '1'
    } else {
        '0'
    }
}

/// A register index as its 3-bit field, most significant bit first.
pub open spec fn reg_bits(r: u8) -> Seq<char> {
    seq![bit_char(r as u16, 2), bit_char(r as u16, 1), bit_char(r as u16, 0)]
}

/// The 9-bit payload holding three register fields.
pub open spec fn payload_regs(r1: u8, r2: u8, r3: u8) -> Seq<char> {
    reg_bits(r1) + reg_bits(r2) + reg_bits(r3)
}

/// A program address as its 9-bit field, most significant bit first.
pub open spec fn addr_bits(a: u16) -> Seq<char> {
    Seq::new(9, |i: int| bit_char(a, (8 - i) as u16))
}

/// Encoding to the hardware bit pattern.
pub trait ToVhdl {
    /// Whether the operands fit their encoded fields.
    spec fn encodable(&self) -> bool;

    /// The bit pattern, as a sequence of `'0'`/`'1'` characters.
    spec fn vhdl_spec(&self) -> Seq<char>;

    /// Renders the bit pattern.
    fn to_vhdl(&self) -> (s: String)
        requires
            self.encodable(),
        ensures
            s@ == self.vhdl_spec(),
    ;
}

impl ToVhdl for AluInstruction {
    /// Every register index fits its 3-bit field.
    open spec fn encodable(&self) -> bool {
        self.bound_spec()
    }

    open spec fn vhdl_spec(&self) -> Seq<char> {
        match *self {
            AluInstruction::Move(rz, rx) => "000000"@ + payload_regs(rz, rx, 0),
            AluInstruction::Add(rz, rx, ry) => "000001"@ + payload_regs(rz, rx, ry),
            AluInstruction::Subtract(rz, rx, ry) => "000010"@ + payload_regs(rz, rx, ry),
            AluInstruction::LogicalAnd(rz, rx, ry) => "000011"@ + payload_regs(rz, rx, ry),
            AluInstruction::LogicalOr(rz, rx, ry) => "000100"@ + payload_regs(rz, rx, ry),
            AluInstruction::LogicalNot(rz, rx) => "000101"@ + payload_regs(rz, rx, 0),
            AluInstruction::Increment(rz, rx) => "000110"@ + payload_regs(rz, rx, 0),
            AluInstruction::Decrement(rz, rx) => "000111"@ + payload_regs(rz, rx, 0),
            AluInstruction::LShiftLeft(rz, rx) => "001000"@ + payload_regs(rz, rx, 0),
            AluInstruction::LShiftRight(rz, rx) => "001001"@ + payload_regs(rz, rx, 0),
            AluInstruction::AShiftLeft(rz, rx) => "001010"@ + payload_regs(rz, rx, 0),
            AluInstruction::AShiftRight(rz, rx) => "001011"@ + payload_regs(rz, rx, 0),
        }
    }

    fn to_vhdl(&self) -> (s: String) {
        match *self {
            AluInstruction::Move(rz, rx) => prefixed("000000", rz, rx, 0),
            AluInstruction::Add(rz, rx, ry) => prefixed("000001", rz, rx, ry),
            AluInstruction::Subtract(rz, rx, ry) => prefixed("000010", rz, rx, ry),
            AluInstruction::LogicalAnd(rz, rx, ry) => prefixed("000011", rz, rx, ry),
            AluInstruction::LogicalOr(rz, rx, ry) => prefixed("000100", rz, rx, ry),
            AluInstruction::LogicalNot(rz, rx) => prefixed("000101", rz, rx, 0),
            AluInstruction::Increment(rz, rx) => prefixed("000110", rz, rx, 0),
            AluInstruction::Decrement(rz, rx) => prefixed("000111", rz, rx, 0),
            AluInstruction::LShiftLeft(rz, rx) => prefixed("001000", rz, rx, 0),
            AluInstruction::LShiftRight(rz, rx) => prefixed("001001", rz, rx, 0),
            AluInstruction::AShiftLeft(rz, rx) => prefixed("001010", rz, rx, 0),
            AluInstruction::AShiftRight(rz, rx) => prefixed("001011", rz, rx, 0),
        }
    }
}

impl ToVhdl for MemoryInstruction {
    /// Every register index fits its 3-bit field.
    open spec fn encodable(&self) -> bool {
        self.bound_spec()
    }

    open spec fn vhdl_spec(&self) -> Seq<char> {
        match *self {
            MemoryInstruction::Load(rz, ry) => "100000"@ + payload_regs(rz, 0, ry),
            MemoryInstruction::Store(rx, ry) => "110000"@ + payload_regs(0, rx, ry),
        }
    }

    fn to_vhdl(&self) -> (s: String) {
        match *self {
            MemoryInstruction::Load(rz, ry) => prefixed("100000", rz, 0, ry),
            MemoryInstruction::Store(rx, ry) => prefixed("110000", 0, rx, ry),
        }
    }
}

impl ToVhdl for ControlFlowInstruction {
    /// The address fits its 9-bit field.
    open spec fn encodable(&self) -> bool {
        self.spec_address() < 512
    }

    open spec fn vhdl_spec(&self) -> Seq<char> {
        match *self {
            ControlFlowInstruction::Jump(a) => "010000"@ + addr_bits(a),
            ControlFlowInstruction::JumpZero(a) => "010001"@ + addr_bits(a),
            ControlFlowInstruction::JumpSign(a) => "010010"@ + addr_bits(a),
            ControlFlowInstruction::JumpCarry(a) => "010011"@ + addr_bits(a),
            ControlFlowInstruction::JumpNotZero(a) => "010101"@ + addr_bits(a),
            ControlFlowInstruction::JumpNotSign(a) => "010110"@ + addr_bits(a),
            ControlFlowInstruction::JumpNotCarry(a) => "010111"@ + addr_bits(a),
        }
    }

    fn to_vhdl(&self) -> (s: String) {
        match *self {
            ControlFlowInstruction::Jump(a) => jump_prefixed("010000", a),
            ControlFlowInstruction::JumpZero(a) => jump_prefixed("010001", a),
            ControlFlowInstruction::JumpSign(a) => jump_prefixed("010010", a),
            ControlFlowInstruction::JumpCarry(a) => jump_prefixed("010011", a),
            ControlFlowInstruction::JumpNotZero(a) => jump_prefixed("010101", a),
            ControlFlowInstruction::JumpNotSign(a) => jump_prefixed("010110", a),
            ControlFlowInstruction::JumpNotCarry(a) => jump_prefixed("010111", a),
        }
    }
}

impl ToVhdl for Instruction {
    /// Debugger instructions and no-operations are trivially encodable: they
    /// have no wire form at all.
    open spec fn encodable(&self) -> bool {
        match *self {
            Instruction::Alu(ins) => ins.encodable(),
            Instruction::Memory(ins) => ins.encodable(),
            Instruction::ControlFlow(ins) => ins.encodable(),
            _ => true,
        }
    }

    open spec fn vhdl_spec(&self) -> Seq<char> {
        match *self {
            Instruction::Alu(ins) => ins.vhdl_spec(),
            Instruction::Memory(ins) => ins.vhdl_spec(),
            Instruction::ControlFlow(ins) => ins.vhdl_spec(),
            _ => Seq::empty(),
        }
    }

    fn to_vhdl(&self) -> (s: String) {
        match *self {
            Instruction::Alu(ins) => ins.to_vhdl(),
            Instruction::Memory(ins) => ins.to_vhdl(),
            Instruction::ControlFlow(ins) => ins.to_vhdl(),
            _ => {
                let s = String::new();
                proof {
                    assert(s@ =~= Seq::<char>::empty());
                }
                s
            },
        }
    }
}

/// Whatever the loader's static bound check admits, the emitter can
/// render: every admitted operand fits its encoded field.
pub proof fn lemma_admitted_is_encodable(ins: Instruction)
    requires
        ins.bound_spec(),
    ensures
        ins.encodable(),
{
}

/// The 3-bit field of a register index, as text.
fn bits3(r: u8) -> (s: &'static str)
    requires
        r < 8,
    ensures
        s@ == reg_bits(r),
{
    let s: &'static str = match r {
        0 => "000",
        1 => "001",
        2 => "010",
        3 => "011",
        4 => "100",
        5 => "101",
        6 => "110",
        _ => "111",
    };
    proof {
        reveal_strlit("000");
        reveal_strlit("001");
        reveal_strlit("010");
        reveal_strlit("011");
        reveal_strlit("100");
        reveal_strlit("101");
        reveal_strlit("110");
        reveal_strlit("111");
        lemma_reg_bits_table();
        assert(s@ =~= reg_bits(r));
    }
    s
}

/// The three-bit fields of the register indices 0 through 7, spelled out.
proof fn lemma_reg_bits_table()
    ensures
        reg_bits(0) =~= seq!['0', '0', '0'],
        reg_bits(1) =~= seq!['0', '0', '1'],
        reg_bits(2) =~= seq!['0', '1', '0'],
        reg_bits(3) =~= seq!['0', '1', '1'],
        reg_bits(4) =~= seq!['1', '0', '0'],
        reg_bits(5) =~= seq!['1', '0', '1'],
        reg_bits(6) =~= seq!['1', '1', '0'],
        reg_bits(7) =~= seq!['1', '1', '1'],
{
    assert((0u16 >> 2u16) & 1 == 0 && (0u16 >> 1u16) & 1 == 0 && (0u16 >> 0u16) & 1 == 0 && (1u16
        >> 2u16) & 1 == 0 && (1u16 >> 1u16) & 1 == 0 && (1u16 >> 0u16) & 1 == 1 && (2u16 >> 2u16)
        & 1 == 0 && (2u16 >> 1u16) & 1 == 1 && (2u16 >> 0u16) & 1 == 0 && (3u16 >> 2u16) & 1 == 0
        && (3u16 >> 1u16) & 1 == 1 && (3u16 >> 0u16) & 1 == 1 && (4u16 >> 2u16) & 1 == 1 && (4u16
        >> 1u16) & 1 == 0 && (4u16 >> 0u16) & 1 == 0 && (5u16 >> 2u16) & 1 == 1 && (5u16 >> 1u16)
        & 1 == 0 && (5u16 >> 0u16) & 1 == 1 && (6u16 >> 2u16) & 1 == 1 && (6u16 >> 1u16) & 1 == 1
        && (6u16 >> 0u16) & 1 == 0 && (7u16 >> 2u16) & 1 == 1 && (7u16 >> 1u16) & 1 == 1 && (7u16
        >> 0u16) & 1 == 1) by (bit_vector);
}

/// Renders the three 3-bit register fields of a payload.
pub fn encode_registers(r1: u8, r2: u8, r3: u8) -> (s: String)
    requires
        r1 < 8,
        r2 < 8,
        r3 < 8,
    ensures
        s@ == payload_regs(r1, r2, r3),
{
    let mut s = String::from_str(bits3(r1));
    s.append(bits3(r2));
    s.append(bits3(r3));
    s
}

/// Renders a 9-bit address field, most significant bit first.
pub fn encode_address(a: u16) -> (s: String)
    requires
        a < 512,
    ensures
        s@ == addr_bits(a),
{
    let mut s = String::new();
    let mut k: usize = 0;
    while k < 9
        invariant
            a < 512,
            k <= 9,
            s@ =~= addr_bits(a).subrange(0, k as int),
        decreases 9 - k,
    {
        let sh: u16 = 8 - (k as u16);
        if (a >> sh) & 1 == 1 {
            s.append("1");
            proof {
                reveal_strlit("1");
            }
        } else {
            s.append("0");
            proof {
                reveal_strlit("0");
            }
        }
        proof {
            assert(s@ =~= addr_bits(a).subrange(0, k + 1));
        }
        k += 1;
    }
    proof {
        assert(s@ =~= addr_bits(a));
    }
    s
}

/// Glues a 6-character opcode to a three-register payload.
fn prefixed(opcode: &str, r1: u8, r2: u8, r3: u8) -> (s: String)
    requires
        r1 < 8,
        r2 < 8,
        r3 < 8,
    ensures
        s@ == opcode@ + payload_regs(r1, r2, r3),
{
    let mut s = String::from_str(opcode);
    let payload = encode_registers(r1, r2, r3);
    s.append(payload.as_str());
    s
}

/// Glues a 6-character opcode to a 9-bit address payload.
fn jump_prefixed(opcode: &str, a: u16) -> (s: String)
    requires
        a < 512,
    ensures
        s@ == opcode@ + addr_bits(a),
{
    let mut s = String::from_str(opcode);
    let payload = encode_address(a);
    s.append(payload.as_str());
    s
}

} // verus!
