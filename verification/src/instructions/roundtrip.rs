//! The encoding round trip: decoding the rendered bit pattern of any
//! hardware instruction yields the instruction back.

use vstd::prelude::*;

use super::from_str::{bits_ok, bits_val, is_bit, lemma_bits_val_snoc, spec_decode};
use super::to_vhdl::{addr_bits, bit_char, payload_regs, reg_bits, ToVhdl};
use super::{AluInstruction, ControlFlowInstruction, Instruction, MemoryInstruction};
use crate::instructions::RegisterBoundCheck;
use crate::processor::EmulationError;

verus! {

/// The instructions that exist on the wire: ALU, memory and control flow,
/// with every operand inside its encoded field's domain. Debugger
/// instructions and no-operations have no wire form.
pub open spec fn wire_valid(ins: Instruction) -> bool {
    match ins {
        Instruction::Alu(op) => op.bound_spec(),
        Instruction::Memory(op) => op.bound_spec(),
        Instruction::ControlFlow(op) => op.bound_spec(),
        _ => false,
    }
}

/// A register field holds binary digits only.
proof fn lemma_reg_bits_ok(r: u8)
    ensures
        reg_bits(r).len() == 3,
        bits_ok(reg_bits(r)),
{
    assert forall|i: int| 0 <= i < reg_bits(r).len() implies is_bit(#[trigger] reg_bits(r)[i]) by {
        assert(reg_bits(r)[i] == bit_char(r as u16, (2 - i) as u16));
    }
}

/// A register field decodes back to the register index it encodes.
proof fn lemma_reg_bits_val(r: u8)
    requires
        r < 8,
    ensures
        bits_val(reg_bits(r)) == r,
{
    let s = reg_bits(r);
    let c2 = bit_char(r as u16, 2);
    let c1 = bit_char(r as u16, 1);
    let c0 = bit_char(r as u16, 0);
    assert(s.drop_last() =~= seq![c2, c1]);
    assert(s.drop_last().drop_last() =~= seq![c2]);
    assert(seq![c2].drop_last() =~= Seq::<char>::empty());
    assert((r as u16) >> 3u16 == 0) by (bit_vector)
        requires
            r < 8,
    ;
    assert(((r as u16) >> 2u16) & 1 <= 1 && (r as u16) >> 2u16 == ((r as u16) >> 3u16) * 2 + (((r
        as u16) >> 2u16) & 1)) by (bit_vector);
    assert(((r as u16) >> 1u16) & 1 <= 1 && (r as u16) >> 1u16 == ((r as u16) >> 2u16) * 2 + (((r
        as u16) >> 1u16) & 1)) by (bit_vector);
    assert(((r as u16) >> 0u16) & 1 <= 1 && (r as u16) >> 0u16 == ((r as u16) >> 1u16) * 2 + (((r
        as u16) >> 0u16) & 1)) by (bit_vector);
    assert((r as u16) >> 0u16 == r as u16) by (bit_vector);
    assert(seq![c2] =~= Seq::<char>::empty().push(c2));
    assert(seq![c2, c1] =~= seq![c2].push(c1));
    assert(s =~= seq![c2, c1].push(c0));
    lemma_bits_val_snoc(Seq::empty(), c2);
    lemma_bits_val_snoc(seq![c2], c1);
    lemma_bits_val_snoc(seq![c2, c1], c0);
    assert(bits_val(seq![c2]) == (r as u16) >> 2u16);
    assert(bits_val(seq![c2, c1]) == (r as u16) >> 1u16);
    assert(bits_val(s) == (r as u16) >> 0u16);
}

/// An address field holds binary digits only.
proof fn lemma_addr_bits_ok(a: u16)
    ensures
        addr_bits(a).len() == 9,
        bits_ok(addr_bits(a)),
{
    assert forall|i: int| 0 <= i < addr_bits(a).len() implies is_bit(
        #[trigger] addr_bits(a)[i],
    ) by {
        assert(addr_bits(a)[i] == bit_char(a, (8 - i) as u16));
    }
}

/// An address field decodes back to the address it encodes.
proof fn lemma_addr_bits_val(a: u16)
    requires
        a < 512,
    ensures
        bits_val(addr_bits(a)) == a,
{
    let s = addr_bits(a);
    let p0 = s.subrange(0, 0);
    let p1 = s.subrange(0, 1);
    let p2 = s.subrange(0, 2);
    let p3 = s.subrange(0, 3);
    let p4 = s.subrange(0, 4);
    let p5 = s.subrange(0, 5);
    let p6 = s.subrange(0, 6);
    let p7 = s.subrange(0, 7);
    let p8 = s.subrange(0, 8);
    assert(p0 =~= Seq::<char>::empty());
    assert(p1 =~= p0.push(bit_char(a, 8)));
    assert(p2 =~= p1.push(bit_char(a, 7)));
    assert(p3 =~= p2.push(bit_char(a, 6)));
    assert(p4 =~= p3.push(bit_char(a, 5)));
    assert(p5 =~= p4.push(bit_char(a, 4)));
    assert(p6 =~= p5.push(bit_char(a, 3)));
    assert(p7 =~= p6.push(bit_char(a, 2)));
    assert(p8 =~= p7.push(bit_char(a, 1)));
    assert(s =~= p8.push(bit_char(a, 0)));
    lemma_bits_val_snoc(p0, bit_char(a, 8));
    lemma_bits_val_snoc(p1, bit_char(a, 7));
    lemma_bits_val_snoc(p2, bit_char(a, 6));
    lemma_bits_val_snoc(p3, bit_char(a, 5));
    lemma_bits_val_snoc(p4, bit_char(a, 4));
    lemma_bits_val_snoc(p5, bit_char(a, 3));
    lemma_bits_val_snoc(p6, bit_char(a, 2));
    lemma_bits_val_snoc(p7, bit_char(a, 1));
    lemma_bits_val_snoc(p8, bit_char(a, 0));
    assert(a >> 9u16 == 0) by (bit_vector)
        requires
            a < 512,
    ;
    assert((a >> 8u16) & 1 <= 1 && a >> 8u16 == (a >> 9u16) * 2 + ((a >> 8u16) & 1)) by (bit_vector);
    assert((a >> 7u16) & 1 <= 1 && a >> 7u16 == (a >> 8u16) * 2 + ((a >> 7u16) & 1)) by (bit_vector);
    assert((a >> 6u16) & 1 <= 1 && a >> 6u16 == (a >> 7u16) * 2 + ((a >> 6u16) & 1)) by (bit_vector);
    assert((a >> 5u16) & 1 <= 1 && a >> 5u16 == (a >> 6u16) * 2 + ((a >> 5u16) & 1)) by (bit_vector);
    assert((a >> 4u16) & 1 <= 1 && a >> 4u16 == (a >> 5u16) * 2 + ((a >> 4u16) & 1)) by (bit_vector);
    assert((a >> 3u16) & 1 <= 1 && a >> 3u16 == (a >> 4u16) * 2 + ((a >> 3u16) & 1)) by (bit_vector);
    assert((a >> 2u16) & 1 <= 1 && a >> 2u16 == (a >> 3u16) * 2 + ((a >> 2u16) & 1)) by (bit_vector);
    assert((a >> 1u16) & 1 <= 1 && a >> 1u16 == (a >> 2u16) * 2 + ((a >> 1u16) & 1)) by (bit_vector);
    assert((a >> 0u16) & 1 <= 1 && a >> 0u16 == (a >> 1u16) * 2 + ((a >> 0u16) & 1)) by (bit_vector);
    assert(a >> 0u16 == a) by (bit_vector);
    assert(bits_val(p1) == a >> 8u16);
    assert(bits_val(p2) == a >> 7u16);
    assert(bits_val(p3) == a >> 6u16);
    assert(bits_val(p4) == a >> 5u16);
    assert(bits_val(p5) == a >> 4u16);
    assert(bits_val(p6) == a >> 3u16);
    assert(bits_val(p7) == a >> 2u16);
    assert(bits_val(p8) == a >> 1u16);
    assert(bits_val(s) == a >> 0u16);
}

/// The shape shared by every word with a three-register payload: its length,
/// its payload digits, and the three field values.
proof fn lemma_payload_fields(pre: Seq<char>, r1: u8, r2: u8, r3: u8)
    requires
        pre.len() == 6,
        r1 < 8,
        r2 < 8,
        r3 < 8,
    ensures
        (pre + payload_regs(r1, r2, r3)).len() == 15,
        forall|i: int| 0 <= i < 6 ==> (pre + payload_regs(r1, r2, r3))[i] == pre[i],
        bits_ok((pre + payload_regs(r1, r2, r3)).subrange(6, 15)),
        bits_val((pre + payload_regs(r1, r2, r3)).subrange(6, 9)) == r1,
        bits_val((pre + payload_regs(r1, r2, r3)).subrange(9, 12)) == r2,
        bits_val((pre + payload_regs(r1, r2, r3)).subrange(12, 15)) == r3,
{
    let s = pre + payload_regs(r1, r2, r3);
    lemma_reg_bits_ok(r1);
    lemma_reg_bits_ok(r2);
    lemma_reg_bits_ok(r3);
    assert(s.subrange(6, 9) =~= reg_bits(r1));
    assert(s.subrange(9, 12) =~= reg_bits(r2));
    assert(s.subrange(12, 15) =~= reg_bits(r3));
    lemma_reg_bits_val(r1);
    lemma_reg_bits_val(r2);
    lemma_reg_bits_val(r3);
    assert forall|i: int| 0 <= i < s.subrange(6, 15).len() implies is_bit(
        #[trigger] s.subrange(6, 15)[i],
    ) by {
        if i < 3 {
            assert(s.subrange(6, 15)[i] == reg_bits(r1)[i]);
        } else if i < 6 {
            assert(s.subrange(6, 15)[i] == reg_bits(r2)[i - 3]);
        } else {
            assert(s.subrange(6, 15)[i] == reg_bits(r3)[i - 6]);
        }
    }
}

/// The shape shared by every word with an address payload.
proof fn lemma_address_payload(pre: Seq<char>, a: u16)
    requires
        pre.len() == 6,
        a < 512,
    ensures
        (pre + addr_bits(a)).len() == 15,
        forall|i: int| 0 <= i < 6 ==> (pre + addr_bits(a))[i] == pre[i],
        bits_ok((pre + addr_bits(a)).subrange(6, 15)),
        bits_val((pre + addr_bits(a)).subrange(6, 15)) == a,
{
    let s = pre + addr_bits(a);
    lemma_addr_bits_ok(a);
    assert(s.subrange(6, 15) =~= addr_bits(a));
    lemma_addr_bits_val(a);
}

/// Decoding inverts encoding: every wire-form instruction comes back from
/// its own bit pattern, operands and all.
pub proof fn lemma_encode_decode_roundtrip(ins: Instruction)
    requires
        wire_valid(ins),
    ensures
        ins.encodable(),
        spec_decode(ins.vhdl_spec()) == Ok::<Instruction, EmulationError>(ins),
{
    let s = ins.vhdl_spec();
    match ins {
        Instruction::Alu(op) => {
            match op {
                AluInstruction::Move(z, x) => {
                    reveal_strlit("000000");
                    lemma_payload_fields("000000"@, z, x, 0);
                },
                AluInstruction::Add(z, x, y) => {
                    reveal_strlit("000001");
                    lemma_payload_fields("000001"@, z, x, y);
                },
                AluInstruction::Subtract(z, x, y) => {
                    reveal_strlit("000010");
                    lemma_payload_fields("000010"@, z, x, y);
                },
                AluInstruction::LogicalAnd(z, x, y) => {
                    reveal_strlit("000011");
                    lemma_payload_fields("000011"@, z, x, y);
                },
                AluInstruction::LogicalOr(z, x, y) => {
                    reveal_strlit("000100");
                    lemma_payload_fields("000100"@, z, x, y);
                },
                AluInstruction::LogicalNot(z, x) => {
                    reveal_strlit("000101");
                    lemma_payload_fields("000101"@, z, x, 0);
                },
                AluInstruction::Increment(z, x) => {
                    reveal_strlit("000110");
                    lemma_payload_fields("000110"@, z, x, 0);
                },
                AluInstruction::Decrement(z, x) => {
                    reveal_strlit("000111");
                    lemma_payload_fields("000111"@, z, x, 0);
                },
                AluInstruction::LShiftLeft(z, x) => {
                    reveal_strlit("001000");
                    lemma_payload_fields("001000"@, z, x, 0);
                },
                AluInstruction::LShiftRight(z, x) => {
                    reveal_strlit("001001");
                    lemma_payload_fields("001001"@, z, x, 0);
                },
                AluInstruction::AShiftLeft(z, x) => {
                    reveal_strlit("001010");
                    lemma_payload_fields("001010"@, z, x, 0);
                },
                AluInstruction::AShiftRight(z, x) => {
                    reveal_strlit("001011");
                    lemma_payload_fields("001011"@, z, x, 0);
                },
            }
        },
        Instruction::Memory(op) => {
            match op {
                MemoryInstruction::Load(z, y) => {
                    reveal_strlit("100000");
                    lemma_payload_fields("100000"@, z, 0, y);
                },
                MemoryInstruction::Store(x, y) => {
                    reveal_strlit("110000");
                    lemma_payload_fields("110000"@, 0, x, y);
                },
            }
        },
        Instruction::ControlFlow(op) => {
            match op {
                ControlFlowInstruction::Jump(a) => {
                    reveal_strlit("010000");
                    lemma_address_payload("010000"@, a);
                },
                ControlFlowInstruction::JumpZero(a) => {
                    reveal_strlit("010001");
                    lemma_address_payload("010001"@, a);
                },
                ControlFlowInstruction::JumpSign(a) => {
                    reveal_strlit("010010");
                    lemma_address_payload("010010"@, a);
                },
                ControlFlowInstruction::JumpCarry(a) => {
                    reveal_strlit("010011");
                    lemma_address_payload("010011"@, a);
                },
                ControlFlowInstruction::JumpNotZero(a) => {
                    reveal_strlit("010101");
                    lemma_address_payload("010101"@, a);
                },
                ControlFlowInstruction::JumpNotSign(a) => {
                    reveal_strlit("010110");
                    lemma_address_payload("010110"@, a);
                },
                ControlFlowInstruction::JumpNotCarry(a) => {
                    reveal_strlit("010111");
                    lemma_address_payload("010111"@, a);
                },
            }
        },
        Instruction::Debug(_) => {},
        Instruction::NoOperation => {},
    }
}

} // verus!
