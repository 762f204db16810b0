use cpu16::instructions::from_str::{parse_address, parse_registers};
use cpu16::instructions::to_vhdl::ToVhdl;
use cpu16::instructions::RegisterBoundCheck;
use cpu16::instructions::{
    AluInstruction, ControlFlowInstruction, DebugInstruction, Instruction, MemoryInstruction,
};
use cpu16::processor::EmulationError;

fn all_wire_instructions() -> Vec<Instruction> {
    let mut out = Vec::new();
    for z in 0..8u8 {
        for x in 0..8u8 {
            out.push(Instruction::Alu(AluInstruction::Move(z, x)));
            out.push(Instruction::Alu(AluInstruction::LogicalNot(z, x)));
            out.push(Instruction::Alu(AluInstruction::Increment(z, x)));
            out.push(Instruction::Alu(AluInstruction::Decrement(z, x)));
            out.push(Instruction::Alu(AluInstruction::LShiftLeft(z, x)));
            out.push(Instruction::Alu(AluInstruction::LShiftRight(z, x)));
            out.push(Instruction::Alu(AluInstruction::AShiftLeft(z, x)));
            out.push(Instruction::Alu(AluInstruction::AShiftRight(z, x)));
            out.push(Instruction::Memory(MemoryInstruction::Load(z, x)));
            out.push(Instruction::Memory(MemoryInstruction::Store(z, x)));
            for y in 0..8u8 {
                out.push(Instruction::Alu(AluInstruction::Add(z, x, y)));
                out.push(Instruction::Alu(AluInstruction::Subtract(z, x, y)));
                out.push(Instruction::Alu(AluInstruction::LogicalAnd(z, x, y)));
                out.push(Instruction::Alu(AluInstruction::LogicalOr(z, x, y)));
            }
        }
    }
    for a in 0..256u16 {
        out.push(Instruction::ControlFlow(ControlFlowInstruction::Jump(a)));
        out.push(Instruction::ControlFlow(ControlFlowInstruction::JumpZero(a)));
        out.push(Instruction::ControlFlow(ControlFlowInstruction::JumpSign(a)));
        out.push(Instruction::ControlFlow(ControlFlowInstruction::JumpCarry(a)));
        out.push(Instruction::ControlFlow(ControlFlowInstruction::JumpNotZero(a)));
        out.push(Instruction::ControlFlow(ControlFlowInstruction::JumpNotSign(a)));
        out.push(Instruction::ControlFlow(ControlFlowInstruction::JumpNotCarry(a)));
    }
    out
}

#[test]
fn encoding_fixtures() {
    assert_eq!(
        Instruction::Alu(AluInstruction::Add(1, 2, 3)).to_vhdl(),
        "000001001010011"
    );
    assert_eq!(
        Instruction::ControlFlow(ControlFlowInstruction::JumpNotZero(5)).to_vhdl(),
        "010101000000101"
    );
    assert_eq!(
        Instruction::Memory(MemoryInstruction::Store(4, 5)).to_vhdl(),
        "110000000100101"
    );
    assert_eq!(
        Instruction::Memory(MemoryInstruction::Load(4, 5)).to_vhdl(),
        "100000100000101"
    );
    assert_eq!(Instruction::Alu(AluInstruction::Move(7, 1)).to_vhdl(), "000000111001000");
    assert_eq!(
        Instruction::ControlFlow(ControlFlowInstruction::Jump(255)).to_vhdl(),
        "010000011111111"
    );
}

#[test]
fn debug_and_nop_have_no_wire_form() {
    assert_eq!(Instruction::Debug(DebugInstruction::Halt).to_vhdl(), "");
    assert_eq!(Instruction::NoOperation.to_vhdl(), "");
}

#[test]
fn decoding_fixtures() {
    assert_eq!(
        Instruction::from_str("000001001010011"),
        Ok(Instruction::Alu(AluInstruction::Add(1, 2, 3)))
    );
    assert_eq!(
        Instruction::from_str("010101000000101"),
        Ok(Instruction::ControlFlow(ControlFlowInstruction::JumpNotZero(5)))
    );
    assert_eq!(
        Instruction::from_str("110000000100101"),
        Ok(Instruction::Memory(MemoryInstruction::Store(4, 5)))
    );
    assert_eq!(
        Instruction::from_str("100000100000101"),
        Ok(Instruction::Memory(MemoryInstruction::Load(4, 5)))
    );
}

#[test]
fn decode_rejects_wrong_length() {
    assert_eq!(Instruction::from_str(""), Err(EmulationError::InvalidLength));
    assert_eq!(Instruction::from_str("00000100101001"), Err(EmulationError::InvalidLength));
    assert_eq!(
        Instruction::from_str("0000010010100110"),
        Err(EmulationError::InvalidLength)
    );
    assert_eq!(
        AluInstruction::from_str("00000100"),
        Err(EmulationError::InvalidLength)
    );
    assert_eq!(
        ControlFlowInstruction::from_str("0101"),
        Err(EmulationError::InvalidLength)
    );
    assert_eq!(
        MemoryInstruction::from_str("1100000001001"),
        Err(EmulationError::InvalidLength)
    );
}

#[test]
fn decode_rejects_unknown_opcodes() {
    // the unassigned control-flow opcode
    assert_eq!(
        Instruction::from_str("010100000000101"),
        Err(EmulationError::InvalidInstruction)
    );
    // ALU opcodes 1100 through 1111 name nothing
    assert_eq!(
        Instruction::from_str("001100000000000"),
        Err(EmulationError::InvalidInstruction)
    );
    // a memory word with a nonzero opcode field
    assert_eq!(
        Instruction::from_str("100001000000101"),
        Err(EmulationError::InvalidInstruction)
    );
    // class bits that are not binary digits
    assert_eq!(
        Instruction::from_str("ab0000000000000"),
        Err(EmulationError::InvalidInstruction)
    );
}

#[test]
fn decode_rejects_non_binary_payload() {
    assert_eq!(
        Instruction::from_str("000001001x10011"),
        Err(EmulationError::BinaryParsing)
    );
    assert_eq!(
        Instruction::from_str("010000 00000101"),
        Err(EmulationError::BinaryParsing)
    );
}

#[test]
fn every_wire_instruction_round_trips() {
    for ins in all_wire_instructions() {
        let encoded = ins.to_vhdl();
        assert_eq!(encoded.len(), 15);
        assert_eq!(Instruction::from_str(encoded.as_str()), Ok(ins));
    }
}

#[test]
fn payload_helpers_parse_fields() {
    assert_eq!(parse_registers("001010011"), Ok((1, 2, 3)));
    assert_eq!(parse_registers("00101001"), Err(EmulationError::InvalidLength));
    assert_eq!(parse_registers("001010z11"), Err(EmulationError::BinaryParsing));
    assert_eq!(parse_address("111111111"), Ok(511));
    assert_eq!(parse_address("000000101"), Ok(5));
    assert_eq!(parse_address("00000101"), Err(EmulationError::InvalidLength));
    assert_eq!(parse_address("00000x101"), Err(EmulationError::BinaryParsing));
}

#[test]
fn mnemonics_render_the_stable_text() {
    assert_eq!(
        Instruction::Alu(AluInstruction::Add(1, 2, 3)).mnemonic(),
        "add   R1, R2, R3"
    );
    assert_eq!(Instruction::Alu(AluInstruction::Move(0, 7)).mnemonic(), "mov   R0, R7");
    assert_eq!(
        Instruction::Memory(MemoryInstruction::Load(1, 0)).mnemonic(),
        "ld    R1, R0"
    );
    assert_eq!(
        Instruction::Memory(MemoryInstruction::Store(4, 5)).mnemonic(),
        "st    R4, R5"
    );
    assert_eq!(
        Instruction::ControlFlow(ControlFlowInstruction::JumpNotZero(5)).mnemonic(),
        "jmpnz 5"
    );
    assert_eq!(
        Instruction::ControlFlow(ControlFlowInstruction::Jump(255)).mnemonic(),
        "jmp   255"
    );
    assert_eq!(
        Instruction::Debug(DebugInstruction::SetRegister(3, 1000)).mnemonic(),
        "sreg  R3, 1000"
    );
    assert_eq!(
        Instruction::Debug(DebugInstruction::SetFlagZero(true)).mnemonic(),
        "sfz   true"
    );
    assert_eq!(
        Instruction::Debug(DebugInstruction::SetMemory(7, 42)).mnemonic(),
        "smem  7, 42"
    );
    assert_eq!(Instruction::Debug(DebugInstruction::Halt).mnemonic(), "halt");
    assert_eq!(Instruction::NoOperation.mnemonic(), "nop");
}

#[test]
fn bound_check_accepts_exactly_the_machine_domains() {
    assert!(Instruction::Alu(AluInstruction::Move(7, 7)).reg_bound_check());
    assert!(!Instruction::Alu(AluInstruction::Move(8, 0)).reg_bound_check());
    assert!(!Instruction::Alu(AluInstruction::Add(0, 0, 8)).reg_bound_check());
    assert!(Instruction::Memory(MemoryInstruction::Load(0, 7)).reg_bound_check());
    assert!(!Instruction::Memory(MemoryInstruction::Store(8, 0)).reg_bound_check());
    assert!(Instruction::ControlFlow(ControlFlowInstruction::Jump(255)).reg_bound_check());
    assert!(!Instruction::ControlFlow(ControlFlowInstruction::Jump(256)).reg_bound_check());
    assert!(Instruction::Debug(DebugInstruction::SetRegister(200, 0)).reg_bound_check());
    assert!(Instruction::NoOperation.reg_bound_check());
}

#[test]
fn get_address_reads_any_jump_target() {
    assert_eq!(ControlFlowInstruction::Jump(12).get_address(), 12);
    assert_eq!(ControlFlowInstruction::JumpZero(0).get_address(), 0);
    assert_eq!(ControlFlowInstruction::JumpNotCarry(511).get_address(), 511);
}
