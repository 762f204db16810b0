use cpu16::instructions::{
    AluInstruction, ControlFlowInstruction, DebugInstruction, Instruction, MemoryInstruction,
};
use cpu16::load::load_cpu;
use cpu16::processor::{DisplayRadix, DisplaySigned, Processor};

fn inc(z: u8, x: u8) -> Instruction {
    Instruction::Alu(AluInstruction::Increment(z, x))
}

fn loaded(rom: &[Instruction], ram: &[u16]) -> Processor {
    let mut p = Processor::new();
    assert!(load_cpu(&mut p, Some(rom), Some(ram), None));
    p
}

#[test]
fn fresh_machine_is_zeroed() {
    let p = Processor::new();
    for i in 0..8 {
        assert_eq!(p.get_register(i), 0);
    }
    for a in 0..256 {
        assert_eq!(p.get_ram(a), 0);
        assert_eq!(p.get_rom(a), Instruction::NoOperation);
        assert!(!p.get_breakpoint(a));
    }
    let f = p.get_flags();
    assert!(!f.zero && !f.sign && !f.carry);
    assert_eq!(p.get_program_counter(), 0);
    assert_eq!(p.get_runtime_counter(), 0);
}

#[test]
fn multiply_by_repeated_add() {
    let rom = [
        inc(0, 0),
        Instruction::Memory(MemoryInstruction::Load(1, 0)),
        inc(0, 0),
        Instruction::Memory(MemoryInstruction::Load(2, 0)),
        Instruction::Alu(AluInstruction::Subtract(0, 0, 0)),
        Instruction::Alu(AluInstruction::Add(0, 0, 1)),
        Instruction::Alu(AluInstruction::Decrement(2, 2)),
        Instruction::ControlFlow(ControlFlowInstruction::JumpNotZero(5)),
        Instruction::Memory(MemoryInstruction::Store(0, 2)),
    ];
    let mut p = loaded(&rom, &[0, 5, 6]);
    let executed = p.run(false).unwrap();
    assert_eq!(executed, 24);
    assert_eq!(p.get_ram(0), 30);
    assert_eq!(p.get_register(2), 0);
    assert_eq!(p.get_program_counter(), 9);
}

#[test]
fn shift_carry_samples_destination_not_source() {
    let rom = [
        Instruction::Debug(DebugInstruction::SetRegister(0, 0x4000)),
        Instruction::Debug(DebugInstruction::SetRegister(1, 0x0001)),
        Instruction::Alu(AluInstruction::LShiftLeft(0, 1)),
    ];
    let mut p = loaded(&rom, &[]);
    for _ in 0..3 {
        p.tick().unwrap();
    }
    assert_eq!(p.get_register(0), 0x0002);
    assert!(!p.get_flags().carry);

    let rom = [
        Instruction::Debug(DebugInstruction::SetRegister(0, 0x8000)),
        Instruction::Debug(DebugInstruction::SetRegister(1, 0x0001)),
        Instruction::Alu(AluInstruction::LShiftLeft(0, 1)),
    ];
    let mut p = loaded(&rom, &[]);
    for _ in 0..3 {
        p.tick().unwrap();
    }
    assert_eq!(p.get_register(0), 0x0002);
    assert!(p.get_flags().carry);
}

#[test]
fn arithmetic_shift_right_keeps_destination_sign_bit() {
    let rom = [
        Instruction::Debug(DebugInstruction::SetRegister(0, 0x8001)),
        Instruction::Debug(DebugInstruction::SetRegister(1, 0x0004)),
        Instruction::Alu(AluInstruction::AShiftRight(0, 1)),
    ];
    let mut p = loaded(&rom, &[]);
    for _ in 0..3 {
        p.tick().unwrap();
    }
    // result = (reg1 >> 1) | (pre-shift reg0 & 0x8000); carry = bit 0 of
    // pre-shift reg0
    assert_eq!(p.get_register(0), 0x8002);
    assert!(p.get_flags().carry);
    assert!(p.get_flags().sign);
}

#[test]
fn add_sets_carry_on_overflow() {
    let rom = [
        Instruction::Debug(DebugInstruction::SetRegister(1, 0xffff)),
        Instruction::Debug(DebugInstruction::SetRegister(2, 0x0002)),
        Instruction::Alu(AluInstruction::Add(0, 1, 2)),
    ];
    let mut p = loaded(&rom, &[]);
    for _ in 0..3 {
        p.tick().unwrap();
    }
    assert_eq!(p.get_register(0), 0x0001);
    assert!(p.get_flags().carry);
    assert!(!p.get_flags().zero);
}

#[test]
fn subtract_sets_borrow_and_zero() {
    let rom = [
        Instruction::Debug(DebugInstruction::SetRegister(1, 3)),
        Instruction::Debug(DebugInstruction::SetRegister(2, 5)),
        Instruction::Alu(AluInstruction::Subtract(0, 1, 2)),
        Instruction::Alu(AluInstruction::Subtract(0, 1, 1)),
    ];
    let mut p = loaded(&rom, &[]);
    for _ in 0..3 {
        p.tick().unwrap();
    }
    assert_eq!(p.get_register(0), 0xfffe);
    assert!(p.get_flags().carry);
    assert!(p.get_flags().sign);
    p.tick().unwrap();
    assert_eq!(p.get_register(0), 0);
    assert!(p.get_flags().zero);
    assert!(!p.get_flags().carry);
}

#[test]
fn tick_counts_exactly_one_instruction() {
    let mut p = loaded(&[inc(0, 0), inc(0, 0)], &[]);
    assert_eq!(p.get_runtime_counter(), 0);
    assert!(p.tick().unwrap());
    assert_eq!(p.get_runtime_counter(), 1);
    assert_eq!(p.get_program_counter(), 1);
    assert!(p.tick().unwrap());
    assert_eq!(p.get_runtime_counter(), 2);
}

#[test]
fn tick_on_halted_machine_changes_nothing() {
    let mut p = loaded(&[inc(0, 0)], &[]);
    assert!(p.program_counter_jump(256));
    assert_eq!(p.tick(), Ok(false));
    assert_eq!(p.get_runtime_counter(), 0);
    assert_eq!(p.get_program_counter(), 256);
}

#[test]
fn nop_inside_program_counts_as_executed() {
    let rom = [inc(0, 0), Instruction::NoOperation, inc(0, 0)];
    let mut p = loaded(&rom, &[]);
    let executed = p.run(false).unwrap();
    assert_eq!(executed, 3);
    assert_eq!(p.get_register(0), 2);
}

#[test]
fn run_on_empty_rom_returns_zero() {
    let mut p = Processor::new();
    assert_eq!(p.run(false), Ok(0));
    assert_eq!(p.last_instruction_address(), 0);
}

#[test]
fn run_stops_past_last_instruction() {
    let mut p = loaded(&[inc(0, 0), inc(0, 0)], &[]);
    assert_eq!(p.last_instruction_address(), 2);
    assert_eq!(p.run(false), Ok(2));
    assert_eq!(p.get_program_counter(), 2);
}

#[test]
fn run_reports_stack_overflow_at_rom_end() {
    let rom = vec![inc(0, 0); 256];
    let mut p = loaded(&rom, &[]);
    assert_eq!(p.run(false), Err(cpu16::processor::EmulationError::StackOverflow));
    assert_eq!(p.get_program_counter(), 255);
}

#[test]
fn run_stops_on_breakpoint() {
    let rom = [inc(0, 0), inc(0, 0), inc(0, 0), inc(0, 0)];
    let mut p = loaded(&rom, &[]);
    assert!(p.toggle_breakpoint(2));
    assert_eq!(p.run(true), Ok(2));
    assert_eq!(p.get_program_counter(), 2);
    // without the flag the same machine runs to the end
    assert_eq!(p.run(false), Ok(2));
    assert_eq!(p.get_program_counter(), 4);
}

#[test]
fn halt_sets_program_counter_past_the_rom() {
    let rom = [Instruction::Debug(DebugInstruction::Halt), inc(0, 0)];
    let mut p = loaded(&rom, &[]);
    assert_eq!(p.run(false), Ok(1));
    assert_eq!(p.get_program_counter(), 256);
    assert_eq!(p.get_register(0), 0);
}

#[test]
fn load_through_register_out_of_range_fails_at_runtime() {
    let rom = [
        Instruction::Debug(DebugInstruction::SetRegister(0, 300)),
        Instruction::Memory(MemoryInstruction::Load(1, 0)),
    ];
    let mut p = loaded(&rom, &[]);
    assert_eq!(p.run(false), Err(cpu16::processor::EmulationError::OutOfRange));
    // state up to the failing instruction is kept
    assert_eq!(p.get_register(0), 300);
    assert_eq!(p.get_program_counter(), 1);
}

#[test]
fn store_writes_through_register() {
    let rom = [
        Instruction::Debug(DebugInstruction::SetRegister(0, 1234)),
        Instruction::Debug(DebugInstruction::SetRegister(1, 77)),
        Instruction::Memory(MemoryInstruction::Store(0, 1)),
    ];
    let mut p = loaded(&rom, &[]);
    p.run(false).unwrap();
    assert_eq!(p.get_ram(77), 1234);
    let f = p.get_flags();
    assert!(!f.zero && !f.sign && !f.carry);
}

#[test]
fn logic_ops_always_clear_carry() {
    let rom = [
        Instruction::Debug(DebugInstruction::SetFlagCarry(true)),
        Instruction::Alu(AluInstruction::LogicalAnd(0, 1, 2)),
    ];
    let mut p = loaded(&rom, &[]);
    p.tick().unwrap();
    assert!(p.get_flags().carry);
    p.tick().unwrap();
    assert!(!p.get_flags().carry);
    assert!(p.get_flags().zero);
}

#[test]
fn control_flow_clears_all_flags() {
    let rom = [
        Instruction::Debug(DebugInstruction::SetFlagCarry(true)),
        Instruction::ControlFlow(ControlFlowInstruction::JumpCarry(5)),
    ];
    let mut p = loaded(&rom, &[]);
    p.run(false).unwrap();
    assert_eq!(p.get_program_counter(), 5);
    let f = p.get_flags();
    assert!(!f.zero && !f.sign && !f.carry);
}

#[test]
fn untaken_jump_advances_and_clears_flags() {
    let rom = [
        Instruction::Debug(DebugInstruction::SetFlagZero(true)),
        Instruction::ControlFlow(ControlFlowInstruction::JumpNotZero(7)),
    ];
    let mut p = loaded(&rom, &[]);
    p.run(false).unwrap();
    assert_eq!(p.get_program_counter(), 2);
    assert!(!p.get_flags().zero);
}

#[test]
fn set_flag_instructions_clear_the_others_first() {
    let rom = [
        Instruction::Debug(DebugInstruction::SetFlagZero(true)),
        Instruction::Debug(DebugInstruction::SetFlagCarry(true)),
    ];
    let mut p = loaded(&rom, &[]);
    p.tick().unwrap();
    assert!(p.get_flags().zero);
    p.tick().unwrap();
    assert!(!p.get_flags().zero);
    assert!(p.get_flags().carry);
}

#[test]
fn breakpoint_instruction_sets_breakpoint() {
    let rom = [
        Instruction::Debug(DebugInstruction::Breakpoint(9)),
        Instruction::Debug(DebugInstruction::SetMemory(3, 42)),
    ];
    let mut p = loaded(&rom, &[]);
    p.run(false).unwrap();
    assert!(p.get_breakpoint(9));
    assert_eq!(p.get_ram(3), 42);
}

#[test]
fn reset_restores_snapshot_and_keeps_counters() {
    let rom = [
        inc(0, 0),
        Instruction::Memory(MemoryInstruction::Store(0, 1)),
    ];
    let mut p = loaded(&rom, &[10, 20, 30]);
    assert!(p.toggle_breakpoint(1));
    p.run(false).unwrap();
    assert_eq!(p.get_ram(0), 1);
    let runtime_before = p.get_runtime_counter();
    p.reset();
    assert_eq!(p.get_ram(0), 10);
    assert_eq!(p.get_ram(1), 20);
    assert_eq!(p.get_ram(2), 30);
    for a in 3..256 {
        assert_eq!(p.get_ram(a), 0);
    }
    for i in 0..8 {
        assert_eq!(p.get_register(i), 0);
    }
    let f = p.get_flags();
    assert!(!f.zero && !f.sign && !f.carry);
    assert_eq!(p.get_program_counter(), 0);
    assert!(p.get_breakpoint(1));
    assert_eq!(p.get_runtime_counter(), runtime_before);
}

#[test]
fn toggle_breakpoint_flips_and_rejects_out_of_range() {
    let mut p = Processor::new();
    assert!(p.toggle_breakpoint(5));
    assert!(p.get_breakpoint(5));
    assert!(!p.toggle_breakpoint(5));
    assert!(!p.get_breakpoint(5));
    assert!(!p.toggle_breakpoint(256));
    assert!(!p.toggle_breakpoint(1000));
}

#[test]
fn program_counter_jump_accepts_the_halted_position() {
    let mut p = Processor::new();
    assert!(p.program_counter_jump(17));
    assert_eq!(p.get_program_counter(), 17);
    assert!(p.program_counter_jump(256));
    assert_eq!(p.get_program_counter(), 256);
    assert!(!p.program_counter_jump(257));
    assert_eq!(p.get_program_counter(), 256);
}

#[test]
fn loader_admits_exactly_in_bounds_programs() {
    let good = [
        Instruction::Alu(AluInstruction::Move(7, 0)),
        Instruction::ControlFlow(ControlFlowInstruction::Jump(255)),
        Instruction::Memory(MemoryInstruction::Load(0, 7)),
        Instruction::Debug(DebugInstruction::Halt),
        Instruction::NoOperation,
    ];
    let mut p = Processor::new();
    assert!(load_cpu(&mut p, Some(&good[..]), None, None));

    let bad_reg = [Instruction::Alu(AluInstruction::Move(8, 0))];
    assert!(!load_cpu(&mut p, Some(&bad_reg[..]), None, None));
    assert_eq!(p.check(), Err(bad_reg[0]));

    let bad_addr = [Instruction::ControlFlow(ControlFlowInstruction::Jump(256))];
    assert!(!load_cpu(&mut p, Some(&bad_addr[..]), None, None));

    let bad_mem = [Instruction::Memory(MemoryInstruction::Store(0, 8))];
    assert!(!load_cpu(&mut p, Some(&bad_mem[..]), None, None));
}

#[test]
fn check_reports_first_violation() {
    let rom = [
        inc(0, 0),
        Instruction::Alu(AluInstruction::Move(8, 0)),
        Instruction::ControlFlow(ControlFlowInstruction::Jump(300)),
    ];
    let mut p = Processor::new();
    p.load_rom(&rom);
    assert_eq!(p.check(), Err(rom[1]));
}

#[test]
fn load_rom_clears_previous_program() {
    let mut p = Processor::new();
    p.load_rom(&[inc(0, 0), inc(0, 0)]);
    p.load_rom(&[inc(1, 1)]);
    assert_eq!(p.get_rom(0), inc(1, 1));
    assert_eq!(p.get_rom(1), Instruction::NoOperation);
}

#[test]
fn load_rom_str_decodes_words_in_place() {
    let mut p = Processor::new();
    p.load_rom_str(&["000001001010011", "010101000000101"]).unwrap();
    assert_eq!(p.get_rom(0), Instruction::Alu(AluInstruction::Add(1, 2, 3)));
    assert_eq!(
        p.get_rom(1),
        Instruction::ControlFlow(ControlFlowInstruction::JumpNotZero(5))
    );
    assert_eq!(p.get_rom(2), Instruction::NoOperation);
    assert_eq!(
        p.load_rom_str(&["00000100101001"]),
        Err(cpu16::processor::EmulationError::InvalidLength)
    );
}

#[test]
fn print_value_follows_the_radix() {
    let mut p = Processor::new();
    assert_eq!(p.print_value(5), "5");
    assert_eq!(p.print_value(0xfffd), "-3");
    assert_eq!(p.print_value(0x8000), "-32768");
    p.set_radix(DisplayRadix::Decimal(DisplaySigned::Unsigned));
    assert_eq!(p.print_value(0xfffd), "65533");
    p.set_radix(DisplayRadix::Hexadecimal);
    assert_eq!(p.print_value(255), "0x00ff");
    p.set_radix(DisplayRadix::Binary);
    assert_eq!(p.print_value(255), "0b0000000011111111");
}

#[test]
fn runtime_counter_accumulates_across_runs() {
    let mut p = loaded(&[inc(0, 0), inc(0, 0)], &[]);
    p.run(false).unwrap();
    assert_eq!(p.get_runtime_counter(), 2);
    p.reset();
    p.run(false).unwrap();
    assert_eq!(p.get_runtime_counter(), 4);
}

#[test]
fn taken_jump_at_the_last_cell_still_advances() {
    let mut rom = vec![Instruction::NoOperation; 256];
    rom[255] = Instruction::ControlFlow(ControlFlowInstruction::Jump(7));
    let mut p = loaded(&rom, &[]);
    assert!(p.program_counter_jump(255));
    // the jump moves the program counter itself, so the machine can go on
    assert_eq!(p.tick(), Ok(true));
    assert_eq!(p.get_program_counter(), 7);
}

#[test]
fn untaken_jump_at_the_last_cell_stalls() {
    let mut rom = vec![Instruction::NoOperation; 256];
    rom[255] = Instruction::ControlFlow(ControlFlowInstruction::JumpZero(7));
    let mut p = loaded(&rom, &[]);
    assert!(p.program_counter_jump(255));
    assert_eq!(p.tick(), Ok(false));
    assert_eq!(p.get_program_counter(), 255);
}

#[test]
fn halt_at_the_last_cell_ends_the_run_without_overflow() {
    let mut rom = vec![inc(0, 0); 256];
    rom[255] = Instruction::Debug(DebugInstruction::Halt);
    let mut p = loaded(&rom, &[]);
    assert_eq!(p.run(false), Ok(256));
    assert_eq!(p.get_program_counter(), 256);
    assert_eq!(p.get_register(0), 255);
}
