use cpu16::assembler::{dec_u16, hex4_u16, parse_ram, parse_rom};
use cpu16::instructions::{
    AluInstruction, ControlFlowInstruction, Instruction, MemoryInstruction,
};
use cpu16::load::load_cpu;
use cpu16::parser::data::{parse_data, parse_number, parse_radix};
use cpu16::parser::{AsmFileParser, ParsingError};
use cpu16::processor::Processor;

#[test]
fn parses_the_two_section_example() {
    let source = ".data\n5\n0xff\n-3\n.text\nloop: ld 1, 0\n      dec 2, 2\n      jmpnz loop\n";
    let (program, data, labels) = AsmFileParser::parse_source(source).unwrap();
    assert_eq!(data, vec![5, 0x00ff, 65533]);
    assert_eq!(
        program,
        vec![
            Instruction::Memory(MemoryInstruction::Load(1, 0)),
            Instruction::Alu(AluInstruction::Decrement(2, 2)),
            Instruction::ControlFlow(ControlFlowInstruction::JumpNotZero(0)),
        ]
    );
    assert_eq!(labels, vec![(0, vec![String::from("loop")])]);
}

#[test]
fn label_resolves_to_its_instruction_index() {
    let source = "\
.data
0
.text
mov 0, 0
mov 0, 0
mov 0, 0
mov 0, 0
mov 0, 0
mov 0, 0
mov 0, 0
loop: jmpnz loop
";
    let (program, _, labels) = AsmFileParser::parse_source(source).unwrap();
    assert_eq!(
        program[7],
        Instruction::ControlFlow(ControlFlowInstruction::JumpNotZero(7))
    );
    assert!(labels.contains(&(7, vec![String::from("loop")])));
}

#[test]
fn two_labels_may_share_an_address() {
    let source = ".data\n.text\nfirst:\nsecond:\nadd 1, 2, 3\n";
    let (program, _, labels) = AsmFileParser::parse_source(source).unwrap();
    assert_eq!(program.len(), 1);
    assert_eq!(
        labels,
        vec![(0, vec![String::from("first"), String::from("second")])]
    );
}

#[test]
fn register_operands_accept_the_r_prefix() {
    let source = ".data\n.text\nadd R1, r2, 3\nld R7, R0\n";
    let (program, _, _) = AsmFileParser::parse_source(source).unwrap();
    assert_eq!(program[0], Instruction::Alu(AluInstruction::Add(1, 2, 3)));
    assert_eq!(program[1], Instruction::Memory(MemoryInstruction::Load(7, 0)));
}

#[test]
fn comments_and_blank_lines_are_ignored() {
    let source = "; a program\n.data ; header\n5 ; five\n\n.text\n  mov 1, 2 ; copy\n";
    let (program, data, _) = AsmFileParser::parse_source(source).unwrap();
    assert_eq!(data, vec![5]);
    assert_eq!(program, vec![Instruction::Alu(AluInstruction::Move(1, 2))]);
}

#[test]
fn redefined_label_is_rejected() {
    let source = ".data\n.text\nloop:\nmov 0, 0\nloop:\njmp loop\n";
    let err = AsmFileParser::parse_source(source).unwrap_err();
    assert!(matches!(err, ParsingError::RedefinedLabel(name) if name == "loop"));
}

#[test]
fn undefined_label_is_rejected() {
    let source = ".data\n.text\njmp nowhere\n";
    let err = AsmFileParser::parse_source(source).unwrap_err();
    assert!(matches!(err, ParsingError::UndefinedLabel(name) if name == "nowhere"));
}

#[test]
fn data_literal_in_text_section_is_rejected() {
    let source = ".data\n.text\nmov 0, 0\n42\n";
    let err = AsmFileParser::parse_source(source).unwrap_err();
    assert!(matches!(err, ParsingError::WrongSection(t) if t == "42"));
}

#[test]
fn statements_before_any_section_are_rejected() {
    let err = AsmFileParser::parse_source("5\n.data\n.text\n").unwrap_err();
    assert!(matches!(err, ParsingError::WrongSection(_)));
}

#[test]
fn sections_must_come_in_order() {
    let err = AsmFileParser::parse_source(".text\nmov 0, 0\n.data\n").unwrap_err();
    assert!(matches!(err, ParsingError::WrongSection(name) if name == "text"));
    let err = AsmFileParser::parse_source(".data\n.data\n").unwrap_err();
    assert!(matches!(err, ParsingError::WrongSection(name) if name == "data"));
}

#[test]
fn source_without_text_section_is_malformed() {
    let err = AsmFileParser::parse_source(".data\n5\n").unwrap_err();
    assert!(matches!(err, ParsingError::MalformedFile));
    let err = AsmFileParser::parse_source("").unwrap_err();
    assert!(matches!(err, ParsingError::MalformedFile));
}

#[test]
fn unconvertible_literal_is_rejected() {
    let source = ".data\n0xzz\n.text\nmov 0, 0\n";
    let err = AsmFileParser::parse_source(source).unwrap_err();
    assert!(matches!(err, ParsingError::NumberConversion(t) if t == "0xzz"));
    let source = ".data\n70000\n.text\nmov 0, 0\n";
    let err = AsmFileParser::parse_source(source).unwrap_err();
    assert!(matches!(err, ParsingError::NumberConversion(t) if t == "70000"));
}

#[test]
fn unknown_mnemonic_is_rejected() {
    let source = ".data\n.text\nfrob 1, 2\n";
    let err = AsmFileParser::parse_source(source).unwrap_err();
    assert!(matches!(err, ParsingError::UnexpectedToken));
}

#[test]
fn instruction_without_operands_is_rejected() {
    let source = ".data\n.text\nmov\n";
    let err = AsmFileParser::parse_source(source).unwrap_err();
    assert!(matches!(err, ParsingError::MissingToken));
}

#[test]
fn parse_data_handles_every_radix_and_sign() {
    assert_eq!(parse_data("5").unwrap(), 5);
    assert_eq!(parse_data("0xff").unwrap(), 255);
    assert_eq!(parse_data("0xFFFF").unwrap(), 0xffff);
    assert_eq!(parse_data("0b101").unwrap(), 5);
    assert_eq!(parse_data("-3").unwrap(), 65533);
    assert_eq!(parse_data("-0x10").unwrap(), 65520);
    assert_eq!(parse_data("-0").unwrap(), 0);
    assert_eq!(parse_data("65535").unwrap(), 65535);
    assert!(matches!(
        parse_data("65536").unwrap_err(),
        ParsingError::NumberConversion(_)
    ));
    assert!(matches!(
        parse_data("0x10000").unwrap_err(),
        ParsingError::NumberConversion(_)
    ));
}

#[test]
fn parse_number_and_radix_reject_malformed_tokens() {
    assert!(matches!(
        parse_number("12a").unwrap_err(),
        ParsingError::NumberConversion(t) if t == "12a"
    ));
    assert!(matches!(parse_radix("0x").unwrap_err(), ParsingError::UnexpectedToken));
    assert!(matches!(parse_radix("1234").unwrap_err(), ParsingError::UnexpectedToken));
    assert!(matches!(
        parse_radix("0b102").unwrap_err(),
        ParsingError::NumberConversion(t) if t == "0b102"
    ));
    assert_eq!(parse_radix("0x00ff").unwrap(), 255);
    assert_eq!(parse_radix("0b0000000000000001").unwrap(), 1);
}

#[test]
fn parsed_program_loads_and_runs() {
    let source = "\
.data
0
5
6
.text
inc 0, 0
ld 1, 0
inc 0, 0
ld 2, 0
sub 0, 0, 0
loop:
add 0, 0, 1
dec 2, 2
jmpnz loop
st 0, 2
";
    let (program, data, labels) = AsmFileParser::parse_source(source).unwrap();
    assert_eq!(
        program[7],
        Instruction::ControlFlow(ControlFlowInstruction::JumpNotZero(5))
    );
    let mut p = Processor::new();
    assert!(load_cpu(&mut p, Some(&program[..]), Some(&data[..]), Some(labels)));
    p.run(false).unwrap();
    assert_eq!(p.get_ram(0), 30);
    assert_eq!(p.get_register(2), 0);
}

#[test]
fn rom_table_lines_are_byte_exact() {
    let rom = [
        Instruction::Alu(AluInstruction::Add(1, 2, 3)),
        Instruction::NoOperation,
        Instruction::ControlFlow(ControlFlowInstruction::JumpNotZero(5)),
    ];
    let text = parse_rom(&rom);
    assert_eq!(
        text,
        "\t\t\"000001001010011\"  when iA = 0 else\n\t\t\"\"  when iA = 1 else\n\t\t\"010101000000101\"  when iA = 2 else\n"
    );
}

#[test]
fn ram_table_lines_are_byte_exact() {
    let text = parse_ram(&[0, 255, 0xabcd]);
    assert_eq!(
        text,
        "\tsMEM(0) <= x\"0000\";\n\tsMEM(1) <= x\"00ff\";\n\tsMEM(2) <= x\"abcd\";\n"
    );
}

#[test]
fn number_rendering_matches_the_usual_forms() {
    assert_eq!(dec_u16(0), "0");
    assert_eq!(dec_u16(7), "7");
    assert_eq!(dec_u16(256), "256");
    assert_eq!(dec_u16(65535), "65535");
    assert_eq!(hex4_u16(0), "0000");
    assert_eq!(hex4_u16(0xabcd), "abcd");
    assert_eq!(hex4_u16(255), "00ff");
}

#[test]
fn label_outside_text_is_rejected() {
    let err = AsmFileParser::parse_source(".data\nstart:\n.text\nmov 0, 0\n").unwrap_err();
    assert!(matches!(err, ParsingError::WrongSection(name) if name == "start"));
}

#[test]
fn label_must_be_a_well_formed_name() {
    let err = AsmFileParser::parse_source(".data\n.text\n9lives:\nmov 0, 0\n").unwrap_err();
    assert!(matches!(err, ParsingError::UnexpectedToken));
}

#[test]
fn register_text_beyond_the_file_is_caught_by_the_loader() {
    // the parser accepts any eight-bit index; the loader's bound check
    // rejects it
    let (program, _, _) = AsmFileParser::parse_source(".data\n.text\nmov R8, 0\n").unwrap();
    assert_eq!(program[0], Instruction::Alu(AluInstruction::Move(8, 0)));
    let mut p = Processor::new();
    assert!(!load_cpu(&mut p, Some(&program[..]), None, None));
}

#[test]
fn loaded_labels_are_stored_on_the_machine() {
    let source = ".data\n.text\nbegin: mov 0, 0\n";
    let (program, data, labels) = AsmFileParser::parse_source(source).unwrap();
    let mut p = Processor::new();
    assert!(load_cpu(&mut p, Some(&program[..]), Some(&data[..]), Some(labels)));
    assert_eq!(p.get_labels(), &vec![(0usize, vec![String::from("begin")])]);
}

#[test]
fn operand_count_must_match_a_shape() {
    let err = AsmFileParser::parse_source(".data\n.text\nadd 1, 2, 3, 4\n").unwrap_err();
    assert!(matches!(err, ParsingError::UnexpectedToken));
    let err = AsmFileParser::parse_source(".data\n.text\nmov 1\n").unwrap_err();
    // a single operand is read as a label reference, which is undefined here
    assert!(matches!(err, ParsingError::UndefinedLabel(t) if t == "1"));
}
