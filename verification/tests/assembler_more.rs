use cody_emulator::assembler::{
    assemble, disassemble, AssembledInstruction, AssemblerError, Instruction, LabelTable,
    Mnemonic, MnemonicDSL, Parameter, PseudoInstruction,
};
use cody_emulator::opcode::{AddressingMode, Opcode};

fn indexed(address: u16, register: Parameter) -> Parameter {
    Parameter::list(vec![Parameter::Absolute(address), register])
}

fn indirect(inner: Parameter) -> Parameter {
    Parameter::Indirect(Box::new(inner))
}

#[test]
fn labels_resolve_against_the_address_behind_the_instruction() {
    let program = [
        Opcode::BRA.with(Parameter::label("set_1")),
        Opcode::LDA.labelled_with("set_1", Parameter::Immediate(1)),
        Opcode::BRA.with(Parameter::label("exit")),
        Opcode::LDA.labelled_with("set_2", Parameter::Immediate(2)),
        Opcode::BRA.with(Parameter::label("exit")),
        Opcode::STP.labelled("exit"),
    ];
    assert_eq!(
        assemble(&program).unwrap(),
        vec![0x80, 0x00, 0xA9, 0x01, 0x80, 0x04, 0xA9, 0x02, 0x80, 0x00, 0xDB]
    );
    let backwards = [
        Opcode::NOP.labelled("again"),
        Opcode::BRA.with(Parameter::label("again")),
        Opcode::JSR.with(Parameter::label("again")),
        Opcode::JMP.labelled_with("here", Parameter::Absolute(0x1234)),
    ];
    assert_eq!(
        assemble(&backwards).unwrap(),
        vec![0xEA, 0x80, 0xFD, 0x20, 0x00, 0x00, 0x4C, 0x34, 0x12]
    );
    let bit_branch = [
        Opcode::BBR7.with(Parameter::list(vec![
            Parameter::Absolute(0x10),
            Parameter::label("end"),
        ])),
        Opcode::NOP.instruction(),
        Opcode::STP.labelled("end"),
    ];
    assert_eq!(assemble(&bit_branch).unwrap(), vec![0x7F, 0x10, 0x01, 0xEA, 0xDB]);
    assert_eq!(assemble(&[]).unwrap(), Vec::<u8>::new());
}

#[test]
fn small_addresses_take_the_zero_page_encoding() {
    let one = |instruction: Instruction| assemble(&[instruction]).unwrap();
    assert_eq!(one(Opcode::LDA.with(Parameter::Absolute(0x10))), vec![0xA5, 0x10]);
    assert_eq!(one(Opcode::LDA.with(Parameter::Absolute(0xFF))), vec![0xA5, 0xFF]);
    assert_eq!(one(Opcode::LDA.with(Parameter::Absolute(0x100))), vec![0xAD, 0x00, 0x01]);
    assert_eq!(one(Opcode::LDA.with(indexed(0x10, Parameter::X))), vec![0xB5, 0x10]);
    assert_eq!(one(Opcode::LDA.with(indexed(0x1234, Parameter::X))), vec![0xBD, 0x34, 0x12]);
    assert_eq!(one(Opcode::LDX.with(indexed(0x10, Parameter::Y))), vec![0xB6, 0x10]);
    // LDA has no zero page mode indexed by Y
    assert_eq!(one(Opcode::LDA.with(indexed(0x10, Parameter::Y))), vec![0xB9, 0x10, 0x00]);
    assert_eq!(one(Opcode::LDA.with(indirect(Parameter::Absolute(0x10)))), vec![0xB2, 0x10]);
    assert_eq!(
        one(Opcode::LDA.with(indirect(indexed(0x10, Parameter::X)))),
        vec![0xA1, 0x10]
    );
    // JMP has no zero page modes
    assert_eq!(one(Opcode::JMP.with(Parameter::Absolute(0x10))), vec![0x4C, 0x10, 0x00]);
    assert_eq!(
        one(Opcode::JMP.with(indirect(Parameter::Absolute(0x10)))),
        vec![0x6C, 0x10, 0x00]
    );
    assert_eq!(
        one(Opcode::JMP.with(indirect(indexed(0x1234, Parameter::X)))),
        vec![0x7C, 0x34, 0x12]
    );
    assert_eq!(one(Opcode::ASL.with(Parameter::A)), vec![0x0A]);
    assert_eq!(one(Opcode::LDA.with(Parameter::Immediate(0x42))), vec![0xA9, 0x42]);
    assert_eq!(one(Opcode::BRK.with(Parameter::Immediate(0x42))), vec![0x00, 0x42]);
    assert_eq!(one(Opcode::RMB3.with(Parameter::Absolute(0x42))), vec![0x37, 0x42]);
    // `(zp),y` takes one operand byte
    assert_eq!(
        one(Opcode::LDA.with(Parameter::list(vec![
            indirect(Parameter::Absolute(0x10)),
            Parameter::Y
        ]))),
        vec![0xB1, 0x10]
    );
    assert_eq!(
        one(Opcode::STA.with(Parameter::list(vec![
            indirect(Parameter::Absolute(0xFF)),
            Parameter::Y
        ]))),
        vec![0x91, 0xFF]
    );
}

#[test]
fn a_label_needs_a_mnemonic_with_one_encoding() {
    // JSR and BRA have one encoding each, LDA has nine
    let unique = [
        Opcode::JSR.labelled_with("start", Parameter::label("start")),
        Opcode::BRA.with(Parameter::label("start")),
    ];
    assert_eq!(assemble(&unique).unwrap(), vec![0x20, 0x00, 0x00, 0x80, 0xFB]);
    let ambiguous = [Opcode::LDA.labelled_with("start", Parameter::label("start"))];
    assert!(matches!(
        assemble(&ambiguous),
        Err(AssemblerError::ParameterMismatch(_))
    ));
    let chosen = AssembledInstruction::assemble(&Opcode::JSR.with(Parameter::label("x"))).unwrap();
    assert_eq!(chosen.instruction.byte, 0x20);
    assert_eq!(chosen.instruction.parameter_1, AddressingMode::Absolute);
}

#[test]
fn each_failure_has_its_error() {
    let twice = [Opcode::NOP.labelled("a"), Opcode::NOP.labelled("a")];
    match assemble(&twice) {
        Err(AssemblerError::DoubleLabel(label)) => assert_eq!(label, "a"),
        other => panic!("{other:?}"),
    }
    let missing = [Opcode::BRA.with(Parameter::label("nowhere"))];
    match assemble(&missing) {
        Err(AssemblerError::UnknownLabel(label)) => assert_eq!(label, "nowhere"),
        other => panic!("{other:?}"),
    }
    let pseudo = [PseudoInstruction::BBR.instruction()];
    assert!(matches!(assemble(&pseudo), Err(AssemblerError::InvalidOpcode)));
    for parameter in [
        Parameter::X,
        Parameter::Y,
        Parameter::A,
        Parameter::list(vec![]),
        Parameter::list(vec![Parameter::Absolute(1)]),
        Parameter::list(vec![Parameter::X, Parameter::Absolute(1)]),
        indirect(Parameter::X),
        indirect(indexed(0x10, Parameter::Y)),
        Parameter::list(vec![indirect(Parameter::Absolute(0x100)), Parameter::Y]),
        Parameter::list(vec![indirect(Parameter::Immediate(1)), Parameter::Y]),
    ] {
        assert!(matches!(
            assemble(&[Opcode::LDA.with(parameter)]),
            Err(AssemblerError::ParameterMismatch(_))
        ));
    }
    // no encoding of the mnemonic takes the operand
    assert!(matches!(
        assemble(&[Opcode::NOP.with(Parameter::Immediate(1))]),
        Err(AssemblerError::ParameterMismatch(_))
    ));
    assert!(matches!(
        assemble(&[Opcode::BRK.instruction()]),
        Err(AssemblerError::ParameterMismatch(_))
    ));
    assert!(matches!(
        assemble(&[Opcode::RMB0.with(Parameter::Absolute(0x100))]),
        Err(AssemblerError::ParameterMismatch(_))
    ));
    // a label in an instruction that takes no address
    assert!(matches!(
        assemble(&[Opcode::NOP.labelled_with("a", Parameter::label("a"))]),
        Err(AssemblerError::ParameterMismatch(_))
    ));
}

fn padded_branch(backwards: bool, distance: usize) -> Result<Vec<u8>, AssemblerError> {
    let mut program = Vec::new();
    if backwards {
        program.push(Opcode::NOP.labelled("target"));
        for _ in 1..distance - 2 {
            program.push(Opcode::NOP.instruction());
        }
        program.push(Opcode::BRA.with(Parameter::label("target")));
    } else {
        program.push(Opcode::BRA.with(Parameter::label("target")));
        for _ in 0..distance {
            program.push(Opcode::NOP.instruction());
        }
        program.push(Opcode::STP.labelled("target"));
    }
    assemble(&program)
}

#[test]
fn branches_reach_128_back_and_127_ahead() {
    assert_eq!(padded_branch(false, 127).unwrap()[1], 127);
    assert!(matches!(padded_branch(false, 128), Err(AssemblerError::JumpTooFar)));
    let bytes = padded_branch(true, 128).unwrap();
    assert_eq!(bytes.len(), 128);
    assert_eq!(bytes[127], 0x80);
    assert!(matches!(padded_branch(true, 129), Err(AssemblerError::JumpTooFar)));
    assert_eq!(padded_branch(true, 3).unwrap(), vec![0xEA, 0x80, 0xFD]);
}

#[test]
fn programs_end_at_the_end_of_the_address_space() {
    let mut program = Vec::new();
    for _ in 0..21845 {
        program.push(Opcode::JMP.with(Parameter::Absolute(0x1234)));
    }
    assert_eq!(assemble(&program).unwrap().len(), 65535);
    program.push(Opcode::NOP.instruction());
    assert!(matches!(assemble(&program), Err(AssemblerError::AddressOverflow)));
}

#[test]
fn failures_of_the_first_pass_come_first() {
    let program = [
        Opcode::BRA.with(Parameter::label("nowhere")),
        Opcode::LDA.with(Parameter::X),
    ];
    assert!(matches!(assemble(&program), Err(AssemblerError::ParameterMismatch(_))));
    let program = [
        Opcode::LDA.labelled_with("a", Parameter::X),
        Opcode::NOP.labelled("a"),
    ];
    assert!(matches!(assemble(&program), Err(AssemblerError::ParameterMismatch(_))));
    let program = [
        Opcode::NOP.labelled("a"),
        Opcode::LDA.labelled_with("a", Parameter::X),
    ];
    assert!(matches!(assemble(&program), Err(AssemblerError::DoubleLabel(_))));
}

#[test]
fn label_table_keeps_the_first_binding() {
    let mut table = LabelTable::new();
    assert_eq!(table.get(&String::from("a")), None);
    assert!(table.insert(String::from("a"), 1));
    assert!(table.insert(String::from("b"), 2));
    assert!(!table.insert(String::from("a"), 3));
    assert_eq!(table.get(&String::from("a")), Some(1));
    assert_eq!(table.get(&String::from("b")), Some(2));
    assert_eq!(table.get(&String::from("c")), None);
}

#[test]
fn builders_name_the_mnemonic() {
    let instruction = Opcode::LDA.labelled_with("x", Parameter::Immediate(1));
    assert_eq!(instruction.label.as_deref(), Some("x"));
    assert_eq!(instruction.mnemonic, Mnemonic::Opcode(Opcode::LDA));
    assert_eq!(instruction.parameter, Parameter::Immediate(1));
    assert_eq!(Opcode::NOP.instruction().parameter, Parameter::Implied);
    assert_eq!(Opcode::NOP.labelled("y").label.as_deref(), Some("y"));
    assert_eq!(
        PseudoInstruction::SMB.with(Parameter::A).mnemonic,
        Mnemonic::PseudoOp(PseudoInstruction::SMB)
    );
    assert_eq!(Mnemonic::from(Opcode::CLC), Mnemonic::Opcode(Opcode::CLC));
    assert_eq!(
        Mnemonic::from(PseudoInstruction::RMB),
        Mnemonic::PseudoOp(PseudoInstruction::RMB)
    );
    assert_eq!(Mnemonic::Opcode(Opcode::SEC).instruction().mnemonic, Mnemonic::Opcode(Opcode::SEC));
    assert_eq!(Parameter::label("z"), Parameter::Label(String::from("z")));
    // copies are written alike
    let nested = Opcode::LDA.labelled_with(
        "deep",
        Parameter::list(vec![indirect(indexed(0x10, Parameter::label("q"))), Parameter::Y]),
    );
    assert_eq!(nested.clone(), nested);
    assert_eq!(nested.parameter.clone(), nested.parameter);
}

#[test]
fn listing_an_assembled_program_gives_it_back() {
    let program = [
        Opcode::LDA.with(Parameter::Immediate(1)),
        Opcode::STA.with(Parameter::Absolute(0x10)),
        Opcode::STA.with(Parameter::Absolute(0x1234)),
        Opcode::LDA.with(indexed(0x20, Parameter::X)),
        Opcode::LDA.with(indexed(0x2000, Parameter::Y)),
        Opcode::LDA.with(indirect(Parameter::Absolute(0x30))),
        Opcode::JMP.with(indirect(Parameter::Absolute(0x3000))),
        Opcode::JMP.with(indirect(indexed(0x4000, Parameter::X))),
        Opcode::LDA.with(indirect(indexed(0x40, Parameter::X))),
        Opcode::ASL.with(Parameter::A),
        Opcode::BRK.with(Parameter::Immediate(7)),
        Opcode::SMB5.with(Parameter::Absolute(0x50)),
        Opcode::LDA.with(Parameter::list(vec![indirect(Parameter::Absolute(0x60)), Parameter::Y])),
        Opcode::STA.with(Parameter::list(vec![indirect(Parameter::Absolute(0x00)), Parameter::Y])),
        Opcode::STP.instruction(),
    ];
    let listing = disassemble(&assemble(&program).unwrap());
    assert_eq!(listing.len(), program.len());
    for (listed, original) in listing.iter().zip(program.iter()) {
        assert_eq!(listed.mnemonic, original.mnemonic);
        assert_eq!(listed.parameter, original.parameter);
        assert_eq!(listed.label, None);
    }
}

#[test]
fn listings_show_branch_targets_and_fill_gaps() {
    // BRA +2 at address 0; an undocumented byte; BBS1 $10, -5; LDA abs cut short
    let listing = disassemble(&[0x80, 0x02, 0x02, 0x9F, 0x10, 0xFB, 0xB1, 0x20, 0xAD, 0x34]);
    assert_eq!(listing.len(), 4);
    assert_eq!(listing[0].mnemonic, Mnemonic::Opcode(Opcode::BRA));
    assert_eq!(listing[0].parameter, Parameter::Absolute(0x0004));
    assert_eq!(listing[1].mnemonic, Mnemonic::Opcode(Opcode::NOP));
    assert_eq!(listing[1].parameter, Parameter::Implied);
    assert_eq!(listing[2].mnemonic, Mnemonic::Opcode(Opcode::BBS1));
    assert_eq!(
        listing[2].parameter,
        Parameter::list(vec![Parameter::Absolute(0x10), Parameter::Absolute(0x0001)])
    );
    assert_eq!(listing[3].mnemonic, Mnemonic::Opcode(Opcode::LDA));
    assert_eq!(
        listing[3].parameter,
        Parameter::list(vec![indirect(Parameter::Absolute(0x20)), Parameter::Y])
    );
    assert!(disassemble(&[]).is_empty());
    assert!(disassemble(&[0xAD]).is_empty());
}
