use cody_emulator::device::blanking::BlankingRegister;
use cody_emulator::device::bus::Device;
use cody_emulator::device::uart::{Uart, UartSource};
use cody_emulator::device::via::Via;
use cody_emulator::machine::{build_bus, load_image, parse_cartridge, CartridgeError};
use cody_emulator::memory::contiguous::Contiguous;
use cody_emulator::memory::Memory;
use cody_emulator::opcode::{
    get_instruction, get_instructions, opcodes, AddressingMode, Opcode,
};
use cody_emulator::single_step::{
    execute_test_case, Configuration, Cycle, CycleOp, Mismatch, RamValue, TestCase,
};

#[test]
fn cartridges_carry_their_load_address() {
    let cartridge = parse_cartridge(&[0x00, 0xE0, 0x02, 0xE0, 1, 2, 3, 4]).unwrap();
    assert_eq!(cartridge.load_address, 0xE000);
    assert_eq!(cartridge.payload, vec![1, 2, 3]);
    let cartridge = parse_cartridge(&[0x34, 0x12, 0x34, 0x12, 9]).unwrap();
    assert_eq!(cartridge.load_address, 0x1234);
    assert_eq!(cartridge.payload, vec![9]);
    assert_eq!(parse_cartridge(&[]).unwrap_err(), CartridgeError::HeaderTooShort);
    assert_eq!(parse_cartridge(&[0, 0, 0]).unwrap_err(), CartridgeError::HeaderTooShort);
    assert_eq!(
        parse_cartridge(&[0x01, 0x00, 0x00, 0x00, 1]).unwrap_err(),
        CartridgeError::EndBeforeStart
    );
    assert_eq!(
        parse_cartridge(&[0x00, 0x00, 0x01, 0x00, 1]).unwrap_err(),
        CartridgeError::PayloadTooShort
    );
    assert_eq!(
        parse_cartridge(&[0x00, 0x00, 0x00, 0x00]).unwrap_err(),
        CartridgeError::PayloadTooShort
    );
}

#[test]
fn images_spread_over_the_memories() {
    let mut ram = Contiguous::new_ram(0xA000);
    let mut propeller_ram = Contiguous::new_ram(0x4000);
    let mut rom = Contiguous::new_rom(0x2000);
    load_image(&mut ram, &mut propeller_ram, &mut rom, 0x9FFE, &[1, 2, 3, 4]);
    assert_eq!(&ram.memory[0x9FFE..], &[1, 2]);
    assert_eq!(&propeller_ram.memory[..3], &[3, 4, 0]);
    assert_eq!(rom.memory[0], 0);
    let mut image = vec![0u8; 0x4002];
    image[0] = 5;
    image[0x3FFF] = 6;
    image[0x4000] = 7;
    image[0x4001] = 8;
    load_image(&mut ram, &mut propeller_ram, &mut rom, 0xA000, &image);
    assert_eq!(propeller_ram.memory[0], 5);
    assert_eq!(propeller_ram.memory[0x3FFF], 6);
    assert_eq!(&rom.memory[..3], &[7, 8, 0]);
    assert_eq!(&ram.memory[0x9FFE..], &[1, 2]);
    load_image(&mut ram, &mut propeller_ram, &mut rom, 0xFFFE, &[9, 10, 11]);
    assert_eq!(&rom.memory[0x1FFE..], &[9, 10]);
    // from the main memory through to the read-only memory
    let mut image = vec![0xAAu8; 0x4004];
    image[0x4003] = 0xBB;
    load_image(&mut ram, &mut propeller_ram, &mut rom, 0x9FFF, &image);
    assert_eq!(ram.memory[0x9FFF], 0xAA);
    assert_eq!(ram.memory[0x9FFE], 1);
    assert_eq!(propeller_ram.memory[0x3FFF], 0xAA);
    assert_eq!(&rom.memory[..4], &[0xAA, 0xAA, 0xBB, 0]);
    load_image(&mut ram, &mut propeller_ram, &mut rom, 0x1000, &[]);
    assert_eq!(ram.memory[0x1000], 0);
}

#[test]
fn devices_lie_over_the_memories() {
    let mut ram = Contiguous::new_ram(0xA000);
    ram.force_write_u8(0x9EFF, 0x11);
    ram.force_write_u8(0x9F0B, 0x22);
    let mut propeller_ram = Contiguous::new_ram(0x4000);
    propeller_ram.force_write_u8(0x0000, 0x33);
    propeller_ram.force_write_u8(0x3000, 0x44);
    propeller_ram.force_write_u8(0x3001, 0x55);
    propeller_ram.force_write_u8(0x3480 + 8, 0x66);
    propeller_ram.force_write_u8(0x3498, 0x77);
    propeller_ram.force_write_u8(0x3FFF, 0x88);
    let mut rom = Contiguous::new_rom(0x2000);
    rom.force_write_u16(0x1FFC, 0xE000);
    let mut bus = build_bus(
        ram,
        propeller_ram,
        rom,
        Via::default(),
        Uart::new(UartSource::new(vec![0x99])),
        Uart::new(UartSource::empty()),
        BlankingRegister::default(),
    );
    assert_eq!(bus.memories.len(), 7);
    assert_eq!(bus.read_u8(0x9EFF), 0x11);
    // the adapter's ACR, not the RAM below it
    assert_eq!(bus.read_u8(0x9F0B), 0x00);
    bus.write_u8(0x9F0B, 0x40);
    assert_eq!(bus.read_u8(0x9F0B), 0x40);
    assert!(matches!(&bus.memories[0].memory, Device::Ram(ram) if ram.memory[0x9F0B] == 0x22));
    assert_eq!(bus.read_u8(0xA000), 0x33);
    // the blanking register at $D000, then memory again
    assert_eq!(bus.read_u8(0xD000), 0x00);
    assert_eq!(bus.read_u8(0xD001), 0x55);
    bus.update(0);
    assert_eq!(bus.read_u8(0xD000), 0x01);
    // the first UART's window ends at $D498
    bus.write_u8(0xD481, 0x01);
    bus.update(1);
    assert_eq!(bus.read_u8(0xD482), 0x40);
    assert_eq!(bus.read_u8(0xD488), 0x99);
    assert_eq!(bus.read_u8(0xD498), 0x77);
    assert_eq!(bus.read_u8(0xD4A2), 0x00);
    assert_eq!(bus.read_u8(0xDFFF), 0x88);
    bus.write_u8(0xFFFC, 0x12);
    assert_eq!(bus.read_u16(0xFFFC), 0xE000);
}

#[test]
fn catalogue_holds_the_documented_opcodes() {
    let all = opcodes();
    assert_eq!(all.len(), 212);
    for (i, meta) in all.iter().enumerate() {
        assert_eq!(get_instruction(meta.byte), Some(*meta));
        if i > 0 {
            assert!(all[i - 1].byte < meta.byte);
        }
        assert!((1..=7).contains(&meta.cycles));
        assert_eq!(meta.width(), 1 + meta.parameter_width());
    }
    assert_eq!((0..=255u8).filter(|byte| get_instruction(*byte).is_none()).count(), 44);
    let lda = get_instruction(0xA9).unwrap();
    assert_eq!(
        (lda.opcode, lda.parameter_1, lda.parameter_2, lda.cycles),
        (Opcode::LDA, AddressingMode::Immediate, AddressingMode::Implied, 2)
    );
    let bbr = get_instruction(0x0F).unwrap();
    assert_eq!(
        (bbr.opcode, bbr.parameter_1, bbr.parameter_2, bbr.cycles, bbr.width()),
        (
            Opcode::BBR0,
            AddressingMode::ZeroPage,
            AddressingMode::ProgramCounterRelative,
            5,
            3
        )
    );
    assert_eq!(get_instruction(0x02), None);
    assert_eq!(get_instruction(0xDE).unwrap().cycles, 7);
    assert_eq!(get_instruction(0x1E).unwrap().cycles, 6);
    assert_eq!(Opcode::NOP.insn0(0xEA, 2), get_instruction(0xEA).unwrap());
    assert_eq!(
        Opcode::LDA.insn1(0xA9, AddressingMode::Immediate, 2),
        get_instruction(0xA9).unwrap()
    );
    assert_eq!(
        Opcode::BBS7.insn2(
            0xFF,
            AddressingMode::ZeroPage,
            AddressingMode::ProgramCounterRelative,
            5
        ),
        get_instruction(0xFF).unwrap()
    );
}

#[test]
fn encodings_are_listed_by_mnemonic() {
    let lda: Vec<u8> = get_instructions(Opcode::LDA).iter().map(|meta| meta.byte).collect();
    assert_eq!(lda, vec![0xA1, 0xA5, 0xA9, 0xAD, 0xB1, 0xB2, 0xB5, 0xB9, 0xBD]);
    assert_eq!(get_instructions(Opcode::BRA).len(), 1);
    assert_eq!(get_instructions(Opcode::JMP).len(), 3);
    assert_eq!(get_instructions(Opcode::STP)[0].byte, 0xDB);
    let total: usize = opcodes()
        .iter()
        .filter(|meta| get_instructions(meta.opcode)[0].byte == meta.byte)
        .map(|meta| get_instructions(meta.opcode).len())
        .sum();
    assert_eq!(total, 212);
    for (mode, width) in [
        (AddressingMode::Implied, 0),
        (AddressingMode::Accumulator, 0),
        (AddressingMode::Immediate, 1),
        (AddressingMode::Absolute, 2),
        (AddressingMode::AbsoluteIndexedX, 2),
        (AddressingMode::AbsoluteIndexedY, 2),
        (AddressingMode::AbsoluteIndirect, 2),
        (AddressingMode::AbsoluteIndexedIndirectX, 2),
        (AddressingMode::ProgramCounterRelative, 1),
        (AddressingMode::ZeroPage, 1),
        (AddressingMode::ZeroPageIndexedX, 1),
        (AddressingMode::ZeroPageIndexedY, 1),
        (AddressingMode::ZeroPageIndirect, 1),
        (AddressingMode::ZeroPageIndexedIndirectX, 1),
        (AddressingMode::ZeroPageIndirectIndexedY, 1),
    ] {
        assert_eq!(mode.width(), width);
    }
}

fn load_immediate() -> TestCase {
    TestCase {
        name: String::from("a9 42"),
        initial: Configuration {
            pc: 0x1000,
            s: 0x80,
            a: 0,
            x: 1,
            y: 2,
            p: 0x22,
            ram: vec![RamValue(0x1000, 0xA9), RamValue(0x1001, 0x42)],
        },
        last: Configuration {
            pc: 0x1002,
            s: 0x80,
            a: 0x42,
            x: 1,
            y: 2,
            p: 0x20,
            ram: vec![RamValue(0x1000, 0xA9), RamValue(0x1001, 0x42)],
        },
        cycles: vec![Cycle(0x1000, 0xA9, CycleOp::Read), Cycle(0x1001, 0x42, CycleOp::Read)],
    }
}

#[test]
fn a_matching_vector_passes() {
    let vector = load_immediate();
    assert_eq!(execute_test_case(&vector, false), None);
    assert_eq!(execute_test_case(&vector, true), None);
    assert_eq!(vector.cycles[0].address(), 0x1000);
    assert_eq!(vector.cycles[0].value(), 0xA9);
    assert_eq!(vector.cycles[0].op(), CycleOp::Read);
    assert_eq!(vector.initial.ram[1].address(), 0x1001);
    assert_eq!(vector.initial.ram[1].value(), 0x42);
}

#[test]
fn the_first_mismatch_is_reported() {
    let mut vector = load_immediate();
    vector.last.a = 0x43;
    vector.last.x = 9;
    assert_eq!(
        execute_test_case(&vector, false),
        Some(Mismatch::A { expected: 0x43, actual: 0x42 })
    );
    let mut vector = load_immediate();
    vector.cycles.push(Cycle(0x1002, 0, CycleOp::Read));
    vector.last.pc = 0;
    assert_eq!(
        execute_test_case(&vector, true),
        Some(Mismatch::Cycles { expected: 3, actual: 2 })
    );
    let mut vector = load_immediate();
    vector.last.pc = 0x1003;
    assert_eq!(
        execute_test_case(&vector, false),
        Some(Mismatch::Pc { expected: 0x1003, actual: 0x1002 })
    );
    let mut vector = load_immediate();
    vector.last.s = 0x81;
    assert_eq!(
        execute_test_case(&vector, false),
        Some(Mismatch::S { expected: 0x81, actual: 0x80 })
    );
    let mut vector = load_immediate();
    vector.last.y = 3;
    assert_eq!(
        execute_test_case(&vector, false),
        Some(Mismatch::Y { expected: 3, actual: 2 })
    );
    let mut vector = load_immediate();
    vector.last.p = 0x22;
    assert_eq!(
        execute_test_case(&vector, false),
        Some(Mismatch::P { expected: 0x22, actual: 0x20 })
    );
    let mut vector = load_immediate();
    vector.last.ram.push(RamValue(0x2000, 1));
    vector.last.ram.push(RamValue(0x2001, 2));
    assert_eq!(
        execute_test_case(&vector, false),
        Some(Mismatch::Ram { address: 0x2000, expected: 1, actual: 0 })
    );
    let mut vector = load_immediate();
    vector.cycles[1] = Cycle(0x1001, 0x42, CycleOp::Write);
    assert_eq!(execute_test_case(&vector, false), None);
    match execute_test_case(&vector, true) {
        Some(Mismatch::Access { index, .. }) => assert_eq!(index, 1),
        other => panic!("{other:?}"),
    }
    // the processor reads the opcode of NOP once, the vector lists two cycles
    let vector = TestCase {
        name: String::from("ea"),
        initial: Configuration { pc: 0, s: 0, a: 0, x: 0, y: 0, p: 0x30, ram: vec![RamValue(0, 0xEA)] },
        last: Configuration { pc: 1, s: 0, a: 0, x: 0, y: 0, p: 0x30, ram: vec![] },
        cycles: vec![Cycle(0, 0xEA, CycleOp::Read), Cycle(1, 0, CycleOp::Read)],
    };
    assert_eq!(execute_test_case(&vector, false), None);
    assert_eq!(
        execute_test_case(&vector, true),
        Some(Mismatch::AccessCount { expected: 2, actual: 1 })
    );
}
