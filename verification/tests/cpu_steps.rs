use cody_emulator::cpu::{Cpu, Status, IRQ_VECTOR, NMI_VECTOR, RESET_VECTOR};
use cody_emulator::device::bus::Device;
use cody_emulator::device::via::{Via, VIA_IER, VIA_T1CH, VIA_T1CL};
use cody_emulator::memory::contiguous::Contiguous;
use cody_emulator::memory::mapped::MappedMemory;
use cody_emulator::memory::Memory;
use cody_emulator::opcode::{get_instruction, Opcode};

/// A processor over 64 KiB of RAM with `program` at 0x0200 and the reset
/// vector pointing there.
fn machine(program: &[u8]) -> Cpu<Contiguous> {
    let mut memory = Contiguous::new_ram(0x10000);
    memory.force_write_all(0x0200, program);
    memory.write_u16(RESET_VECTOR, 0x0200);
    Cpu::new(memory)
}

#[test]
fn reset_establishes_the_initial_state() {
    let mut cpu = machine(&[0xEA]);
    cpu.a = 7;
    cpu.x = 8;
    cpu.y = 9;
    cpu.s = 0x10;
    cpu.p = Status::from_bits(0xFF);
    cpu.step_instruction();
    cpu.reset();
    assert_eq!((cpu.a, cpu.x, cpu.y, cpu.s), (0, 0, 0, 0xFD));
    assert_eq!(cpu.p.into_bits(), 0b0011_0100);
    assert_eq!(cpu.pc, 0x0200);
    assert!(cpu.run);
    assert!(!cpu.wai);
    assert_eq!(cpu.cycle, 0);
}

#[test]
fn status_packs_lowest_bit_first() {
    let mut p = Status::from_bits(0);
    p.set_carry(true);
    assert_eq!(p.into_bits(), 0x01);
    p.set_zero(true);
    assert_eq!(p.into_bits(), 0x03);
    p.set_irqb_disable(true);
    assert_eq!(p.into_bits(), 0x07);
    p.set_decimal_mode(true);
    assert_eq!(p.into_bits(), 0x0F);
    p.set_overflow(true);
    assert_eq!(p.into_bits(), 0x4F);
    p.set_negative(true);
    assert_eq!(p.into_bits(), 0xCF);
    for byte in 0..=255u8 {
        assert_eq!(Status::from_bits(byte).into_bits(), byte);
    }
    assert_eq!(Status::default().into_bits(), 0x34);
}

#[test]
fn stack_pointer_moves_by_pushes_less_pops() {
    // PHA, PHX, PHY, PHP: one byte down each
    let mut cpu = machine(&[0x48, 0xDA, 0x5A, 0x08, 0x68, 0xFA, 0x7A, 0x28]);
    for expected in [0xFC, 0xFB, 0xFA, 0xF9, 0xFA, 0xFB, 0xFC, 0xFD] {
        cpu.step_instruction();
        assert_eq!(cpu.s, expected);
    }
    // JSR $0300; at $0300: RTS
    let mut cpu = machine(&[0x20, 0x00, 0x03]);
    cpu.memory.write_u8(0x0300, 0x60);
    cpu.step_instruction();
    assert_eq!(cpu.s, 0xFB);
    assert_eq!(cpu.pc, 0x0300);
    assert_eq!(cpu.memory.read_u16(0x01FC), 0x0202);
    cpu.step_instruction();
    assert_eq!(cpu.s, 0xFD);
    assert_eq!(cpu.pc, 0x0203);
    // the pointer wraps within page 1
    let mut cpu = machine(&[0x68, 0x48, 0x48]);
    cpu.s = 0xFF;
    cpu.memory.write_u8(0x0100, 0x5A);
    cpu.step_instruction();
    assert_eq!((cpu.s, cpu.a), (0x00, 0x5A));
    cpu.step_instruction();
    assert_eq!(cpu.s, 0xFF);
    assert_eq!(cpu.memory.read_u8(0x0100), 0x5A);
    // TXS loads the pointer
    let mut cpu = machine(&[0x9A]);
    cpu.x = 0x42;
    let p = cpu.p.into_bits();
    cpu.step_instruction();
    assert_eq!(cpu.s, 0x42);
    assert_eq!(cpu.p.into_bits(), p);
}

#[test]
fn brk_and_rti_balance_the_stack() {
    let mut cpu = machine(&[0x00, 0xFF]);
    cpu.memory.write_u16(IRQ_VECTOR, 0x0400);
    cpu.memory.write_u8(0x0400, 0x40);
    cpu.p.set_decimal_mode(true);
    cpu.p.set_irqb_disable(false);
    cpu.p.set_carry(true);
    let cycles = cpu.step_instruction();
    assert_eq!(cycles, 7);
    assert_eq!(cpu.s, 0xFA);
    assert_eq!(cpu.pc, 0x0400);
    assert!(cpu.p.irqb_disable());
    assert!(!cpu.p.decimal_mode());
    // return address is the byte behind the signature byte
    assert_eq!(cpu.memory.read_u16(0x01FC), 0x0202);
    // pushed status has bits 4 and 5 set, and D and C as they were
    assert_eq!(cpu.memory.read_u8(0x01FB), 0b0011_1001);
    let cycles = cpu.step_instruction();
    assert_eq!(cycles, 6);
    assert_eq!(cpu.s, 0xFD);
    assert_eq!(cpu.pc, 0x0202);
    assert_eq!(cpu.p.into_bits(), 0b0011_1001);
}

#[test]
fn fixed_status_bits_survive_every_instruction() {
    // PLP from a stack byte of zero, then RTI from zeros
    let mut cpu = machine(&[0x28, 0x40]);
    cpu.s = 0x80;
    cpu.step_instruction();
    assert_eq!(cpu.p.into_bits(), 0x30);
    cpu.step_instruction();
    assert_eq!(cpu.p.into_bits() & 0x30, 0x30);
    for opcode in 0..=255u8 {
        let mut cpu = machine(&[opcode, 0x10, 0x02]);
        cpu.step_instruction();
        assert_eq!(cpu.p.into_bits() & 0x30, 0x30, "opcode {opcode:#04x}");
    }
}

#[test]
fn php_then_pla_shows_bits_4_and_5() {
    let mut cpu = machine(&[0x08, 0x68]);
    cpu.p = Status::from_bits(0x00);
    cpu.step_instruction();
    cpu.step_instruction();
    assert_eq!(cpu.a, 0x30);
    let mut cpu = machine(&[0x08, 0x68]);
    cpu.p = Status::from_bits(0xCF);
    cpu.step_instruction();
    cpu.step_instruction();
    assert_eq!(cpu.a, 0xFF);
}

#[test]
fn push_then_pop_restores_registers() {
    // LDA #$A5, PHA, LDA #0, PLA
    let mut cpu = machine(&[0xA9, 0xA5, 0x48, 0xA9, 0x00, 0x68]);
    cpu.run(4);
    assert_eq!(cpu.a, 0xA5);
    assert!(cpu.p.negative());
    assert!(!cpu.p.zero());
    // LDX #$17, PHX, LDX #0, PLX; LDY #$00, PHY, LDY #1, PLY
    let mut cpu = machine(&[0xA2, 0x17, 0xDA, 0xA2, 0x00, 0xFA, 0xA0, 0x00, 0x5A, 0xA0, 0x01, 0x7A]);
    cpu.run(8);
    assert_eq!((cpu.x, cpu.y), (0x17, 0x00));
    assert!(cpu.p.zero());
    // SEC, SED, PHP, CLC, CLD, PLP
    let mut cpu = machine(&[0x38, 0xF8, 0x08, 0x18, 0xD8, 0x28]);
    cpu.run(3);
    let pushed = cpu.p;
    cpu.run(3);
    assert_eq!(cpu.p, pushed);
    assert_eq!(cpu.s, 0xFD);
}

#[test]
fn instructions_without_stores_leave_memory_alone() {
    for opcode in [0xA9u8, 0xAD, 0xBD, 0x69, 0xC9, 0x24, 0xEA, 0xE8, 0x18, 0x4C, 0x80, 0x68, 0x60] {
        let mut cpu = machine(&[opcode, 0x34, 0x12]);
        let before = cpu.memory.memory.clone();
        cpu.step_instruction();
        assert_eq!(cpu.memory.memory, before, "opcode {opcode:#04x}");
    }
    // a store does change memory
    let mut cpu = machine(&[0x8D, 0x34, 0x12]);
    cpu.a = 0x77;
    cpu.step_instruction();
    assert_eq!(cpu.memory.read_u8(0x1234), 0x77);
}

#[test]
fn program_counter_advances_by_the_width() {
    for byte in 0..=255u8 {
        let mut cpu = machine(&[byte, 0x00, 0x00]);
        let flow = match get_instruction(byte) {
            Some(meta) => matches!(
                meta.opcode,
                Opcode::BBR0 | Opcode::BBR1 | Opcode::BBR2 | Opcode::BBR3 | Opcode::BBR4
                    | Opcode::BBR5 | Opcode::BBR6 | Opcode::BBR7 | Opcode::BBS0 | Opcode::BBS1
                    | Opcode::BBS2 | Opcode::BBS3 | Opcode::BBS4 | Opcode::BBS5 | Opcode::BBS6
                    | Opcode::BBS7 | Opcode::BCC | Opcode::BCS | Opcode::BEQ | Opcode::BNE
                    | Opcode::BMI | Opcode::BPL | Opcode::BVC | Opcode::BVS | Opcode::BRA
                    | Opcode::BRK | Opcode::JMP | Opcode::JSR | Opcode::RTI | Opcode::RTS
            ),
            None => false,
        };
        let width = match get_instruction(byte) {
            Some(meta) => {
                assert_eq!(
                    meta.width(),
                    1 + meta.parameter_1.width() + meta.parameter_2.width()
                );
                meta.width()
            }
            None => 1,
        };
        cpu.step_instruction();
        if !flow {
            assert_eq!(cpu.pc, 0x0200 + width, "opcode {byte:#04x}");
        }
    }
    // the counter wraps around the address space
    let mut memory = Contiguous::new_ram(0x10000);
    memory.write_u16(RESET_VECTOR, 0xFFFF);
    memory.write_u8(0xFFFF, 0xA9);
    memory.write_u8(0x0000, 0x42);
    let mut cpu = Cpu::new(memory);
    cpu.step_instruction();
    assert_eq!((cpu.a, cpu.pc), (0x42, 0x0001));
}

#[test]
fn cycles_include_page_cross_and_branch_penalties() {
    // LDA $12F0,X without and with a page crossing
    let mut cpu = machine(&[0xBD, 0xF0, 0x12]);
    cpu.x = 0x0F;
    assert_eq!(cpu.step_instruction(), 4);
    let mut cpu = machine(&[0xBD, 0xF0, 0x12]);
    cpu.x = 0x10;
    assert_eq!(cpu.step_instruction(), 5);
    assert_eq!(cpu.cycle, 5);
    // LDA ($10),Y with a page crossing
    let mut cpu = machine(&[0xB1, 0x10]);
    cpu.memory.write_u16(0x0010, 0x12FF);
    cpu.memory.write_u8(0x1300, 0x99);
    cpu.y = 1;
    assert_eq!(cpu.step_instruction(), 6);
    assert_eq!(cpu.a, 0x99);
    // STA $12F0,X takes 5 cycles either way
    let mut cpu = machine(&[0x9D, 0xF0, 0x12]);
    cpu.x = 0x10;
    assert_eq!(cpu.step_instruction(), 5);
    // INC $12F0,X takes 7 cycles either way
    let mut cpu = machine(&[0xFE, 0xF0, 0x12]);
    cpu.x = 0x10;
    assert_eq!(cpu.step_instruction(), 7);
    assert_eq!(cpu.memory.read_u8(0x1300), 1);
    // a branch not taken, taken within the page, taken across a page
    let mut cpu = machine(&[0xD0, 0x10]);
    cpu.p.set_zero(true);
    assert_eq!(cpu.step_instruction(), 2);
    assert_eq!(cpu.pc, 0x0202);
    let mut cpu = machine(&[0xD0, 0x10]);
    assert_eq!(cpu.step_instruction(), 3);
    assert_eq!(cpu.pc, 0x0212);
    let mut cpu = machine(&[0xD0, 0xF0]);
    assert_eq!(cpu.step_instruction(), 4);
    assert_eq!(cpu.pc, 0x01F2);
    // BBS0 taken within the page
    let mut cpu = machine(&[0x8F, 0x20, 0x05]);
    cpu.memory.write_u8(0x0020, 0x01);
    assert_eq!(cpu.step_instruction(), 6);
    assert_eq!(cpu.pc, 0x0208);
    // BBR0 on a set bit is not taken
    let mut cpu = machine(&[0x0F, 0x20, 0x05]);
    cpu.memory.write_u8(0x0020, 0x01);
    assert_eq!(cpu.step_instruction(), 5);
    assert_eq!(cpu.pc, 0x0203);
    // decimal mode costs one more cycle
    let mut cpu = machine(&[0x69, 0x01]);
    cpu.p.set_decimal_mode(true);
    assert_eq!(cpu.step_instruction(), 3);
}

#[test]
fn decimal_arithmetic_works_on_packed_digits() {
    let add = |a: u8, m: u8, carry: bool| {
        let mut cpu = machine(&[0x69, m]);
        cpu.a = a;
        cpu.p.set_decimal_mode(true);
        cpu.p.set_carry(carry);
        cpu.step_instruction();
        (cpu.a, cpu.p.carry())
    };
    assert_eq!(add(0x19, 0x01, false), (0x20, false));
    assert_eq!(add(0x99, 0x01, false), (0x00, true));
    assert_eq!(add(0x58, 0x46, true), (0x05, true));
    let subtract = |a: u8, m: u8, carry: bool| {
        let mut cpu = machine(&[0xE9, m]);
        cpu.a = a;
        cpu.p.set_decimal_mode(true);
        cpu.p.set_carry(carry);
        cpu.step_instruction();
        (cpu.a, cpu.p.carry())
    };
    assert_eq!(subtract(0x20, 0x01, true), (0x19, true));
    assert_eq!(subtract(0x00, 0x01, true), (0x99, false));
    assert_eq!(subtract(0x46, 0x12, false), (0x33, true));
    for a in 0..100u8 {
        for m in 0..100u8 {
            let packed = |n: u8| (n / 10) * 16 + n % 10;
            let (sum, carry) = add(packed(a), packed(m), false);
            assert_eq!(sum, packed((a + m) % 100));
            assert_eq!(carry, a + m >= 100);
            let (difference, carry) = subtract(packed(a), packed(m), true);
            assert_eq!(difference, packed((100 + a - m) % 100));
            assert_eq!(carry, a >= m);
        }
    }
}

#[test]
fn shifts_rotate_through_the_carry() {
    let run = |opcode: u8, a: u8, carry: bool| {
        let mut cpu = machine(&[opcode]);
        cpu.a = a;
        cpu.p.set_carry(carry);
        cpu.step_instruction();
        (cpu.a, cpu.p.carry())
    };
    assert_eq!(run(0x0A, 0x81, true), (0x02, true));
    assert_eq!(run(0x4A, 0x81, true), (0x40, true));
    assert_eq!(run(0x2A, 0x81, true), (0x03, true));
    assert_eq!(run(0x2A, 0x01, false), (0x02, false));
    assert_eq!(run(0x6A, 0x81, true), (0xC0, true));
    assert_eq!(run(0x6A, 0x80, false), (0x40, false));
    // on memory
    let mut cpu = machine(&[0x06, 0x10]);
    cpu.memory.write_u8(0x0010, 0xC0);
    cpu.step_instruction();
    assert_eq!(cpu.memory.read_u8(0x0010), 0x80);
    assert!(cpu.p.carry());
    assert!(cpu.p.negative());
}

#[test]
fn bit_instructions_act_on_the_zero_page() {
    // BIT $10 sets N and V from memory; BIT #imm leaves them
    let mut cpu = machine(&[0x24, 0x10, 0x89, 0x00]);
    cpu.memory.write_u8(0x0010, 0xC0);
    cpu.a = 0x01;
    cpu.step_instruction();
    assert!(cpu.p.zero() && cpu.p.negative() && cpu.p.overflow());
    cpu.a = 0xFF;
    cpu.step_instruction();
    assert!(cpu.p.zero() && cpu.p.negative() && cpu.p.overflow());
    // RMB3 and SMB5
    let mut cpu = machine(&[0x37, 0x10, 0xD7, 0x10]);
    cpu.memory.write_u8(0x0010, 0x0F);
    cpu.step_instruction();
    assert_eq!(cpu.memory.read_u8(0x0010), 0x07);
    cpu.step_instruction();
    assert_eq!(cpu.memory.read_u8(0x0010), 0x27);
    // TRB and TSB
    let mut cpu = machine(&[0x14, 0x10, 0x04, 0x11]);
    cpu.memory.write_u8(0x0010, 0b1010);
    cpu.memory.write_u8(0x0011, 0b0001);
    cpu.a = 0b0110;
    cpu.step_instruction();
    assert_eq!(cpu.memory.read_u8(0x0010), 0b1000);
    assert!(!cpu.p.zero());
    cpu.step_instruction();
    assert_eq!(cpu.memory.read_u8(0x0011), 0b0111);
    assert!(cpu.p.zero());
}

#[test]
fn indirect_zero_page_reads_wrap_within_the_page() {
    // LDA ($FF): the pointer's high byte comes from $00, not from $0100
    let mut cpu = machine(&[0xB2, 0xFF]);
    cpu.memory.write_u8(0x00FF, 0x34);
    cpu.memory.write_u8(0x0000, 0x12);
    cpu.memory.write_u8(0x0100, 0x56);
    cpu.memory.write_u8(0x1234, 0xAB);
    cpu.step_instruction();
    assert_eq!(cpu.a, 0xAB);
    // LDA ($F0,X) with X = $0F
    let mut cpu = machine(&[0xA1, 0xF0]);
    cpu.x = 0x0F;
    cpu.memory.write_u8(0x00FF, 0x34);
    cpu.memory.write_u8(0x0000, 0x12);
    cpu.memory.write_u8(0x1234, 0xCD);
    cpu.step_instruction();
    assert_eq!(cpu.a, 0xCD);
    // LDA $F0,X with X = $20 stays in the zero page
    let mut cpu = machine(&[0xB5, 0xF0]);
    cpu.x = 0x20;
    cpu.memory.write_u8(0x0010, 0xEF);
    cpu.step_instruction();
    assert_eq!(cpu.a, 0xEF);
    // JMP ($12FF) reads its target across the page boundary
    let mut cpu = machine(&[0x6C, 0xFF, 0x12]);
    cpu.memory.write_u8(0x12FF, 0x78);
    cpu.memory.write_u8(0x1300, 0x56);
    cpu.step_instruction();
    assert_eq!(cpu.pc, 0x5678);
}

#[test]
fn stopping_and_waiting() {
    // STP: the step returns its cycles, later steps return 0
    let mut cpu = machine(&[0xDB, 0xEA]);
    assert_eq!(cpu.step_instruction(), 3);
    assert!(!cpu.run);
    let pc = cpu.pc;
    assert_eq!(cpu.step_instruction(), 0);
    assert_eq!(cpu.pc, pc);
    assert_eq!(cpu.run(10), 0);
    // WAI: later steps take one cycle each and execute nothing
    let mut cpu = machine(&[0xCB, 0xEA]);
    assert_eq!(cpu.step_instruction(), 3);
    assert!(cpu.wai);
    assert_eq!(cpu.step_instruction(), 1);
    assert_eq!(cpu.step_instruction(), 1);
    assert_eq!(cpu.pc, 0x0201);
    assert_eq!(cpu.cycle, 5);
    // an undocumented opcode byte takes one cycle
    let mut cpu = machine(&[0x02, 0xEA]);
    assert_eq!(cpu.step_instruction(), 1);
    assert_eq!(cpu.pc, 0x0201);
    assert_eq!(cpu.cycle, 1);
    // run stops at the limit
    let mut cpu = machine(&[0x80, 0xFE]);
    assert_eq!(cpu.run(100), 100);
    assert!(cpu.run);
}

/// A machine with RAM everywhere and a VIA at $9F00.
fn machine_with_via(program: &[u8]) -> Cpu<MappedMemory<Device>> {
    let mut ram = Contiguous::new_ram(0xE000);
    ram.force_write_all(0x0200, program);
    ram.force_write_u8(0x0300, 0xDB);
    let mut rom = Contiguous::new_rom(0x2000);
    rom.force_write_u16(RESET_VECTOR - 0xE000, 0x0200);
    rom.force_write_u16(IRQ_VECTOR - 0xE000, 0x0300);
    rom.force_write_u16(NMI_VECTOR - 0xE000, 0x0400);
    let mut bus = MappedMemory::new();
    bus.add_memory(0x0000, 0xE000, Device::Ram(ram));
    bus.add_memory(0xE000, 0x2000, Device::Rom(rom));
    bus.add_memory(0x9F00, 0x0100, Device::Via(Via::default()));
    Cpu::new(bus)
}

#[test]
fn timer_interrupt_enters_the_handler() {
    // CLI, WAI, NOP
    let mut cpu = machine_with_via(&[0x58, 0xCB, 0xEA]);
    cpu.memory.write_u8(0x9F00 + VIA_IER, 0xC0);
    cpu.memory.write_u8(0x9F00 + VIA_T1CL, 20);
    cpu.memory.write_u8(0x9F00 + VIA_T1CH, 0);
    assert_eq!(cpu.step_instruction(), 2);
    assert_eq!(cpu.step_instruction(), 3);
    assert!(cpu.wai);
    let mut guard = 0;
    while cpu.wai {
        let cycles = cpu.step_instruction();
        assert!(cycles == 1 || !cpu.wai);
        guard += 1;
        assert!(guard < 100);
    }
    // the handler at $0300 holds STP, which the waking step has executed
    assert!(!cpu.wai);
    assert!(!cpu.run);
    assert_eq!(cpu.pc, 0x0301);
    assert_eq!(cpu.s, 0xFA);
    assert!(cpu.p.irqb_disable());
    // the interrupt sequence pushes the status with bit 4 clear
    assert_eq!(cpu.memory.read_u8(0x01FB) & 0x30, 0x20);
    assert_eq!(cpu.memory.read_u16(0x01FC), 0x0202);
}

#[test]
fn masked_interrupt_only_ends_the_wait() {
    // SEI, WAI, LDA #$55, STP
    let mut cpu = machine_with_via(&[0x78, 0xCB, 0xA9, 0x55, 0xDB]);
    cpu.memory.write_u8(0x9F00 + VIA_IER, 0xC0);
    cpu.memory.write_u8(0x9F00 + VIA_T1CL, 10);
    cpu.memory.write_u8(0x9F00 + VIA_T1CH, 0);
    cpu.run(1000);
    assert!(!cpu.run);
    assert_eq!(cpu.a, 0x55);
    assert_eq!(cpu.s, 0xFD);
    assert_eq!(cpu.pc, 0x0205);
}
