use crate::cpu::alu::{
    add_binary, add_decimal, decrement, difference, increment, indexed, page, relative_target,
    shift_left, shift_right, sign, subtract_binary, subtract_decimal, Shifted, Sum,
};
use crate::interrupt::Interrupt;
use crate::memory::{
    high_byte, low_byte, read_word_effect, read_word_value, read_zero_page_word_effect,
    read_zero_page_word_value, word, Memory,
};
use crate::opcode::{decode, AddressingMode, InstructionMeta, Opcode};
use crate::status::Status;
use vstd::prelude::*;

verus! {

/// Where the stack pointer stands after reset.
pub const INITIAL_STACK_POINTER: u8 = 0xFD;

/// Address of the word that holds the handler of the non-maskable interrupt.
pub const NMI_VECTOR: u16 = 0xFFFA;

/// Address of the word that holds the program counter after reset.
pub const RESET_VECTOR: u16 = 0xFFFC;

/// Address of the word that holds the handler of `IRQ` and `BRK`.
pub const IRQ_VECTOR: u16 = 0xFFFE;

/// The machine as the instruction set sees it: the registers of the
/// processor and the state of the bus.
pub struct State<V> {
    pub a: u8,
    pub x: u8,
    pub y: u8,
    pub s: u8,
    pub p: Status,
    pub pc: u16,
    pub run: bool,
    pub wai: bool,
    pub cycle: usize,
    pub memory: V,
}

/// A byte read from the bus, with the machine after the read.
pub struct Fetched<V> {
    pub value: u8,
    pub state: State<V>,
}

/// A word read from the bus, with the machine after the read.
pub struct FetchedWord<V> {
    pub value: u16,
    pub state: State<V>,
}

/// A decoded operand: an address or a value, whether indexing left the page
/// of the base address, and the machine after decoding.
pub struct Operand<T, V> {
    pub value: T,
    pub page_crossed: bool,
    pub state: State<V>,
}

/// The outcome of one instruction: the machine after it and the cycles it
/// took beyond its base count.
pub struct Executed<V> {
    pub state: State<V>,
    pub extra_cycles: u8,
}

/// The outcome of one step: the machine after it and the cycles it took.
pub struct Stepped<V> {
    pub state: State<V>,
    pub cycles: u8,
}

/// The stack address that the stack pointer `s` selects, in page 1.
pub open spec fn stack_address(s: u8) -> u16 {
    (0x0100 + s) as u16
}

/// 1 when a page was crossed, else 0.
pub open spec fn penalty(page_crossed: bool) -> u8 {
    if page_crossed {
        1u8
    } else {
        0u8
    }
}

/// `cycle + cycles` modulo the width of `usize`.
pub open spec fn advance(cycle: usize, cycles: u8) -> usize {
    if cycle + cycles > usize::MAX {
        (cycle + cycles - usize::MAX - 1) as usize
    } else {
        (cycle + cycles) as usize
    }
}

/// `pc + n` modulo 65536, for `n` of at most 65536 in absolute value.
pub open spec fn advance_pc(pc: u16, n: int) -> u16 {
    if pc + n > 0xFFFF {
        (pc + n - 0x10000) as u16
    } else if pc + n < 0 {
        (pc + n + 0x10000) as u16
    } else {
        (pc + n) as u16
    }
}

/// Reads the byte at `address`.
pub open spec fn load<M: Memory>(st: State<M::V>, address: u16) -> Fetched<M::V> {
    Fetched {
        value: M::read_value(st.memory, address),
        state: State { memory: M::read_effect(st.memory, address), ..st },
    }
}

/// Writes `value` to `address`.
pub open spec fn store<M: Memory>(st: State<M::V>, address: u16, value: u8) -> State<M::V> {
    State { memory: M::write_effect(st.memory, address, value), ..st }
}

/// Reads the little-endian word at `address`, the high byte from
/// `address + 1` modulo 65536.
pub open spec fn load_word<M: Memory>(st: State<M::V>, address: u16) -> FetchedWord<M::V> {
    FetchedWord {
        value: read_word_value::<M>(st.memory, address),
        state: State { memory: read_word_effect::<M>(st.memory, address), ..st },
    }
}

/// Reads the little-endian word at the zero page address `address`, the high
/// byte from `address + 1` modulo 256.
pub open spec fn load_zero_page_word<M: Memory>(st: State<M::V>, address: u8) -> FetchedWord<
    M::V,
> {
    FetchedWord {
        value: read_zero_page_word_value::<M>(st.memory, address),
        state: State { memory: read_zero_page_word_effect::<M>(st.memory, address), ..st },
    }
}

/// Reads the byte at the program counter and steps over it.
pub open spec fn fetch<M: Memory>(st: State<M::V>) -> Fetched<M::V> {
    let read = load::<M>(st, st.pc);
    Fetched { value: read.value, state: State { pc: advance_pc(st.pc, 1), ..read.state } }
}

/// Reads the word at the program counter and steps over it.
pub open spec fn fetch_word<M: Memory>(st: State<M::V>) -> FetchedWord<M::V> {
    let read = load_word::<M>(st, st.pc);
    FetchedWord { value: read.value, state: State { pc: advance_pc(st.pc, 2), ..read.state } }
}

/// The modes that name a location in memory.
pub open spec fn has_address(mode: AddressingMode) -> bool {
    mode != AddressingMode::Implied && mode != AddressingMode::Accumulator && mode
        != AddressingMode::Immediate
}

/// The modes from which a value can be read.
pub open spec fn has_value(mode: AddressingMode) -> bool {
    mode != AddressingMode::Implied
}

/// An address reached by adding an index register to a base.
pub open spec fn index_from<V>(base: u16, index: u8, st: State<V>) -> Operand<u16, V> {
    let address = indexed(base, index);
    Operand { value: address, page_crossed: page(base) != page(address), state: st }
}

/// An address reached without indexing a 16-bit base.
pub open spec fn direct<V>(address: u16, st: State<V>) -> Operand<u16, V> {
    Operand { value: address, page_crossed: false, state: st }
}

/// Decodes the operand bytes at the program counter into the effective
/// address of `mode`.
#[verifier::opaque]
pub open spec fn address_operand<M: Memory>(st: State<M::V>, mode: AddressingMode) -> Operand<
    u16,
    M::V,
>
    recommends
        has_address(mode),
{
    match mode {
        AddressingMode::Absolute => {
            let base = fetch_word::<M>(st);
            direct(base.value, base.state)
        },
        AddressingMode::AbsoluteIndexedX => {
            let base = fetch_word::<M>(st);
            index_from(base.value, st.x, base.state)
        },
        AddressingMode::AbsoluteIndexedY => {
            let base = fetch_word::<M>(st);
            index_from(base.value, st.y, base.state)
        },
        AddressingMode::AbsoluteIndirect => {
            let pointer = fetch_word::<M>(st);
            let target = load_word::<M>(pointer.state, pointer.value);
            direct(target.value, target.state)
        },
        AddressingMode::AbsoluteIndexedIndirectX => {
            let pointer = fetch_word::<M>(st);
            let target = load_word::<M>(pointer.state, indexed(pointer.value, st.x));
            direct(target.value, target.state)
        },
        AddressingMode::ProgramCounterRelative => {
            let offset = fetch::<M>(st);
            direct(relative_target(offset.state.pc, offset.value), offset.state)
        },
        AddressingMode::ZeroPage => {
            let byte = fetch::<M>(st);
            direct(byte.value as u16, byte.state)
        },
        AddressingMode::ZeroPageIndexedX => {
            let byte = fetch::<M>(st);
            direct(((byte.value + st.x) % 256) as u16, byte.state)
        },
        AddressingMode::ZeroPageIndexedY => {
            let byte = fetch::<M>(st);
            direct(((byte.value + st.y) % 256) as u16, byte.state)
        },
        AddressingMode::ZeroPageIndirect => {
            let pointer = fetch::<M>(st);
            let target = load_zero_page_word::<M>(pointer.state, pointer.value);
            direct(target.value, target.state)
        },
        AddressingMode::ZeroPageIndexedIndirectX => {
            let pointer = fetch::<M>(st);
            let target = load_zero_page_word::<M>(
                pointer.state,
                ((pointer.value + st.x) % 256) as u8,
            );
            direct(target.value, target.state)
        },
        AddressingMode::ZeroPageIndirectIndexedY => {
            let pointer = fetch::<M>(st);
            let base = load_zero_page_word::<M>(pointer.state, pointer.value);
            index_from(base.value, st.y, base.state)
        },
        _ => direct(0, st),
    }
}

/// Decodes the operand bytes at the program counter into the value that
/// `mode` designates.
#[verifier::opaque]
pub open spec fn value_operand<M: Memory>(st: State<M::V>, mode: AddressingMode) -> Operand<
    u8,
    M::V,
>
    recommends
        has_value(mode),
{
    match mode {
        AddressingMode::Accumulator => Operand { value: st.a, page_crossed: false, state: st },
        AddressingMode::Immediate => {
            let byte = fetch::<M>(st);
            Operand { value: byte.value, page_crossed: false, state: byte.state }
        },
        _ => {
            let place = address_operand::<M>(st, mode);
            let read = load::<M>(place.state, place.value);
            Operand { value: read.value, page_crossed: place.page_crossed, state: read.state }
        },
    }
}

/// The status register with `N` and `Z` taken from `value`.
pub open spec fn with_nz(p: Status, value: u8) -> Status {
    Status { zero: value == 0, negative: sign(value), ..p }
}

pub open spec fn update_nz<V>(st: State<V>, value: u8) -> State<V> {
    State { p: with_nz(st.p, value), ..st }
}

pub open spec fn set_a<V>(st: State<V>, value: u8) -> State<V> {
    State { a: value, p: with_nz(st.p, value), ..st }
}

pub open spec fn set_x<V>(st: State<V>, value: u8) -> State<V> {
    State { x: value, p: with_nz(st.p, value), ..st }
}

pub open spec fn set_y<V>(st: State<V>, value: u8) -> State<V> {
    State { y: value, p: with_nz(st.p, value), ..st }
}

/// Stores `value` at the stack pointer, then moves the pointer down.
pub open spec fn push<M: Memory>(st: State<M::V>, value: u8) -> State<M::V> {
    State { s: decrement(st.s), ..store::<M>(st, stack_address(st.s), value) }
}

/// Moves the stack pointer up, then reads the byte it selects.
pub open spec fn pop<M: Memory>(st: State<M::V>) -> Fetched<M::V> {
    let s = increment(st.s);
    load::<M>(State { s, ..st }, stack_address(s))
}

/// Pushes the program counter, high byte first.
pub open spec fn push_pc<M: Memory>(st: State<M::V>) -> State<M::V> {
    push::<M>(push::<M>(st, high_byte(st.pc)), low_byte(st.pc))
}

/// Pops the program counter, low byte first.
pub open spec fn pop_pc<M: Memory>(st: State<M::V>) -> State<M::V> {
    let low = pop::<M>(st);
    let high = pop::<M>(low.state);
    State { pc: word(low.value, high.value), ..high.state }
}

/// The byte that stands for `p` on the stack: bit 5 set, bit 4 as `brk`.
pub open spec fn pushed_status(p: Status, brk: bool) -> u8 {
    (Status { brk_command: brk, unused: true, ..p }).bits()
}

/// Pushes the status register with bit 5 set and bit 4 as `brk`.
pub open spec fn push_status<M: Memory>(st: State<M::V>, brk: bool) -> State<M::V> {
    push::<M>(st, pushed_status(st.p, brk))
}

/// Pops the status register; bits 4 and 5 of the live register are set
/// whatever the stack held.
pub open spec fn pop_status<M: Memory>(st: State<M::V>) -> State<M::V> {
    let read = pop::<M>(st);
    State { p: Status::unpack(read.value).with_fixed_bits(), ..read.state }
}

/// The accumulator and flags after an addition or subtraction.
pub open spec fn with_sum<V>(st: State<V>, sum: Sum) -> State<V> {
    State {
        a: sum.value,
        p: Status { carry: sum.carry, overflow: sum.overflow, ..with_nz(st.p, sum.value) },
        ..st
    }
}

pub open spec fn do_addition<V>(st: State<V>, m: u8) -> State<V> {
    with_sum(st, add_binary(st.a, m, st.p.carry))
}

pub open spec fn do_addition_decimal<V>(st: State<V>, m: u8) -> State<V> {
    with_sum(st, add_decimal(st.a, m, st.p.carry))
}

pub open spec fn do_subtraction<V>(st: State<V>, m: u8) -> State<V> {
    with_sum(st, subtract_binary(st.a, m, st.p.carry))
}

pub open spec fn do_subtraction_decimal<V>(st: State<V>, m: u8) -> State<V> {
    with_sum(st, subtract_decimal(st.a, m, st.p.carry))
}

/// `ADC` and `SBC`: the operand is read, then added to or subtracted from
/// the accumulator, in decimal mode at the cost of one more cycle.
#[verifier::opaque]
pub open spec fn arithmetic<M: Memory>(
    st: State<M::V>,
    mode: AddressingMode,
    subtract: bool,
) -> Executed<M::V> {
    let operand = value_operand::<M>(st, mode);
    let st1 = operand.state;
    let m = operand.value;
    if st1.p.decimal_mode {
        Executed {
            state: if subtract {
                do_subtraction_decimal(st1, m)
            } else {
                do_addition_decimal(st1, m)
            },
            extra_cycles: (penalty(operand.page_crossed) + 1) as u8,
        }
    } else {
        Executed {
            state: if subtract {
                do_subtraction(st1, m)
            } else {
                do_addition(st1, m)
            },
            extra_cycles: penalty(operand.page_crossed),
        }
    }
}

/// The three bitwise operations of the accumulator with memory.
#[derive(Debug, Copy, Clone, PartialEq, Eq, Structural)]
pub enum Logic {
    And,
    Or,
    ExclusiveOr,
}

pub open spec fn combine(op: Logic, a: u8, m: u8) -> u8 {
    match op {
        Logic::And => a & m,
        Logic::Or => a | m,
        Logic::ExclusiveOr => a ^ m,
    }
}

/// `AND`, `ORA` and `EOR`.
#[verifier::opaque]
pub open spec fn logic<M: Memory>(st: State<M::V>, mode: AddressingMode, op: Logic) -> Executed<
    M::V,
> {
    let operand = value_operand::<M>(st, mode);
    Executed {
        state: set_a(operand.state, combine(op, operand.state.a, operand.value)),
        extra_cycles: penalty(operand.page_crossed),
    }
}

/// The four shifts and rotates.
#[derive(Debug, Copy, Clone, PartialEq, Eq, Structural)]
pub enum Shift {
    Asl,
    Lsr,
    Rol,
    Ror,
}

pub open spec fn shift_byte(kind: Shift, m: u8, carry: bool) -> Shifted {
    match kind {
        Shift::Asl => shift_left(m, false),
        Shift::Lsr => shift_right(m, false),
        Shift::Rol => shift_left(m, carry),
        Shift::Ror => shift_right(m, carry),
    }
}

/// `ASL`, `LSR`, `ROL` and `ROR`, on the accumulator or on a byte in memory.
#[verifier::opaque]
pub open spec fn shift<M: Memory>(st: State<M::V>, mode: AddressingMode, kind: Shift) -> Executed<
    M::V,
> {
    if mode == AddressingMode::Accumulator {
        let shifted = shift_byte(kind, st.a, st.p.carry);
        let st1 = set_a(st, shifted.value);
        Executed {
            state: State { p: Status { carry: shifted.carry, ..st1.p }, ..st1 },
            extra_cycles: 0,
        }
    } else {
        let place = address_operand::<M>(st, mode);
        let read = load::<M>(place.state, place.value);
        let shifted = shift_byte(kind, read.value, read.state.p.carry);
        let st1 = update_nz(store::<M>(read.state, place.value, shifted.value), shifted.value);
        Executed {
            state: State { p: Status { carry: shifted.carry, ..st1.p }, ..st1 },
            extra_cycles: penalty(place.page_crossed),
        }
    }
}

/// `INC` and `DEC`, on the accumulator or on a byte in memory. Indexing an
/// absolute address by X costs nothing more when it leaves the page.
#[verifier::opaque]
pub open spec fn step_value<M: Memory>(
    st: State<M::V>,
    mode: AddressingMode,
    up: bool,
) -> Executed<M::V> {
    if mode == AddressingMode::Accumulator {
        Executed {
            state: set_a(
                st,
                if up {
                    increment(st.a)
                } else {
                    decrement(st.a)
                },
            ),
            extra_cycles: 0,
        }
    } else {
        let place = address_operand::<M>(st, mode);
        let read = load::<M>(place.state, place.value);
        let value = if up {
            increment(read.value)
        } else {
            decrement(read.value)
        };
        Executed {
            state: update_nz(store::<M>(read.state, place.value, value), value),
            extra_cycles: penalty(
                place.page_crossed && mode != AddressingMode::AbsoluteIndexedX,
            ),
        }
    }
}

/// A relative branch: the offset is read in any case; when `condition`
/// holds the program counter moves to the target, at the cost of one cycle,
/// or two where the target lies in another page.
#[verifier::opaque]
pub open spec fn branch<M: Memory>(st: State<M::V>, condition: bool) -> Executed<M::V> {
    let target = address_operand::<M>(st, AddressingMode::ProgramCounterRelative);
    if condition {
        Executed {
            state: State { pc: target.value, ..target.state },
            extra_cycles: if page(target.state.pc) != page(target.value) {
                2
            } else {
                1
            },
        }
    } else {
        Executed { state: target.state, extra_cycles: 0 }
    }
}

/// Whether bit `bit` of `m` is set.
pub open spec fn test_bit(m: u8, bit: u8) -> bool {
    ((m >> bit) & 0b1) != 0
}

/// `BBRn` and `BBSn`: reads a zero page byte, then branches when its bit
/// `bit` equals `branch_if_set`.
#[verifier::opaque]
pub open spec fn bit_branch<M: Memory>(st: State<M::V>, bit: u8, branch_if_set: bool) -> Executed<
    M::V,
> {
    let operand = value_operand::<M>(st, AddressingMode::ZeroPage);
    branch::<M>(operand.state, test_bit(operand.value, bit) == branch_if_set)
}

/// `RMBn` and `SMBn`: clears or sets bit `bit` of a zero page byte.
#[verifier::opaque]
pub open spec fn modify_bit<M: Memory>(st: State<M::V>, bit: u8, set: bool) -> State<M::V> {
    let place = address_operand::<M>(st, AddressingMode::ZeroPage);
    let read = load::<M>(place.state, place.value);
    store::<M>(
        read.state,
        place.value,
        if set {
            read.value | (1u8 << bit)
        } else {
            read.value & !(1u8 << bit)
        },
    )
}

/// `CMP`, `CPX` and `CPY`: `N` and `Z` from `register - m` modulo 256, the
/// carry set when `register >= m`.
#[verifier::opaque]
pub open spec fn compare<M: Memory>(
    st: State<M::V>,
    register: u8,
    mode: AddressingMode,
) -> Executed<M::V> {
    let operand = value_operand::<M>(st, mode);
    let st1 = update_nz(operand.state, difference(register, operand.value));
    Executed {
        state: State { p: Status { carry: register >= operand.value, ..st1.p }, ..st1 },
        extra_cycles: penalty(operand.page_crossed),
    }
}

/// The flags after `BIT`: `Z` from `a & m`; unless `immediate`, `N` and `V`
/// from bits 7 and 6 of `m`.
pub open spec fn with_bit_test(p: Status, a: u8, m: u8, immediate: bool) -> Status {
    if immediate {
        Status { zero: (a & m) == 0, ..p }
    } else {
        Status { zero: (a & m) == 0, negative: sign(m), overflow: (m & 0x40) != 0, ..p }
    }
}

/// `BIT`: `Z` from `A & m`; outside immediate mode, `N` and `V` from bits 7
/// and 6 of `m`.
#[verifier::opaque]
pub open spec fn bit_test<M: Memory>(st: State<M::V>, mode: AddressingMode) -> Executed<M::V> {
    let operand = value_operand::<M>(st, mode);
    let st1 = operand.state;
    Executed {
        state: State {
            p: with_bit_test(st1.p, st1.a, operand.value, mode == AddressingMode::Immediate),
            ..st1
        },
        extra_cycles: penalty(operand.page_crossed),
    }
}

/// `TRB` and `TSB`: `Z` from `A & m`; the bits of `A` are cleared or set in
/// the byte in memory.
#[verifier::opaque]
pub open spec fn test_and_modify<M: Memory>(
    st: State<M::V>,
    mode: AddressingMode,
    set: bool,
) -> Executed<M::V> {
    let place = address_operand::<M>(st, mode);
    let read = load::<M>(place.state, place.value);
    let a = read.state.a;
    let m = read.value;
    let st1 = store::<M>(
        read.state,
        place.value,
        if set {
            m | a
        } else {
            m & !a
        },
    );
    Executed {
        state: State { p: Status { zero: (m & a) == 0, ..st1.p }, ..st1 },
        extra_cycles: penalty(place.page_crossed),
    }
}

/// The three registers that loads, pulls and compares address.
#[derive(Debug, Copy, Clone, PartialEq, Eq, Structural)]
pub enum Register {
    A,
    X,
    Y,
}

pub open spec fn set_register<V>(st: State<V>, register: Register, value: u8) -> State<V> {
    match register {
        Register::A => set_a(st, value),
        Register::X => set_x(st, value),
        Register::Y => set_y(st, value),
    }
}

/// `LDA`, `LDX` and `LDY`.
#[verifier::opaque]
pub open spec fn load_register<M: Memory>(
    st: State<M::V>,
    mode: AddressingMode,
    register: Register,
) -> Executed<M::V> {
    let operand = value_operand::<M>(st, mode);
    Executed {
        state: set_register(operand.state, register, operand.value),
        extra_cycles: penalty(operand.page_crossed),
    }
}

/// `STA`, `STX`, `STY` and `STZ`: a page crossing costs nothing more.
#[verifier::opaque]
pub open spec fn store_value<M: Memory>(
    st: State<M::V>,
    mode: AddressingMode,
    value: u8,
) -> Executed<M::V> {
    let place = address_operand::<M>(st, mode);
    Executed { state: store::<M>(place.state, place.value, value), extra_cycles: 0 }
}

/// `PLA`, `PLX` and `PLY`.
#[verifier::opaque]
pub open spec fn pull_register<M: Memory>(st: State<M::V>, register: Register) -> State<M::V> {
    let read = pop::<M>(st);
    set_register(read.state, register, read.value)
}

/// Entry into a handler: the program counter and the status register go to
/// the stack, interrupts are masked, decimal mode is left, and the program
/// counter is loaded from `vector`.
#[verifier::opaque]
pub open spec fn enter_handler<M: Memory>(st: State<M::V>, brk: bool, vector: u16) -> State<
    M::V,
> {
    let st1 = push_status::<M>(push_pc::<M>(st), brk);
    let st2 = State { p: Status { irqb_disable: true, decimal_mode: false, ..st1.p }, ..st1 };
    let target = load_word::<M>(st2, vector);
    State { pc: target.value, ..target.state }
}

/// `JSR`: the address of the last byte of the instruction goes to the stack.
#[verifier::opaque]
pub open spec fn jump_subroutine<M: Memory>(st: State<M::V>, mode: AddressingMode) -> State<M::V> {
    let target = address_operand::<M>(st, mode);
    let st1 = target.state;
    let st2 = push_pc::<M>(State { pc: advance_pc(st1.pc, -1), ..st1 });
    State { pc: target.value, ..st2 }
}

/// `RTS`: execution resumes behind the byte whose address was on the stack.
#[verifier::opaque]
pub open spec fn return_subroutine<M: Memory>(st: State<M::V>) -> State<M::V> {
    let st1 = pop_pc::<M>(st);
    State { pc: advance_pc(st1.pc, 1), ..st1 }
}

/// The number in the name of a bit instruction (`BBR3` has 3).
pub open spec fn bit_index(opcode: Opcode) -> u8 {
    match opcode {
        Opcode::BBR0 | Opcode::BBS0 | Opcode::RMB0 | Opcode::SMB0 => 0,
        Opcode::BBR1 | Opcode::BBS1 | Opcode::RMB1 | Opcode::SMB1 => 1,
        Opcode::BBR2 | Opcode::BBS2 | Opcode::RMB2 | Opcode::SMB2 => 2,
        Opcode::BBR3 | Opcode::BBS3 | Opcode::RMB3 | Opcode::SMB3 => 3,
        Opcode::BBR4 | Opcode::BBS4 | Opcode::RMB4 | Opcode::SMB4 => 4,
        Opcode::BBR5 | Opcode::BBS5 | Opcode::RMB5 | Opcode::SMB5 => 5,
        Opcode::BBR6 | Opcode::BBS6 | Opcode::RMB6 | Opcode::SMB6 => 6,
        _ => 7,
    }
}

/// Whether the instruction set offers `opcode` an operand of mode `mode`:
/// an instruction that reads a value takes any mode with a value, one that
/// writes takes a mode with an address, a branch takes a relative offset,
/// a bit instruction a zero page address, `BRK` its signature byte, and the
/// rest take none.
pub open spec fn operand_fits(opcode: Opcode, mode: AddressingMode) -> bool {
    match opcode {
        Opcode::ADC
        | Opcode::SBC
        | Opcode::AND
        | Opcode::ORA
        | Opcode::EOR
        | Opcode::BIT
        | Opcode::CMP
        | Opcode::CPX
        | Opcode::CPY
        | Opcode::LDA
        | Opcode::LDX
        | Opcode::LDY => has_value(mode),
        Opcode::ASL | Opcode::LSR | Opcode::ROL | Opcode::ROR | Opcode::INC | Opcode::DEC => mode
            == AddressingMode::Accumulator || has_address(mode),
        Opcode::JMP
        | Opcode::JSR
        | Opcode::STA
        | Opcode::STX
        | Opcode::STY
        | Opcode::STZ
        | Opcode::TRB
        | Opcode::TSB => has_address(mode),
        Opcode::BCC
        | Opcode::BCS
        | Opcode::BEQ
        | Opcode::BNE
        | Opcode::BMI
        | Opcode::BPL
        | Opcode::BVC
        | Opcode::BVS
        | Opcode::BRA => mode == AddressingMode::ProgramCounterRelative,
        Opcode::BRK => mode == AddressingMode::Immediate,
        _ => if is_bit_branch(opcode) || is_bit_modify(opcode) {
            mode == AddressingMode::ZeroPage
        } else {
            mode == AddressingMode::Implied
        },
    }
}

/// Whether `meta` can be executed: its operand modes fit its mnemonic and
/// its base cycle count leaves room for the penalties. Only the bit
/// branches have a second operand, the branch offset.
pub open spec fn executable(meta: InstructionMeta) -> bool {
    &&& operand_fits(meta.opcode, meta.parameter_1)
    &&& meta.parameter_2 == if is_bit_branch(meta.opcode) {
        AddressingMode::ProgramCounterRelative
    } else {
        AddressingMode::Implied
    }
    &&& meta.cycles <= 7
}

/// Every row of the catalogue can be executed.
pub proof fn lemma_catalogue_executable(byte: u8)
    ensures
        decode(byte) matches Some(meta) ==> executable(meta) && meta.byte == byte,
{
}

/// The arithmetic, logic, shift, compare and increment instructions.
pub open spec fn is_alu(opcode: Opcode) -> bool {
    match opcode {
        Opcode::ADC
        | Opcode::SBC
        | Opcode::AND
        | Opcode::ORA
        | Opcode::EOR
        | Opcode::ASL
        | Opcode::LSR
        | Opcode::ROL
        | Opcode::ROR
        | Opcode::BIT
        | Opcode::CMP
        | Opcode::CPX
        | Opcode::CPY
        | Opcode::DEC
        | Opcode::INC
        | Opcode::TRB
        | Opcode::TSB
        | Opcode::DEX
        | Opcode::DEY
        | Opcode::INX
        | Opcode::INY => true,
        _ => false,
    }
}

/// The branches, jumps, returns and the instructions that halt or wait.
pub open spec fn is_flow(opcode: Opcode) -> bool {
    match opcode {
        Opcode::BCC
        | Opcode::BCS
        | Opcode::BEQ
        | Opcode::BNE
        | Opcode::BMI
        | Opcode::BPL
        | Opcode::BVC
        | Opcode::BVS
        | Opcode::BRA
        | Opcode::BRK
        | Opcode::JMP
        | Opcode::JSR
        | Opcode::RTI
        | Opcode::RTS
        | Opcode::STP
        | Opcode::WAI
        | Opcode::NOP => true,
        _ => false,
    }
}

/// The `BBRn` and `BBSn` instructions.
pub open spec fn is_bit_branch(opcode: Opcode) -> bool {
    match opcode {
        Opcode::BBR0
        | Opcode::BBR1
        | Opcode::BBR2
        | Opcode::BBR3
        | Opcode::BBR4
        | Opcode::BBR5
        | Opcode::BBR6
        | Opcode::BBR7
        | Opcode::BBS0
        | Opcode::BBS1
        | Opcode::BBS2
        | Opcode::BBS3
        | Opcode::BBS4
        | Opcode::BBS5
        | Opcode::BBS6
        | Opcode::BBS7 => true,
        _ => false,
    }
}

/// The `RMBn` and `SMBn` instructions.
pub open spec fn is_bit_modify(opcode: Opcode) -> bool {
    match opcode {
        Opcode::RMB0
        | Opcode::RMB1
        | Opcode::RMB2
        | Opcode::RMB3
        | Opcode::RMB4
        | Opcode::RMB5
        | Opcode::RMB6
        | Opcode::RMB7
        | Opcode::SMB0
        | Opcode::SMB1
        | Opcode::SMB2
        | Opcode::SMB3
        | Opcode::SMB4
        | Opcode::SMB5
        | Opcode::SMB6
        | Opcode::SMB7 => true,
        _ => false,
    }
}

/// The loads, stores, transfers and stack instructions.
pub open spec fn is_transfer(opcode: Opcode) -> bool {
    match opcode {
        Opcode::LDA
        | Opcode::LDX
        | Opcode::LDY
        | Opcode::STA
        | Opcode::STX
        | Opcode::STY
        | Opcode::STZ
        | Opcode::TAX
        | Opcode::TAY
        | Opcode::TSX
        | Opcode::TXA
        | Opcode::TXS
        | Opcode::TYA
        | Opcode::PHA
        | Opcode::PHP
        | Opcode::PHX
        | Opcode::PHY
        | Opcode::PLA
        | Opcode::PLP
        | Opcode::PLX
        | Opcode::PLY => true,
        _ => false,
    }
}

/// The instructions that set or clear one flag.
pub open spec fn is_flags(opcode: Opcode) -> bool {
    match opcode {
        Opcode::CLC
        | Opcode::CLD
        | Opcode::CLI
        | Opcode::CLV
        | Opcode::SEC
        | Opcode::SED
        | Opcode::SEI => true,
        _ => false,
    }
}

/// An instruction that changes registers only and takes its base cycles.
pub open spec fn plain<V>(st: State<V>) -> Executed<V> {
    Executed { state: st, extra_cycles: 0 }
}

/// The effect of the instruction `meta`, the program counter standing behind
/// its opcode byte.
#[verifier::opaque]
pub open spec fn execute<M: Memory>(st: State<M::V>, meta: InstructionMeta) -> Executed<M::V> {
    let mode = meta.parameter_1;
    match meta.opcode {
        Opcode::ADC => arithmetic::<M>(st, mode, false),
        Opcode::SBC => arithmetic::<M>(st, mode, true),
        Opcode::AND => logic::<M>(st, mode, Logic::And),
        Opcode::ORA => logic::<M>(st, mode, Logic::Or),
        Opcode::EOR => logic::<M>(st, mode, Logic::ExclusiveOr),
        Opcode::ASL => shift::<M>(st, mode, Shift::Asl),
        Opcode::LSR => shift::<M>(st, mode, Shift::Lsr),
        Opcode::ROL => shift::<M>(st, mode, Shift::Rol),
        Opcode::ROR => shift::<M>(st, mode, Shift::Ror),
        Opcode::BBR0
        | Opcode::BBR1
        | Opcode::BBR2
        | Opcode::BBR3
        | Opcode::BBR4
        | Opcode::BBR5
        | Opcode::BBR6
        | Opcode::BBR7 => bit_branch::<M>(st, bit_index(meta.opcode), false),
        Opcode::BBS0
        | Opcode::BBS1
        | Opcode::BBS2
        | Opcode::BBS3
        | Opcode::BBS4
        | Opcode::BBS5
        | Opcode::BBS6
        | Opcode::BBS7 => bit_branch::<M>(st, bit_index(meta.opcode), true),
        Opcode::BCC => branch::<M>(st, !st.p.carry),
        Opcode::BCS => branch::<M>(st, st.p.carry),
        Opcode::BEQ => branch::<M>(st, st.p.zero),
        Opcode::BNE => branch::<M>(st, !st.p.zero),
        Opcode::BMI => branch::<M>(st, st.p.negative),
        Opcode::BPL => branch::<M>(st, !st.p.negative),
        Opcode::BVC => branch::<M>(st, !st.p.overflow),
        Opcode::BVS => branch::<M>(st, st.p.overflow),
        Opcode::BRA => branch::<M>(st, true),
        Opcode::BIT => bit_test::<M>(st, mode),
        Opcode::BRK => plain(
            enter_handler::<M>(State { pc: advance_pc(st.pc, 1), ..st }, true, IRQ_VECTOR),
        ),
        Opcode::CLC => plain(State { p: Status { carry: false, ..st.p }, ..st }),
        Opcode::CLD => plain(State { p: Status { decimal_mode: false, ..st.p }, ..st }),
        Opcode::CLI => plain(State { p: Status { irqb_disable: false, ..st.p }, ..st }),
        Opcode::CLV => plain(State { p: Status { overflow: false, ..st.p }, ..st }),
        Opcode::SEC => plain(State { p: Status { carry: true, ..st.p }, ..st }),
        Opcode::SED => plain(State { p: Status { decimal_mode: true, ..st.p }, ..st }),
        Opcode::SEI => plain(State { p: Status { irqb_disable: true, ..st.p }, ..st }),
        Opcode::CMP => compare::<M>(st, st.a, mode),
        Opcode::CPX => compare::<M>(st, st.x, mode),
        Opcode::CPY => compare::<M>(st, st.y, mode),
        Opcode::DEC => step_value::<M>(st, mode, false),
        Opcode::INC => step_value::<M>(st, mode, true),
        Opcode::DEX => plain(set_x(st, decrement(st.x))),
        Opcode::DEY => plain(set_y(st, decrement(st.y))),
        Opcode::INX => plain(set_x(st, increment(st.x))),
        Opcode::INY => plain(set_y(st, increment(st.y))),
        Opcode::JMP => {
            let target = address_operand::<M>(st, mode);
            Executed {
                state: State { pc: target.value, ..target.state },
                extra_cycles: penalty(target.page_crossed),
            }
        },
        Opcode::JSR => plain(jump_subroutine::<M>(st, mode)),
        Opcode::LDA => load_register::<M>(st, mode, Register::A),
        Opcode::LDX => load_register::<M>(st, mode, Register::X),
        Opcode::LDY => load_register::<M>(st, mode, Register::Y),
        Opcode::NOP => plain(st),
        Opcode::PHA => plain(push::<M>(st, st.a)),
        Opcode::PHX => plain(push::<M>(st, st.x)),
        Opcode::PHY => plain(push::<M>(st, st.y)),
        Opcode::PHP => plain(push_status::<M>(st, true)),
        Opcode::PLA => plain(pull_register::<M>(st, Register::A)),
        Opcode::PLX => plain(pull_register::<M>(st, Register::X)),
        Opcode::PLY => plain(pull_register::<M>(st, Register::Y)),
        Opcode::PLP => plain(pop_status::<M>(st)),
        Opcode::RMB0
        | Opcode::RMB1
        | Opcode::RMB2
        | Opcode::RMB3
        | Opcode::RMB4
        | Opcode::RMB5
        | Opcode::RMB6
        | Opcode::RMB7 => plain(modify_bit::<M>(st, bit_index(meta.opcode), false)),
        Opcode::SMB0
        | Opcode::SMB1
        | Opcode::SMB2
        | Opcode::SMB3
        | Opcode::SMB4
        | Opcode::SMB5
        | Opcode::SMB6
        | Opcode::SMB7 => plain(modify_bit::<M>(st, bit_index(meta.opcode), true)),
        Opcode::RTI => plain(pop_pc::<M>(pop_status::<M>(st))),
        Opcode::RTS => plain(return_subroutine::<M>(st)),
        Opcode::STA => store_value::<M>(st, mode, st.a),
        Opcode::STX => store_value::<M>(st, mode, st.x),
        Opcode::STY => store_value::<M>(st, mode, st.y),
        Opcode::STZ => store_value::<M>(st, mode, 0),
        Opcode::STP => plain(State { run: false, ..st }),
        Opcode::TAX => plain(set_x(st, st.a)),
        Opcode::TAY => plain(set_y(st, st.a)),
        Opcode::TSX => plain(set_x(st, st.s)),
        Opcode::TXA => plain(set_a(st, st.x)),
        Opcode::TXS => plain(State { s: st.x, ..st }),
        Opcode::TYA => plain(set_a(st, st.y)),
        Opcode::TRB => test_and_modify::<M>(st, mode, false),
        Opcode::TSB => test_and_modify::<M>(st, mode, true),
        Opcode::WAI => plain(State { wai: true, ..st }),
    }
}

/// The machine after the bus clock ran at the current cycle.
pub open spec fn tick<M: Memory>(st: State<M::V>) -> State<M::V> {
    State { memory: M::update_effect(st.memory, st.cycle), ..st }
}

/// How the processor answers the interrupt lines: any raised line ends a
/// wait; `nmi` is always served, `irq` only while `I` is clear.
#[verifier::opaque]
pub open spec fn service<M: Memory>(st: State<M::V>, signal: Interrupt) -> State<M::V> {
    if signal.nmi {
        enter_handler::<M>(State { wai: false, ..st }, false, NMI_VECTOR)
    } else if signal.irq {
        if st.p.irqb_disable {
            State { wai: false, ..st }
        } else {
            enter_handler::<M>(State { wai: false, ..st }, false, IRQ_VECTOR)
        }
    } else {
        st
    }
}

/// Fetches and executes the instruction at the program counter. An
/// undocumented opcode byte is stepped over in one cycle.
#[verifier::opaque]
pub open spec fn run_instruction<M: Memory>(st: State<M::V>) -> Stepped<M::V> {
    let opcode = fetch::<M>(st);
    match decode(opcode.value) {
        Some(meta) => {
            let done = execute::<M>(opcode.state, meta);
            let cycles = (meta.cycles + done.extra_cycles) as u8;
            Stepped {
                state: State { cycle: advance(done.state.cycle, cycles), ..done.state },
                cycles,
            }
        },
        None => Stepped {
            state: State { cycle: advance(opcode.state.cycle, 1), ..opcode.state },
            cycles: 1,
        },
    }
}

/// One step of the processor. A stopped processor does nothing. Otherwise
/// the bus clock runs at the current cycle, the interrupt lines are served,
/// and then either one cycle passes waiting or one instruction is executed.
#[verifier::opaque]
pub open spec fn step<M: Memory>(st: State<M::V>) -> Stepped<M::V> {
    if !st.run {
        Stepped { state: st, cycles: 0 }
    } else {
        let ready = service::<M>(tick::<M>(st), M::update_signal(st.memory, st.cycle));
        if ready.wai {
            Stepped { state: State { cycle: advance(ready.cycle, 1), ..ready }, cycles: 1 }
        } else {
            run_instruction::<M>(ready)
        }
    }
}

/// The machine after reset, over the bus state `memory`.
pub open spec fn reset<M: Memory>(memory: M::V) -> State<M::V> {
    State {
        a: 0,
        x: 0,
        y: 0,
        s: INITIAL_STACK_POINTER,
        p: Status::initial(),
        pc: read_word_value::<M>(memory, RESET_VECTOR),
        run: true,
        wai: false,
        cycle: 0,
        memory: read_word_effect::<M>(memory, RESET_VECTOR),
    }
}

/// The machine after `steps` steps.
pub open spec fn run_steps<M: Memory>(st: State<M::V>, steps: nat) -> State<M::V>
    decreases steps,
{
    if steps == 0 {
        st
    } else {
        step::<M>(run_steps::<M>(st, (steps - 1) as nat)).state
    }
}

} // verus!
