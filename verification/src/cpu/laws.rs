use crate::cpu::alu::{add_binary, carry_in, difference, sign, signed, subtract_binary};
use crate::cpu::semantics::{
    address_operand, advance_pc, arithmetic, bit_branch, bit_test, branch, compare,
    enter_handler, executable, execute, fetch, fetch_word, has_address, has_value, is_alu,
    is_bit_branch, is_bit_modify, is_flags, is_flow, is_transfer, jump_subroutine, load,
    load_register, logic, modify_bit, pop, pop_status, pull_register, push, push_status,
    pushed_status, return_subroutine, run_instruction, service, shift, stack_address, step,
    step_value, store_value, test_and_modify, tick, value_operand, Register, State,
};
use crate::memory::Memory;
use crate::opcode::{decode, AddressingMode, InstructionMeta, Opcode};
use crate::status::{lemma_pack_bits, Status};
use vstd::prelude::*;

verus! {

/// Reading the bus changes nothing, as with plain memory.
pub open spec fn reads_are_silent<M: Memory>() -> bool {
    forall|m: M::V, address: u16| #[trigger] M::read_effect(m, address) == m
}

/// `s + delta` modulo 256.
pub open spec fn move_stack(s: u8, delta: int) -> u8
    recommends
        -256 <= delta <= 256,
{
    if s + delta > 0xFF {
        (s + delta - 0x100) as u8
    } else if s + delta < 0 {
        (s + delta + 0x100) as u8
    } else {
        (s + delta) as u8
    }
}

/// What an instruction adds to the stack pointer: the bytes it pops less
/// the bytes it pushes. `TXS` is not listed: it loads the pointer from X.
pub open spec fn stack_effect(opcode: Opcode) -> int {
    match opcode {
        Opcode::PHA | Opcode::PHX | Opcode::PHY | Opcode::PHP => -1,
        Opcode::PLA | Opcode::PLX | Opcode::PLY | Opcode::PLP => 1,
        Opcode::JSR => -2,
        Opcode::RTS => 2,
        Opcode::BRK => -3,
        Opcode::RTI => 3,
        _ => 0,
    }
}

/// The instructions that load the program counter with something else than
/// the address of the next instruction.
pub open spec fn alters_flow(opcode: Opcode) -> bool {
    is_bit_branch(opcode) || match opcode {
        Opcode::BCC
        | Opcode::BCS
        | Opcode::BEQ
        | Opcode::BNE
        | Opcode::BMI
        | Opcode::BPL
        | Opcode::BVC
        | Opcode::BVS
        | Opcode::BRA
        | Opcode::BRK
        | Opcode::JMP
        | Opcode::JSR
        | Opcode::RTI
        | Opcode::RTS => true,
        _ => false,
    }
}

/// Whether an instruction writes to the bus: stores, pushes, and the
/// instructions that modify a byte in place.
pub open spec fn writes_memory(opcode: Opcode, mode: AddressingMode) -> bool {
    is_bit_modify(opcode) || match opcode {
        Opcode::STA
        | Opcode::STX
        | Opcode::STY
        | Opcode::STZ
        | Opcode::PHA
        | Opcode::PHX
        | Opcode::PHY
        | Opcode::PHP
        | Opcode::JSR
        | Opcode::BRK
        | Opcode::TRB
        | Opcode::TSB => true,
        Opcode::ASL | Opcode::LSR | Opcode::ROL | Opcode::ROR | Opcode::INC | Opcode::DEC => mode
            != AddressingMode::Accumulator,
        _ => false,
    }
}

/// What decoding an operand leaves alone: everything but the program
/// counter, which advances by `width`, and the bus, which has been read.
pub open spec fn only_fetched<V>(before: State<V>, after: State<V>, width: int) -> bool {
    after == (State { pc: advance_pc(before.pc, width), memory: after.memory, ..before })
}

/// Decoding an address consumes as many bytes as the mode is wide, and only
/// reads.
pub proof fn lemma_address_operand_frame<M: Memory>(st: State<M::V>, mode: AddressingMode)
    requires
        has_address(mode),
    ensures
        only_fetched(st, address_operand::<M>(st, mode).state, mode.spec_width() as int),
        reads_are_silent::<M>() ==> address_operand::<M>(st, mode).state.memory == st.memory,
{
    reveal(address_operand);
    let after = address_operand::<M>(st, mode).state;
    match mode {
        AddressingMode::Absolute
        | AddressingMode::AbsoluteIndexedX
        | AddressingMode::AbsoluteIndexedY
        | AddressingMode::AbsoluteIndirect
        | AddressingMode::AbsoluteIndexedIndirectX => {
            assert(after.pc == fetch_word::<M>(st).state.pc);
        },
        _ => {
            assert(after.pc == fetch::<M>(st).state.pc);
        },
    }
}

/// Decoding a value consumes as many bytes as the mode is wide, and only
/// reads.
pub proof fn lemma_value_operand_frame<M: Memory>(st: State<M::V>, mode: AddressingMode)
    requires
        has_value(mode),
    ensures
        only_fetched(st, value_operand::<M>(st, mode).state, mode.spec_width() as int),
        reads_are_silent::<M>() ==> value_operand::<M>(st, mode).state.memory == st.memory,
{
    reveal(value_operand);
    if has_address(mode) {
        lemma_address_operand_frame::<M>(st, mode);
    }
}

/// In binary mode the adder yields `A + M + C` modulo 256 and carries when
/// the sum does not fit a byte; the overflow flag is set exactly when the
/// sum of the operands, read as signed bytes, does not fit a signed byte.
pub proof fn lemma_add_binary(a: u8, m: u8, carry: bool)
    ensures
        add_binary(a, m, carry).value == (a + m + carry_in(carry)) % 256,
        add_binary(a, m, carry).carry == (a + m + carry_in(carry) >= 256),
        add_binary(a, m, carry).overflow == !(-128 <= signed(a) + signed(m) + carry_in(carry)
            <= 127),
{
    let r = add_binary(a, m, carry).value;
    assert((((a ^ r) & (m ^ r) & 0x80) != 0) == ((a >= 0x80) != (r >= 0x80) && (m >= 0x80) != (r
        >= 0x80))) by (bit_vector);
}

/// In binary mode subtraction is the addition of the complement: it yields
/// `A - M - (1 - C)` modulo 256, with the carry set when no borrow occurs.
pub proof fn lemma_subtract_binary(a: u8, m: u8, carry: bool)
    ensures
        subtract_binary(a, m, carry) == add_binary(a, !m, carry),
        subtract_binary(a, m, carry).value == (a - m - carry_in(!carry)) % 256,
        subtract_binary(a, m, carry).carry == (a - m - carry_in(!carry) >= 0),
        subtract_binary(a, m, carry).overflow == !(-128 <= signed(a) - signed(m) - carry_in(
            !carry,
        ) <= 127),
{
    assert(!m == 255 - m) by (bit_vector);
    lemma_add_binary(a, !m, carry);
}

/// A comparison sets the carry when `register >= m`, `Z` when they are
/// equal, and `N` to bit 7 of their difference modulo 256; it leaves the
/// other flags and the registers alone.
pub proof fn lemma_compare_flags<M: Memory>(st: State<M::V>, register: u8, mode: AddressingMode)
    requires
        has_value(mode),
    ensures
        ({
            let m = value_operand::<M>(st, mode).value;
            let after = compare::<M>(st, register, mode).state;
            &&& after.p.carry == (register >= m)
            &&& after.p.zero == (register == m)
            &&& after.p.negative == sign(difference(register, m))
            &&& after.p == (Status {
                carry: after.p.carry,
                zero: after.p.zero,
                negative: after.p.negative,
                ..st.p
            })
            &&& after.a == st.a && after.x == st.x && after.y == st.y && after.s == st.s
        }),
{
    reveal(compare);
    lemma_value_operand_frame::<M>(st, mode);
}

/// A byte that is pushed and then popped comes back, and the stack pointer
/// returns to where it stood, provided the bus hands back at the stack
/// address what was written there.
pub proof fn lemma_push_pop<M: Memory>(st: State<M::V>, value: u8)
    requires
        M::read_value(
            M::write_effect(st.memory, stack_address(st.s), value),
            stack_address(st.s),
        ) == value,
    ensures
        pop::<M>(push::<M>(st, value)).value == value,
        pop::<M>(push::<M>(st, value)).state.s == st.s,
{
}

/// `PHA` then `PLA`, `PHX` then `PLX`, and `PHY` then `PLY` restore the
/// register.
pub proof fn lemma_push_pull_register<M: Memory>(st: State<M::V>, register: Register)
    requires
        forall|value: u8|
            M::read_value(
                #[trigger] M::write_effect(st.memory, stack_address(st.s), value),
                stack_address(st.s),
            ) == value,
    ensures
        register == Register::A ==> pull_register::<M>(push::<M>(st, st.a), register).a == st.a,
        register == Register::X ==> pull_register::<M>(push::<M>(st, st.x), register).x == st.x,
        register == Register::Y ==> pull_register::<M>(push::<M>(st, st.y), register).y == st.y,
        pull_register::<M>(push::<M>(st, st.a), register).s == st.s,
{
    reveal(pull_register);
    lemma_push_pop::<M>(st, st.a);
    lemma_push_pop::<M>(st, st.x);
    lemma_push_pop::<M>(st, st.y);
}

/// `PHP` then `PLP` restores the status register, bits 4 and 5 set.
pub proof fn lemma_push_pop_status<M: Memory>(st: State<M::V>)
    requires
        forall|value: u8|
            M::read_value(
                #[trigger] M::write_effect(st.memory, stack_address(st.s), value),
                stack_address(st.s),
            ) == value,
    ensures
        pop_status::<M>(push_status::<M>(st, true)).p == st.p.with_fixed_bits(),
        pop_status::<M>(push_status::<M>(st, true)).s == st.s,
{
    let pushed = pushed_status(st.p, true);
    lemma_push_pop::<M>(st, pushed);
    Status::lemma_pack_unpack(st.p.with_fixed_bits(), 0);
}

/// The status byte that `PHP` pushes has bits 4 and 5 set, so `PHP` then
/// `PLA` leaves them set in the accumulator.
pub proof fn lemma_pushed_status_bits<M: Memory>(st: State<M::V>)
    requires
        forall|value: u8|
            M::read_value(
                #[trigger] M::write_effect(st.memory, stack_address(st.s), value),
                stack_address(st.s),
            ) == value,
    ensures
        pushed_status(st.p, true) & 0x30 == 0x30,
        pull_register::<M>(push_status::<M>(st, true), Register::A).a & 0x30 == 0x30,
        pull_register::<M>(push_status::<M>(st, true), Register::A).a == pushed_status(
            st.p,
            true,
        ),
{
    reveal(pull_register);
    let pushed = pushed_status(st.p, true);
    lemma_push_pop::<M>(st, pushed);
    lemma_pack_bits(
        st.p.carry,
        st.p.zero,
        st.p.irqb_disable,
        st.p.decimal_mode,
        true,
        true,
        st.p.overflow,
        st.p.negative,
    );
    assert((pushed & 0x10 != 0) && (pushed & 0x20 != 0) ==> pushed & 0x30 == 0x30)
        by (bit_vector);
}

/// What every instruction respects. The stack pointer moves by the bytes
/// popped less the bytes pushed (but for `TXS`); bits 4 and 5 of the status
/// register stay set; an instruction that neither branches nor jumps leaves
/// the program counter behind its operand bytes; and over a bus whose reads
/// are silent, an instruction that does not write leaves the bus as it was.
pub open spec fn instruction_frame<M: Memory>(st: State<M::V>, meta: InstructionMeta) -> bool {
    let after = execute::<M>(st, meta).state;
    &&& meta.opcode != Opcode::TXS ==> after.s == move_stack(st.s, stack_effect(meta.opcode))
    &&& st.p.has_fixed_bits() ==> after.p.has_fixed_bits()
    &&& !alters_flow(meta.opcode) ==> after.pc == advance_pc(
        st.pc,
        meta.parameter_1.spec_width() as int,
    )
    &&& reads_are_silent::<M>() && !writes_memory(meta.opcode, meta.parameter_1) ==> after.memory
        == st.memory
    &&& after.cycle == st.cycle
}

/// A relative branch changes the program counter and reads the bus, nothing
/// else.
pub proof fn lemma_branch_frame<M: Memory>(st: State<M::V>, condition: bool)
    ensures
        ({
            let after = branch::<M>(st, condition).state;
            &&& after == (State { pc: after.pc, memory: after.memory, ..st })
            &&& reads_are_silent::<M>() ==> after.memory == st.memory
            &&& !condition ==> after.pc == advance_pc(st.pc, 1)
        }),
{
    reveal(branch);
    lemma_address_operand_frame::<M>(st, AddressingMode::ProgramCounterRelative);
}

proof fn lemma_frame_alu<M: Memory>(st: State<M::V>, meta: InstructionMeta)
    requires
        executable(meta),
        is_alu(meta.opcode),
    ensures
        instruction_frame::<M>(st, meta),
{
    reveal(execute);
    reveal(arithmetic);
    reveal(logic);
    reveal(shift);
    reveal(step_value);
    reveal(compare);
    reveal(bit_test);
    reveal(test_and_modify);
    let mode = meta.parameter_1;
    if has_value(mode) {
        lemma_value_operand_frame::<M>(st, mode);
    }
    if has_address(mode) {
        lemma_address_operand_frame::<M>(st, mode);
    }
}

proof fn lemma_frame_transfer<M: Memory>(st: State<M::V>, meta: InstructionMeta)
    requires
        executable(meta),
        is_transfer(meta.opcode),
    ensures
        instruction_frame::<M>(st, meta),
{
    reveal(execute);
    reveal(load_register);
    reveal(store_value);
    reveal(pull_register);
    let mode = meta.parameter_1;
    if has_value(mode) {
        lemma_value_operand_frame::<M>(st, mode);
    }
    if has_address(mode) {
        lemma_address_operand_frame::<M>(st, mode);
    }
}

proof fn lemma_frame_flags<M: Memory>(st: State<M::V>, meta: InstructionMeta)
    requires
        executable(meta),
        is_flags(meta.opcode),
    ensures
        instruction_frame::<M>(st, meta),
{
    reveal(execute);
}

proof fn lemma_frame_bit_modify<M: Memory>(st: State<M::V>, meta: InstructionMeta)
    requires
        executable(meta),
        is_bit_modify(meta.opcode),
    ensures
        instruction_frame::<M>(st, meta),
{
    reveal(execute);
    reveal(modify_bit);
    lemma_address_operand_frame::<M>(st, AddressingMode::ZeroPage);
}

proof fn lemma_frame_bit_branch<M: Memory>(st: State<M::V>, meta: InstructionMeta)
    requires
        executable(meta),
        is_bit_branch(meta.opcode),
    ensures
        instruction_frame::<M>(st, meta),
{
    reveal(execute);
    reveal(bit_branch);
    lemma_value_operand_frame::<M>(st, AddressingMode::ZeroPage);
    let st1 = value_operand::<M>(st, AddressingMode::ZeroPage).state;
    lemma_branch_frame::<M>(st1, true);
    lemma_branch_frame::<M>(st1, false);
}

/// Entering a handler pushes three bytes and keeps bits 4 and 5 of the live
/// status register.
pub proof fn lemma_enter_handler_frame<M: Memory>(st: State<M::V>, brk: bool, vector: u16)
    ensures
        enter_handler::<M>(st, brk, vector).s == move_stack(st.s, -3),
        enter_handler::<M>(st, brk, vector).p == (Status {
            irqb_disable: true,
            decimal_mode: false,
            ..st.p
        }),
        enter_handler::<M>(st, brk, vector).run == st.run,
        enter_handler::<M>(st, brk, vector).wai == st.wai,
        enter_handler::<M>(st, brk, vector).cycle == st.cycle,
{
    reveal(enter_handler);
}

proof fn lemma_frame_flow<M: Memory>(st: State<M::V>, meta: InstructionMeta)
    requires
        executable(meta),
        is_flow(meta.opcode),
    ensures
        instruction_frame::<M>(st, meta),
{
    reveal(execute);
    reveal(jump_subroutine);
    reveal(return_subroutine);
    let mode = meta.parameter_1;
    lemma_branch_frame::<M>(st, true);
    lemma_branch_frame::<M>(st, false);
    if has_address(mode) {
        lemma_address_operand_frame::<M>(st, mode);
    }
    lemma_enter_handler_frame::<M>(
        State { pc: advance_pc(st.pc, 1), ..st },
        true,
        crate::cpu::semantics::IRQ_VECTOR,
    );
}

/// Every instruction of the catalogue respects the frame.
pub proof fn lemma_instruction_frame<M: Memory>(st: State<M::V>, meta: InstructionMeta)
    requires
        executable(meta),
    ensures
        instruction_frame::<M>(st, meta),
{
    if is_alu(meta.opcode) {
        lemma_frame_alu::<M>(st, meta);
    } else if is_transfer(meta.opcode) {
        lemma_frame_transfer::<M>(st, meta);
    } else if is_flags(meta.opcode) {
        lemma_frame_flags::<M>(st, meta);
    } else if is_bit_modify(meta.opcode) {
        lemma_frame_bit_modify::<M>(st, meta);
    } else if is_bit_branch(meta.opcode) {
        lemma_frame_bit_branch::<M>(st, meta);
    } else {
        lemma_frame_flow::<M>(st, meta);
    }
}

/// The stack pointer after an instruction is the pointer before it, moved
/// by the bytes the instruction pops less the bytes it pushes. `TXS`, which
/// loads the pointer from X, is the one instruction left out.
pub proof fn lemma_stack_pointer_balance<M: Memory>(st: State<M::V>, meta: InstructionMeta)
    requires
        executable(meta),
        meta.opcode != Opcode::TXS,
    ensures
        execute::<M>(st, meta).state.s == move_stack(st.s, stack_effect(meta.opcode)),
{
    lemma_instruction_frame::<M>(st, meta);
}

/// An instruction that neither stores, pushes nor modifies a byte in place
/// leaves a bus whose reads are silent exactly as it found it.
pub proof fn lemma_memory_untouched<M: Memory>(st: State<M::V>, meta: InstructionMeta)
    requires
        executable(meta),
        reads_are_silent::<M>(),
        !writes_memory(meta.opcode, meta.parameter_1),
    ensures
        execute::<M>(st, meta).state.memory == st.memory,
{
    lemma_instruction_frame::<M>(st, meta);
}

/// Fetching and executing an instruction that neither branches nor jumps
/// moves the program counter by the width of the instruction: one byte for
/// the opcode and the widths of its two operands. An undocumented opcode
/// byte is one byte wide.
pub proof fn lemma_program_counter_advance<M: Memory>(st: State<M::V>)
    ensures
        match decode(fetch::<M>(st).value) {
            Some(meta) => !alters_flow(meta.opcode) ==> run_instruction::<M>(st).state.pc
                == advance_pc(st.pc, meta.spec_width() as int) && meta.spec_width() == 1
                + meta.parameter_1.spec_width() + meta.parameter_2.spec_width(),
            None => run_instruction::<M>(st).state.pc == advance_pc(st.pc, 1),
        },
{
    reveal(run_instruction);
    let opcode = fetch::<M>(st);
    crate::cpu::semantics::lemma_catalogue_executable(opcode.value);
    match decode(opcode.value) {
        Some(meta) => {
            lemma_instruction_frame::<M>(opcode.state, meta);
        },
        None => {},
    }
}

/// Over a bus whose reads are silent, fetching and executing an instruction
/// that does not write leaves the bus as it was.
pub proof fn lemma_step_memory_untouched<M: Memory>(st: State<M::V>)
    requires
        reads_are_silent::<M>(),
    ensures
        match decode(fetch::<M>(st).value) {
            Some(meta) => !writes_memory(meta.opcode, meta.parameter_1) ==> run_instruction::<M>(
                st,
            ).state.memory == st.memory,
            None => run_instruction::<M>(st).state.memory == st.memory,
        },
{
    reveal(run_instruction);
    let opcode = fetch::<M>(st);
    crate::cpu::semantics::lemma_catalogue_executable(opcode.value);
    match decode(opcode.value) {
        Some(meta) => {
            lemma_instruction_frame::<M>(opcode.state, meta);
        },
        None => {},
    }
}

/// Whether the interrupt lines make the processor enter a handler at the
/// start of a step.
pub open spec fn interrupt_taken<M: Memory>(st: State<M::V>) -> bool {
    let signal = M::update_signal(st.memory, st.cycle);
    st.run && (signal.nmi || (signal.irq && !st.p.irqb_disable))
}

/// The machine at the point of a step where the interrupt lines have been
/// served.
pub open spec fn served<M: Memory>(st: State<M::V>) -> State<M::V> {
    service::<M>(tick::<M>(st), M::update_signal(st.memory, st.cycle))
}

/// The instruction that a step executes, if it executes one.
pub open spec fn executed<M: Memory>(st: State<M::V>) -> Option<InstructionMeta> {
    if st.run && !served::<M>(st).wai {
        decode(fetch::<M>(served::<M>(st)).value)
    } else {
        None
    }
}

/// Over a whole step the stack pointer moves by three bytes down when a
/// handler is entered, and then by the balance of the executed instruction.
pub proof fn lemma_step_stack_pointer<M: Memory>(st: State<M::V>)
    ensures
        ({
            let entered: int = if interrupt_taken::<M>(st) {
                -3
            } else {
                0
            };
            match executed::<M>(st) {
                Some(meta) => meta.opcode != Opcode::TXS ==> step::<M>(st).state.s == move_stack(
                    move_stack(st.s, entered),
                    stack_effect(meta.opcode),
                ),
                None => step::<M>(st).state.s == move_stack(st.s, entered),
            }
        }),
{
    reveal(step);
    reveal(service);
    reveal(run_instruction);
    if st.run {
        let ticked = tick::<M>(st);
        lemma_enter_handler_frame::<M>(
            State { wai: false, ..ticked },
            false,
            crate::cpu::semantics::NMI_VECTOR,
        );
        lemma_enter_handler_frame::<M>(
            State { wai: false, ..ticked },
            false,
            crate::cpu::semantics::IRQ_VECTOR,
        );
        let ready = served::<M>(st);
        if !ready.wai {
            let opcode = fetch::<M>(ready);
            crate::cpu::semantics::lemma_catalogue_executable(opcode.value);
            match decode(opcode.value) {
                Some(meta) => {
                    lemma_instruction_frame::<M>(opcode.state, meta);
                },
                None => {},
            }
        }
    }
}

/// Bits 4 and 5 of the status register, once set, are set after every step;
/// and reset sets them.
pub proof fn lemma_fixed_status_bits<M: Memory>(st: State<M::V>)
    ensures
        st.p.has_fixed_bits() ==> step::<M>(st).state.p.has_fixed_bits(),
        crate::cpu::semantics::reset::<M>(st.memory).p.has_fixed_bits(),
{
    reveal(step);
    reveal(service);
    reveal(run_instruction);
    if st.run {
        let ticked = tick::<M>(st);
        lemma_enter_handler_frame::<M>(
            State { wai: false, ..ticked },
            false,
            crate::cpu::semantics::NMI_VECTOR,
        );
        lemma_enter_handler_frame::<M>(
            State { wai: false, ..ticked },
            false,
            crate::cpu::semantics::IRQ_VECTOR,
        );
        let ready = served::<M>(st);
        if !ready.wai {
            let opcode = fetch::<M>(ready);
            crate::cpu::semantics::lemma_catalogue_executable(opcode.value);
            match decode(opcode.value) {
                Some(meta) => {
                    lemma_instruction_frame::<M>(opcode.state, meta);
                },
                None => {},
            }
        }
    }
}

/// A stopped processor stays as it is, and a step of a running processor
/// advances the cycle counter by the cycles it reports.
pub proof fn lemma_step_cycles<M: Memory>(st: State<M::V>)
    ensures
        !st.run ==> step::<M>(st).state == st && step::<M>(st).cycles == 0,
        st.run ==> step::<M>(st).state.cycle == crate::cpu::semantics::advance(
            st.cycle,
            step::<M>(st).cycles,
        ),
{
    reveal(step);
    reveal(service);
    reveal(run_instruction);
    if st.run {
        let ticked = tick::<M>(st);
        lemma_enter_handler_frame::<M>(
            State { wai: false, ..ticked },
            false,
            crate::cpu::semantics::NMI_VECTOR,
        );
        lemma_enter_handler_frame::<M>(
            State { wai: false, ..ticked },
            false,
            crate::cpu::semantics::IRQ_VECTOR,
        );
        let ready = served::<M>(st);
        if !ready.wai {
            let opcode = fetch::<M>(ready);
            crate::cpu::semantics::lemma_catalogue_executable(opcode.value);
            match decode(opcode.value) {
                Some(meta) => {
                    lemma_instruction_frame::<M>(opcode.state, meta);
                },
                None => {},
            }
        }
    }
}

/// Plain memory: reading a contiguous region changes nothing, in either
/// mode.
pub proof fn lemma_contiguous_reads_are_silent<Mode: crate::memory::contiguous::MemoryMode>()
    ensures
        reads_are_silent::<crate::memory::contiguous::Contiguous<Mode>>(),
{
}

/// A byte written to a region of RAM is read back from the same address.
pub proof fn lemma_ram_reads_back(memory: Seq<u8>, address: u16, value: u8)
    requires
        memory.len() > 0,
    ensures
        crate::memory::contiguous::Contiguous::<crate::memory::contiguous::Ram>::read_value(
            crate::memory::contiguous::Contiguous::<
                crate::memory::contiguous::Ram,
            >::write_effect(memory, address, value),
            address,
        ) == value,
{
}

/// Over RAM, a byte that is pushed and then popped comes back and the stack
/// pointer returns to where it stood.
pub proof fn lemma_push_pop_ram(
    st: State<Seq<u8>>,
    value: u8,
)
    requires
        st.memory.len() > 0,
    ensures
        pop::<crate::memory::contiguous::Contiguous<crate::memory::contiguous::Ram>>(
            push::<crate::memory::contiguous::Contiguous<crate::memory::contiguous::Ram>>(
                st,
                value,
            ),
        ).value == value,
        pop::<crate::memory::contiguous::Contiguous<crate::memory::contiguous::Ram>>(
            push::<crate::memory::contiguous::Contiguous<crate::memory::contiguous::Ram>>(
                st,
                value,
            ),
        ).state.s == st.s,
{
    lemma_ram_reads_back(st.memory, stack_address(st.s), value);
    lemma_push_pop::<crate::memory::contiguous::Contiguous<crate::memory::contiguous::Ram>>(
        st,
        value,
    );
}

/// Whether both nibbles of a byte are decimal digits.
pub open spec fn is_decimal(value: u8) -> bool {
    value % 16 <= 9 && value / 16 <= 9
}

/// The number from 0 to 99 that a packed decimal byte stands for.
pub open spec fn decimal_value(value: u8) -> int {
    (value / 16) * 10 + value % 16
}

/// A number within one hundred of the range 0..100, reduced modulo 100.
proof fn lemma_modulo_100(d: int)
    requires
        -100 <= d < 200,
    ensures
        d % 100 == if d < 0 {
            d + 100
        } else if d >= 100 {
            d - 100
        } else {
            d
        },
{
}

/// The byte with the nibbles `high` and `low`.
proof fn lemma_nibbles_of(high: int, low: int)
    requires
        0 <= high < 16,
        0 <= low < 16,
    ensures
        (high * 16 + low) / 16 == high,
        (high * 16 + low) % 16 == low,
        low % 16 == low,
        high % 16 == high,
{
}

/// On packed decimal operands, decimal addition yields the packed decimal
/// sum modulo 100 and carries when the sum reaches 100.
pub proof fn lemma_add_decimal(a: u8, m: u8, carry: bool)
    requires
        is_decimal(a),
        is_decimal(m),
    ensures
        is_decimal(crate::cpu::alu::add_decimal(a, m, carry).value),
        decimal_value(crate::cpu::alu::add_decimal(a, m, carry).value) == (decimal_value(a)
            + decimal_value(m) + carry_in(carry)) % 100,
        crate::cpu::alu::add_decimal(a, m, carry).carry == (decimal_value(a) + decimal_value(m)
            + carry_in(carry) >= 100),
{
    let low = a % 16 + m % 16 + carry_in(carry);
    let half: int = if low > 9 {
        1
    } else {
        0
    };
    let low_digit = low - 10 * half;
    let high = a / 16 + m / 16 + half;
    let carried: int = if high > 9 {
        1
    } else {
        0
    };
    let high_digit = high - 10 * carried;
    lemma_nibbles_of(high_digit, low_digit);
    let sum = decimal_value(a) + decimal_value(m) + carry_in(carry);
    assert(sum == high_digit * 10 + low_digit + 100 * carried);
    lemma_modulo_100(sum);
    let value = crate::cpu::alu::add_decimal(a, m, carry).value;
    assert(value == high_digit * 16 + low_digit);
}

/// On packed decimal operands, decimal subtraction yields the packed
/// decimal difference modulo 100 and clears the carry when it borrows.
pub proof fn lemma_subtract_decimal(a: u8, m: u8, carry: bool)
    requires
        is_decimal(a),
        is_decimal(m),
    ensures
        is_decimal(crate::cpu::alu::subtract_decimal(a, m, carry).value),
        decimal_value(crate::cpu::alu::subtract_decimal(a, m, carry).value) == (decimal_value(a)
            - decimal_value(m) - carry_in(!carry)) % 100,
        crate::cpu::alu::subtract_decimal(a, m, carry).carry == (decimal_value(a) - decimal_value(
            m,
        ) - carry_in(!carry) >= 0),
{
    let low = a % 16 - m % 16 - carry_in(!carry);
    let half: int = if low < 0 {
        1
    } else {
        0
    };
    let low_digit = low + 10 * half;
    let high = a / 16 - m / 16 - half;
    let borrowed: int = if high < 0 {
        1
    } else {
        0
    };
    let high_digit = high + 10 * borrowed;
    lemma_nibbles_of(high_digit, low_digit);
    let difference = decimal_value(a) - decimal_value(m) - carry_in(!carry);
    assert(difference == high_digit * 10 + low_digit - 100 * borrowed);
    lemma_modulo_100(difference);
    let value = crate::cpu::alu::subtract_decimal(a, m, carry).value;
    assert(value == high_digit * 16 + low_digit);
}

/// The relative branches and the bit branches.
pub open spec fn is_branch(opcode: Opcode) -> bool {
    is_bit_branch(opcode) || match opcode {
        Opcode::BCC
        | Opcode::BCS
        | Opcode::BEQ
        | Opcode::BNE
        | Opcode::BMI
        | Opcode::BPL
        | Opcode::BVC
        | Opcode::BVS
        | Opcode::BRA => true,
        _ => false,
    }
}

/// The bit branches that are taken on a set bit.
pub open spec fn branches_on_set(opcode: Opcode) -> bool {
    match opcode {
        Opcode::BBS0
        | Opcode::BBS1
        | Opcode::BBS2
        | Opcode::BBS3
        | Opcode::BBS4
        | Opcode::BBS5
        | Opcode::BBS6
        | Opcode::BBS7 => true,
        _ => false,
    }
}

/// Whether the condition of the branch `opcode` holds in the state `st`,
/// in which its opcode byte has been fetched: a flag for the relative
/// branches, a bit of the zero page byte that the operand names for the
/// bit branches.
pub open spec fn branch_condition<M: Memory>(st: State<M::V>, opcode: Opcode) -> bool {
    match opcode {
        Opcode::BCC => !st.p.carry,
        Opcode::BCS => st.p.carry,
        Opcode::BEQ => st.p.zero,
        Opcode::BNE => !st.p.zero,
        Opcode::BMI => st.p.negative,
        Opcode::BPL => !st.p.negative,
        Opcode::BVC => !st.p.overflow,
        Opcode::BVS => st.p.overflow,
        Opcode::BRA => true,
        _ => is_bit_branch(opcode) && crate::cpu::semantics::test_bit(
            value_operand::<M>(st, AddressingMode::ZeroPage).value,
            crate::cpu::semantics::bit_index(opcode),
        ) == branches_on_set(opcode),
    }
}

/// Whether execution goes on behind the instruction: it neither jumps nor
/// branches, or it is a branch whose condition does not hold.
pub open spec fn falls_through<M: Memory>(st: State<M::V>, opcode: Opcode) -> bool {
    !alters_flow(opcode) || (is_branch(opcode) && !branch_condition::<M>(st, opcode))
}

/// A branch whose condition does not hold leaves the program counter behind
/// its operand bytes.
pub proof fn lemma_branch_not_taken<M: Memory>(st: State<M::V>, meta: InstructionMeta)
    requires
        executable(meta),
        is_branch(meta.opcode),
        !branch_condition::<M>(st, meta.opcode),
    ensures
        execute::<M>(st, meta).state.pc == advance_pc(
            st.pc,
            meta.parameter_1.spec_width() + meta.parameter_2.spec_width(),
        ),
        execute::<M>(st, meta).extra_cycles == 0,
{
    reveal(execute);
    reveal(bit_branch);
    reveal(branch);
    if is_bit_branch(meta.opcode) {
        lemma_value_operand_frame::<M>(st, AddressingMode::ZeroPage);
        let st1 = value_operand::<M>(st, AddressingMode::ZeroPage).state;
        lemma_branch_frame::<M>(st1, false);
    } else {
        lemma_branch_frame::<M>(st, false);
    }
}

/// Fetching and executing an instruction behind which execution goes on
/// moves the program counter by the width of the instruction: one byte for
/// the opcode and the widths of its two operands. This holds of every
/// instruction that neither jumps nor branches, and of every branch whose
/// condition does not hold.
pub proof fn lemma_program_counter_falls_through<M: Memory>(st: State<M::V>)
    ensures
        decode(fetch::<M>(st).value) matches Some(meta) ==> (falls_through::<M>(
            fetch::<M>(st).state,
            meta.opcode,
        ) ==> run_instruction::<M>(st).state.pc == advance_pc(st.pc, meta.spec_width() as int)
            && meta.spec_width() == 1 + meta.parameter_1.spec_width()
            + meta.parameter_2.spec_width()),
{
    reveal(run_instruction);
    let opcode = fetch::<M>(st);
    crate::cpu::semantics::lemma_catalogue_executable(opcode.value);
    match decode(opcode.value) {
        Some(meta) => {
            lemma_instruction_frame::<M>(opcode.state, meta);
            if is_branch(meta.opcode) && !branch_condition::<M>(opcode.state, meta.opcode) {
                lemma_branch_not_taken::<M>(opcode.state, meta);
            }
        },
        None => {},
    }
}

/// Whether a step in state `st` executes an instruction right away: the
/// processor runs, does not wait, and no interrupt line is raised.
pub open spec fn undisturbed<M: Memory>(st: State<M::V>) -> bool {
    let signal = M::update_signal(st.memory, st.cycle);
    st.run && !st.wai && !signal.irq && !signal.nmi
}

/// A step that executes an instruction right away moves the program counter
/// by the width of the instruction, unless the instruction jumps or is a
/// branch whose condition holds; over an undocumented opcode byte it moves
/// by one.
pub proof fn lemma_step_program_counter<M: Memory>(st: State<M::V>)
    requires
        undisturbed::<M>(st),
    ensures
        step::<M>(st) == run_instruction::<M>(tick::<M>(st)),
        match decode(fetch::<M>(tick::<M>(st)).value) {
            Some(meta) => falls_through::<M>(fetch::<M>(tick::<M>(st)).state, meta.opcode)
                ==> step::<M>(st).state.pc == advance_pc(
                st.pc,
                1 + meta.parameter_1.spec_width() + meta.parameter_2.spec_width(),
            ),
            None => step::<M>(st).state.pc == advance_pc(st.pc, 1),
        },
{
    reveal(step);
    reveal(service);
    lemma_program_counter_falls_through::<M>(tick::<M>(st));
    lemma_program_counter_advance::<M>(tick::<M>(st));
}

/// The instruction that pushes a register.
pub open spec fn push_of(register: Register) -> Opcode {
    match register {
        Register::A => Opcode::PHA,
        Register::X => Opcode::PHX,
        Register::Y => Opcode::PHY,
    }
}

/// The instruction that pulls a register.
pub open spec fn pull_of(register: Register) -> Opcode {
    match register {
        Register::A => Opcode::PLA,
        Register::X => Opcode::PLX,
        Register::Y => Opcode::PLY,
    }
}

/// The value of a register.
pub open spec fn register_of<V>(st: State<V>, register: Register) -> u8 {
    match register {
        Register::A => st.a,
        Register::X => st.x,
        Register::Y => st.y,
    }
}

/// Whether a step of a processor over RAM in state `st` executes the
/// instruction `opcode`: the processor runs, does not wait, and the byte at
/// the program counter encodes `opcode`. RAM raises no interrupt.
pub open spec fn about_to_execute(st: State<Seq<u8>>, opcode: Opcode) -> bool {
    st.run && !st.wai && st.memory.len() > 0 && (decode(
        crate::memory::contiguous::Contiguous::<crate::memory::contiguous::Ram>::read_value(
            st.memory,
            st.pc,
        ),
    ) matches Some(meta) && meta.opcode == opcode)
}

/// The state of a processor over RAM one step after `st`.
pub open spec fn next(st: State<Seq<u8>>) -> State<Seq<u8>> {
    step::<crate::memory::contiguous::Contiguous<crate::memory::contiguous::Ram>>(st).state
}

/// Whether `later` can follow `earlier` with nothing but registers changed
/// in between: the memory and the stack pointer are the same, and the
/// processor still runs.
pub open spec fn registers_changed(earlier: State<Seq<u8>>, later: State<Seq<u8>>) -> bool {
    later.memory == earlier.memory && later.s == earlier.s && later.run && !later.wai
}

/// What one step over RAM does that executes a push or a pull.
proof fn lemma_stack_step(st: State<Seq<u8>>, opcode: Opcode)
    requires
        about_to_execute(st, opcode),
    ensures
        stack_effect(opcode) == 1 || stack_effect(opcode) == -1 ==> next(st).run && !next(st).wai,
        opcode == Opcode::PHA ==> next(st).memory == st.memory.update(
            stack_address(st.s) as int % st.memory.len() as int,
            st.a,
        ) && next(st).s == move_stack(st.s, -1),
        opcode == Opcode::PHX ==> next(st).memory == st.memory.update(
            stack_address(st.s) as int % st.memory.len() as int,
            st.x,
        ) && next(st).s == move_stack(st.s, -1),
        opcode == Opcode::PHY ==> next(st).memory == st.memory.update(
            stack_address(st.s) as int % st.memory.len() as int,
            st.y,
        ) && next(st).s == move_stack(st.s, -1),
        opcode == Opcode::PHP ==> next(st).memory == st.memory.update(
            stack_address(st.s) as int % st.memory.len() as int,
            pushed_status(st.p, true),
        ) && next(st).s == move_stack(st.s, -1),
        ({
            let top = st.memory[stack_address(move_stack(st.s, 1)) as int % st.memory.len() as int];
            &&& opcode == Opcode::PLA ==> next(st).a == top && next(st).s == move_stack(st.s, 1)
            &&& opcode == Opcode::PLX ==> next(st).x == top && next(st).s == move_stack(st.s, 1)
            &&& opcode == Opcode::PLY ==> next(st).y == top && next(st).s == move_stack(st.s, 1)
            &&& opcode == Opcode::PLP ==> next(st).p == Status::unpack(top).with_fixed_bits()
                && next(st).s == move_stack(st.s, 1)
        }),
{
    reveal(step);
    reveal(service);
    reveal(run_instruction);
    reveal(execute);
    reveal(pull_register);
}

/// Over RAM, a step that executes `PHA`, `PHX` or `PHY` and a later step that
/// executes the matching `PLA`, `PLX` or `PLY` restore the register and the
/// stack pointer, whatever became of the registers in between.
pub proof fn lemma_push_then_pull_steps(
    before: State<Seq<u8>>,
    between: State<Seq<u8>>,
    register: Register,
)
    requires
        about_to_execute(before, push_of(register)),
        registers_changed(next(before), between),
        about_to_execute(between, pull_of(register)),
    ensures
        register_of(next(between), register) == register_of(before, register),
        next(between).s == before.s,
{
    lemma_stack_step(before, push_of(register));
    lemma_stack_step(between, pull_of(register));
}

/// The packed status byte with bits 4 and 5 set is the byte that `PHP`
/// pushes.
pub proof fn lemma_pushed_status_is_or(p: Status)
    ensures
        pushed_status(p, true) == p.bits() | 0x30,
        pushed_status(p, true) & 0x30 == 0x30,
        Status::unpack(pushed_status(p, true)) == p.with_fixed_bits(),
{
    lemma_pack_or(
        p.carry,
        p.zero,
        p.irqb_disable,
        p.decimal_mode,
        p.brk_command,
        p.unused,
        p.overflow,
        p.negative,
    );
    Status::lemma_pack_unpack(p.with_fixed_bits(), 0);
}

proof fn lemma_pack_or(
    b0: bool,
    b1: bool,
    b2: bool,
    b3: bool,
    b4: bool,
    b5: bool,
    b6: bool,
    b7: bool,
)
    by (bit_vector)
    ensures
        crate::status::pack(b0, b1, b2, b3, true, true, b6, b7) == crate::status::pack(
            b0,
            b1,
            b2,
            b3,
            b4,
            b5,
            b6,
            b7,
        ) | 0x30,
        crate::status::pack(b0, b1, b2, b3, true, true, b6, b7) & 0x30 == 0x30,
{
}

/// Over RAM, a step that executes `PHP` and a later step that executes `PLP`
/// restore the status register, bits 4 and 5 set, and the stack pointer.
pub proof fn lemma_push_then_pull_status_steps(before: State<Seq<u8>>, between: State<Seq<u8>>)
    requires
        about_to_execute(before, Opcode::PHP),
        registers_changed(next(before), between),
        about_to_execute(between, Opcode::PLP),
    ensures
        next(between).p == before.p.with_fixed_bits(),
        next(between).p.bits() == before.p.bits() | 0x30,
        next(between).s == before.s,
{
    lemma_stack_step(before, Opcode::PHP);
    lemma_stack_step(between, Opcode::PLP);
    lemma_pushed_status_is_or(before.p);
}

/// Over RAM, a step that executes `PHP` and a later step that executes `PLA`
/// leave the status byte in the accumulator with bits 4 and 5 set.
pub proof fn lemma_push_status_then_pull_accumulator_steps(
    before: State<Seq<u8>>,
    between: State<Seq<u8>>,
)
    requires
        about_to_execute(before, Opcode::PHP),
        registers_changed(next(before), between),
        about_to_execute(between, Opcode::PLA),
    ensures
        next(between).a == before.p.bits() | 0x30,
        next(between).a & 0x30 == 0x30,
        next(between).s == before.s,
{
    lemma_stack_step(before, Opcode::PHP);
    lemma_stack_step(between, Opcode::PLA);
    lemma_pushed_status_is_or(before.p);
}

} // verus!
