use crate::cpu::alu::{
    compute_add_binary, compute_add_decimal, compute_indexed, compute_relative_target,
    compute_shift_left, compute_shift_right, compute_subtract_binary, compute_subtract_decimal,
    crosses_page, indexed, page, Shifted, Sum,
};
use crate::cpu::semantics::{
    address_operand, arithmetic, bit_branch, bit_test, branch, compare, enter_handler,
    executable, execute, fetch, jump_subroutine, load_register, logic, pull_register,
    return_subroutine, run_steps, set_register, shift, shift_byte, step_value, store_value,
    is_alu, is_bit_branch, is_bit_modify, is_flags, is_flow, is_transfer, run_instruction,
    service, test_and_modify, with_bit_test, Logic, Register, Shift,
    fetch_word, has_address, has_value, lemma_catalogue_executable, load_word,
    load_zero_page_word, modify_bit, pop, pop_pc,
    pop_status, push, push_pc, push_status, reset, set_a, set_x, set_y, step, update_nz,
    value_operand, with_sum, Executed, Fetched, FetchedWord, Operand, State, Stepped,
};
use crate::memory::{make_word, split_word, Memory};
pub use crate::cpu::semantics::{INITIAL_STACK_POINTER, IRQ_VECTOR, NMI_VECTOR, RESET_VECTOR};
use crate::opcode::{get_instruction, AddressingMode, InstructionMeta, Opcode};
pub use crate::status::Status;
use vstd::prelude::*;

pub mod alu;
pub mod laws;
pub mod semantics;

verus! {

/// A W65C02S processor over the bus `M`.
#[derive(Debug)]
pub struct Cpu<M> {
    /// A register
    pub a: u8,
    /// X register
    pub x: u8,
    /// Y register
    pub y: u8,
    /// stack pointer
    pub s: u8,
    /// processor status/flags
    pub p: Status,
    /// program counter
    pub pc: u16,
    /// memory/bus access
    pub memory: M,
    /// true if running
    pub run: bool,
    /// true if waiting for interrupt
    pub wai: bool,
    /// cycles elapsed since turning on
    pub cycle: usize,
}

impl<M: Memory> View for Cpu<M> {
    type V = State<M::V>;

    open spec fn view(&self) -> State<M::V> {
        State {
            a: self.a,
            x: self.x,
            y: self.y,
            s: self.s,
            p: self.p,
            pc: self.pc,
            run: self.run,
            wai: self.wai,
            cycle: self.cycle,
            memory: self.memory@,
        }
    }
}

impl<M: Memory> Cpu<M> {
    /// The processor is valid when its bus is.
    pub open spec fn wf(&self) -> bool {
        self.memory.wf()
    }

    /// A processor over `memory`, after reset.
    pub fn new(memory: M) -> (cpu: Self)
        requires
            memory.wf(),
        ensures
            cpu.wf(),
            cpu@ == reset::<M>(memory@),
    {
        let mut cpu = Self {
            a: 0,
            x: 0,
            y: 0,
            s: 0,
            p: Status::new(),
            pc: 0,
            memory,
            run: false,
            wai: false,
            cycle: 0,
        };
        cpu.reset();
        cpu
    }

    /// Puts the processor into its initial state and loads the program
    /// counter from the reset vector.
    pub fn reset(&mut self)
        requires
            old(self).wf(),
        ensures
            final(self).wf(),
            final(self)@ == reset::<M>(old(self)@.memory),
    {
        self.run = true;
        self.a = 0;
        self.x = 0;
        self.y = 0;
        self.s = INITIAL_STACK_POINTER;
        self.p = Status::new();
        self.pc = self.memory.read_u16(RESET_VECTOR);
        self.wai = false;
        self.cycle = 0;
    }

    /// Reads the byte at the program counter and steps over it.
    pub fn read_u8_inc_pc(&mut self) -> (value: u8)
        requires
            old(self).wf(),
        ensures
            final(self).wf(),
            fetch::<M>(old(self)@) == (Fetched { value, state: final(self)@ }),
    {
        let result = self.memory.read_u8(self.pc);
        self.pc = self.pc.wrapping_add(1);
        result
    }

    /// Reads the word at the program counter and steps over it.
    pub fn read_u16_inc_pc(&mut self) -> (value: u16)
        requires
            old(self).wf(),
        ensures
            final(self).wf(),
            fetch_word::<M>(old(self)@) == (FetchedWord { value, state: final(self)@ }),
    {
        let result = self.memory.read_u16(self.pc);
        self.pc = self.pc.wrapping_add(2);
        result
    }

    /// Decodes the operand of `addressing_mode` into a value. Returns the
    /// value and whether a page boundary was crossed.
    pub fn read_value_operand(&mut self, addressing_mode: AddressingMode) -> (operand: (u8, bool))
        requires
            old(self).wf(),
            has_value(addressing_mode),
        ensures
            final(self).wf(),
            value_operand::<M>(old(self)@, addressing_mode) == (Operand {
                value: operand.0,
                page_crossed: operand.1,
                state: final(self)@,
            }),
    {
        proof {
            reveal(value_operand);
        }
        match addressing_mode {
            AddressingMode::Accumulator => (self.a, false),
            AddressingMode::Immediate => (self.read_u8_inc_pc(), false),
            _ => {
                let (address, page_cross) = self.read_address_operand(addressing_mode);
                (self.memory.read_u8(address), page_cross)
            },
        }
    }

    /// Decodes the operand of `addressing_mode` into an effective address.
    /// Returns the address and whether a page boundary was crossed.
    pub fn read_address_operand(&mut self, addressing_mode: AddressingMode) -> (operand: (
        u16,
        bool,
    ))
        requires
            old(self).wf(),
            has_address(addressing_mode),
        ensures
            final(self).wf(),
            address_operand::<M>(old(self)@, addressing_mode) == (Operand {
                value: operand.0,
                page_crossed: operand.1,
                state: final(self)@,
            }),
    {
        proof {
            reveal(address_operand);
        }
        match addressing_mode {
            AddressingMode::Absolute => (self.read_u16_inc_pc(), false),
            AddressingMode::AbsoluteIndexedX => self.absolute_indexed(self.x),
            AddressingMode::AbsoluteIndexedY => self.absolute_indexed(self.y),
            AddressingMode::AbsoluteIndirect => self.absolute_pointer(0),
            AddressingMode::AbsoluteIndexedIndirectX => self.absolute_pointer(self.x),
            AddressingMode::ProgramCounterRelative => {
                let offset = self.read_u8_inc_pc();
                (compute_relative_target(self.pc, offset), false)
            },
            AddressingMode::ZeroPage => (self.zero_page_indexed(0), false),
            AddressingMode::ZeroPageIndexedX => (self.zero_page_indexed(self.x), false),
            AddressingMode::ZeroPageIndexedY => (self.zero_page_indexed(self.y), false),
            AddressingMode::ZeroPageIndirect => (self.zero_page_pointer(0), false),
            AddressingMode::ZeroPageIndexedIndirectX => (self.zero_page_pointer(self.x), false),
            AddressingMode::ZeroPageIndirectIndexedY => {
                let base = self.zero_page_pointer(0);
                let address = compute_indexed(base, self.y);
                (address, crosses_page(base, address))
            },
            _ => (0, false),
        }
    }

    /// Reads a 16-bit base and adds `index` to it.
    fn absolute_indexed(&mut self, index: u8) -> (operand: (u16, bool))
        requires
            old(self).wf(),
        ensures
            final(self).wf(),
            final(self)@ == fetch_word::<M>(old(self)@).state,
            operand.0 == indexed(fetch_word::<M>(old(self)@).value, index),
            operand.1 == (page(fetch_word::<M>(old(self)@).value) != page(operand.0)),
    {
        let base = self.read_u16_inc_pc();
        let address = compute_indexed(base, index);
        (address, crosses_page(base, address))
    }

    /// Reads a 16-bit pointer, adds `index` to it and reads the word it
    /// points to.
    fn absolute_pointer(&mut self, index: u8) -> (operand: (u16, bool))
        requires
            old(self).wf(),
        ensures
            final(self).wf(),
            load_word::<M>(
                fetch_word::<M>(old(self)@).state,
                indexed(fetch_word::<M>(old(self)@).value, index),
            ) == (FetchedWord { value: operand.0, state: final(self)@ }),
            !operand.1,
    {
        let address = compute_indexed(self.read_u16_inc_pc(), index);
        (self.memory.read_u16(address), false)
    }

    /// Reads a zero page address and adds `index` to it within the zero
    /// page.
    fn zero_page_indexed(&mut self, index: u8) -> (address: u16)
        requires
            old(self).wf(),
        ensures
            final(self).wf(),
            final(self)@ == fetch::<M>(old(self)@).state,
            address == (fetch::<M>(old(self)@).value + index) % 256,
    {
        self.read_u8_inc_pc().wrapping_add(index) as u16
    }

    /// Reads a zero page address, adds `index` to it within the zero page
    /// and reads the word it points to.
    fn zero_page_pointer(&mut self, index: u8) -> (target: u16)
        requires
            old(self).wf(),
        ensures
            final(self).wf(),
            load_zero_page_word::<M>(
                fetch::<M>(old(self)@).state,
                ((fetch::<M>(old(self)@).value + index) % 256) as u8,
            ) == (FetchedWord { value: target, state: final(self)@ }),
    {
        let address = self.read_u8_inc_pc().wrapping_add(index);
        self.memory.read_u16_zp(address)
    }

    /// Sets `N` and `Z` from `value`.
    pub fn update_nz_flags(&mut self, value: u8)
        ensures
            final(self).wf() == old(self).wf(),
            final(self)@ == update_nz(old(self)@, value),
    {
        self.p.zero = value == 0;
        self.p.negative = value >= 0x80;
    }

    pub fn set_a(&mut self, value: u8)
        ensures
            final(self).wf() == old(self).wf(),
            final(self)@ == set_a(old(self)@, value),
    {
        self.a = value;
        self.update_nz_flags(value);
    }

    pub fn set_x(&mut self, value: u8)
        ensures
            final(self).wf() == old(self).wf(),
            final(self)@ == set_x(old(self)@, value),
    {
        self.x = value;
        self.update_nz_flags(value);
    }

    pub fn set_y(&mut self, value: u8)
        ensures
            final(self).wf() == old(self).wf(),
            final(self)@ == set_y(old(self)@, value),
    {
        self.y = value;
        self.update_nz_flags(value);
    }

    /// Stores `value` at the stack pointer and moves the pointer down.
    pub fn push(&mut self, value: u8)
        requires
            old(self).wf(),
        ensures
            final(self).wf(),
            final(self)@ == push::<M>(old(self)@, value),
    {
        self.memory.write_u8(0x0100 + self.s as u16, value);
        self.s = self.s.wrapping_sub(1);
    }

    /// Moves the stack pointer up and reads the byte it selects.
    pub fn pop(&mut self) -> (value: u8)
        requires
            old(self).wf(),
        ensures
            final(self).wf(),
            pop::<M>(old(self)@) == (Fetched { value, state: final(self)@ }),
    {
        self.s = self.s.wrapping_add(1);
        self.memory.read_u8(0x0100 + self.s as u16)
    }

    pub fn push_pc(&mut self)
        requires
            old(self).wf(),
        ensures
            final(self).wf(),
            final(self)@ == push_pc::<M>(old(self)@),
    {
        let (l, h) = split_word(self.pc);
        self.push(h);
        self.push(l);
    }

    pub fn pop_pc(&mut self)
        requires
            old(self).wf(),
        ensures
            final(self).wf(),
            final(self)@ == pop_pc::<M>(old(self)@),
    {
        let l = self.pop();
        let h = self.pop();
        self.pc = make_word(l, h);
    }

    /// Pops the status register; bits 4 and 5 are set whatever was popped.
    pub fn pop_flags(&mut self)
        requires
            old(self).wf(),
        ensures
            final(self).wf(),
            final(self)@ == pop_status::<M>(old(self)@),
    {
        let mut p = Status::from_bits(self.pop());
        p.brk_command = true;
        p.unused = true;
        self.p = p;
    }

    /// Pushes the status register with bits 4 and 5 set, as `PHP` and `BRK`
    /// do.
    pub fn push_flags(&mut self)
        requires
            old(self).wf(),
        ensures
            final(self).wf(),
            final(self)@ == push_status::<M>(old(self)@, true),
    {
        let mut p = self.p;
        p.brk_command = true;
        p.unused = true;
        self.push(p.into_bits());
    }

    /// Pushes the status register with bit 5 set and bit 4 clear, as the
    /// interrupt sequences do.
    pub fn push_flags_no_brk(&mut self)
        requires
            old(self).wf(),
        ensures
            final(self).wf(),
            final(self)@ == push_status::<M>(old(self)@, false),
    {
        let mut p = self.p;
        p.brk_command = false;
        p.unused = true;
        self.push(p.into_bits());
    }

    fn apply_sum(&mut self, sum: Sum)
        ensures
            final(self).wf() == old(self).wf(),
            final(self)@ == with_sum(old(self)@, sum),
    {
        self.set_a(sum.value);
        self.p.carry = sum.carry;
        self.p.overflow = sum.overflow;
    }

    /// `A + m + C` in binary mode.
    pub fn do_addition(&mut self, m: u8)
        ensures
            final(self).wf() == old(self).wf(),
            final(self)@ == crate::cpu::semantics::do_addition(old(self)@, m),
    {
        let sum = compute_add_binary(self.a, m, self.p.carry());
        self.apply_sum(sum);
    }

    /// `A + m + C` in decimal mode.
    pub fn do_addition_decimal(&mut self, m: u8)
        ensures
            final(self).wf() == old(self).wf(),
            final(self)@ == crate::cpu::semantics::do_addition_decimal(old(self)@, m),
    {
        let sum = compute_add_decimal(self.a, m, self.p.carry());
        self.apply_sum(sum);
    }

    /// `A - m - !C` in binary mode.
    pub fn do_subtraction(&mut self, m: u8)
        ensures
            final(self).wf() == old(self).wf(),
            final(self)@ == crate::cpu::semantics::do_subtraction(old(self)@, m),
    {
        let sum = compute_subtract_binary(self.a, m, self.p.carry());
        self.apply_sum(sum);
    }

    /// `A - m - !C` in decimal mode.
    pub fn do_subtraction_decimal(&mut self, m: u8)
        ensures
            final(self).wf() == old(self).wf(),
            final(self)@ == crate::cpu::semantics::do_subtraction_decimal(old(self)@, m),
    {
        let sum = compute_subtract_decimal(self.a, m, self.p.carry());
        self.apply_sum(sum);
    }

    /// Branches when bit `bit` of a zero page byte is clear. Returns the
    /// extra cycles.
    pub fn bbr(&mut self, bit: u8) -> (extra_cycles: u8)
        requires
            old(self).wf(),
            bit < 8,
        ensures
            final(self).wf(),
            extra_cycles <= 2,
            bit_branch::<M>(old(self)@, bit, false) == (Executed {
                state: final(self)@,
                extra_cycles,
            }),
    {
        proof {
            reveal(bit_branch);
        }
        let (m, _) = self.read_value_operand(AddressingMode::ZeroPage);
        self.branch(((m >> bit) & 0b1) == 0)
    }

    /// Branches when bit `bit` of a zero page byte is set. Returns the extra
    /// cycles.
    pub fn bbs(&mut self, bit: u8) -> (extra_cycles: u8)
        requires
            old(self).wf(),
            bit < 8,
        ensures
            final(self).wf(),
            extra_cycles <= 2,
            bit_branch::<M>(old(self)@, bit, true) == (Executed {
                state: final(self)@,
                extra_cycles,
            }),
    {
        proof {
            reveal(bit_branch);
        }
        let (m, _) = self.read_value_operand(AddressingMode::ZeroPage);
        self.branch(((m >> bit) & 0b1) != 0)
    }

    /// Reads a relative offset and branches when `condition` holds. Returns
    /// the extra cycles.
    pub fn branch(&mut self, condition: bool) -> (extra_cycles: u8)
        requires
            old(self).wf(),
        ensures
            final(self).wf(),
            extra_cycles <= 2,
            branch::<M>(old(self)@, condition) == (Executed { state: final(self)@, extra_cycles }),
    {
        proof {
            reveal(branch);
        }
        let (target, _) = self.read_address_operand(AddressingMode::ProgramCounterRelative);
        if condition {
            let pc = self.pc;
            self.pc = target;
            if crosses_page(pc, target) {
                2
            } else {
                1
            }
        } else {
            0
        }
    }

    /// Compares `register` with the operand of `addressing_mode`. Returns
    /// the extra cycles.
    pub fn compare(&mut self, register: u8, addressing_mode: AddressingMode) -> (extra_cycles: u8)
        requires
            old(self).wf(),
            has_value(addressing_mode),
        ensures
            final(self).wf(),
            extra_cycles <= 1,
            compare::<M>(old(self)@, register, addressing_mode) == (Executed {
                state: final(self)@,
                extra_cycles,
            }),
    {
        proof {
            reveal(compare);
        }
        let (m, page_cross) = self.read_value_operand(addressing_mode);
        self.update_nz_flags(register.wrapping_sub(m));
        self.p.carry = register >= m;
        if page_cross {
            1
        } else {
            0
        }
    }

    /// Clears bit `bit` of a zero page byte.
    pub fn rmb(&mut self, bit: u8)
        requires
            old(self).wf(),
            bit < 8,
        ensures
            final(self).wf(),
            final(self)@ == modify_bit::<M>(old(self)@, bit, false),
    {
        proof {
            reveal(modify_bit);
        }
        let (addr, _) = self.read_address_operand(AddressingMode::ZeroPage);
        let m = self.memory.read_u8(addr);
        self.memory.write_u8(addr, m & !(1u8 << bit));
    }

    /// Sets bit `bit` of a zero page byte.
    pub fn smb(&mut self, bit: u8)
        requires
            old(self).wf(),
            bit < 8,
        ensures
            final(self).wf(),
            final(self)@ == modify_bit::<M>(old(self)@, bit, true),
    {
        proof {
            reveal(modify_bit);
        }
        let (addr, _) = self.read_address_operand(AddressingMode::ZeroPage);
        let m = self.memory.read_u8(addr);
        self.memory.write_u8(addr, m | (1u8 << bit));
    }

    /// Enters a handler through `vector`: pushes the program counter and the
    /// status register, masks interrupts and leaves decimal mode.
    pub fn enter_handler(&mut self, brk: bool, vector: u16)
        requires
            old(self).wf(),
        ensures
            final(self).wf(),
            final(self)@ == enter_handler::<M>(old(self)@, brk, vector),
    {
        proof {
            reveal(enter_handler);
        }
        self.push_pc();
        if brk {
            self.push_flags();
        } else {
            self.push_flags_no_brk();
        }
        self.p.irqb_disable = true;
        self.p.decimal_mode = false;
        self.pc = self.memory.read_u16(vector);
    }

    /// `ADC` and `SBC`. Returns the extra cycles.
    pub fn arithmetic(&mut self, mode: AddressingMode, subtract: bool) -> (extra_cycles: u8)
        requires
            old(self).wf(),
            has_value(mode),
        ensures
            final(self).wf(),
            extra_cycles <= 2,
            arithmetic::<M>(old(self)@, mode, subtract) == (Executed {
                state: final(self)@,
                extra_cycles,
            }),
    {
        proof {
            reveal(arithmetic);
        }
        let (m, page_cross) = self.read_value_operand(mode);
        let mut extra_cycles: u8 = 0;
        if page_cross {
            extra_cycles += 1;
        }
        if self.p.decimal_mode() {
            extra_cycles += 1;
            if subtract {
                self.do_subtraction_decimal(m);
            } else {
                self.do_addition_decimal(m);
            }
        } else {
            if subtract {
                self.do_subtraction(m);
            } else {
                self.do_addition(m);
            }
        }
        extra_cycles
    }

    /// `AND`, `ORA` and `EOR`. Returns the extra cycles.
    pub fn logic(&mut self, mode: AddressingMode, op: Logic) -> (extra_cycles: u8)
        requires
            old(self).wf(),
            has_value(mode),
        ensures
            final(self).wf(),
            extra_cycles <= 1,
            logic::<M>(old(self)@, mode, op) == (Executed { state: final(self)@, extra_cycles }),
    {
        proof {
            reveal(logic);
        }
        let (m, page_cross) = self.read_value_operand(mode);
        match op {
            Logic::And => self.set_a(self.a & m),
            Logic::Or => self.set_a(self.a | m),
            Logic::ExclusiveOr => self.set_a(self.a ^ m),
        }
        if page_cross {
            1
        } else {
            0
        }
    }

    fn shift_byte(kind: Shift, m: u8, carry: bool) -> (shifted: Shifted)
        ensures
            shifted == shift_byte(kind, m, carry),
    {
        match kind {
            Shift::Asl => compute_shift_left(m, false),
            Shift::Lsr => compute_shift_right(m, false),
            Shift::Rol => compute_shift_left(m, carry),
            Shift::Ror => compute_shift_right(m, carry),
        }
    }

    /// `ASL`, `LSR`, `ROL` and `ROR`. Returns the extra cycles.
    pub fn shift(&mut self, mode: AddressingMode, kind: Shift) -> (extra_cycles: u8)
        requires
            old(self).wf(),
            mode == AddressingMode::Accumulator || has_address(mode),
        ensures
            final(self).wf(),
            extra_cycles <= 1,
            shift::<M>(old(self)@, mode, kind) == (Executed { state: final(self)@, extra_cycles }),
    {
        proof {
            reveal(shift);
        }
        if mode == AddressingMode::Accumulator {
            let shifted = Self::shift_byte(kind, self.a, self.p.carry());
            self.set_a(shifted.value);
            self.p.carry = shifted.carry;
            0
        } else {
            let (addr, page_cross) = self.read_address_operand(mode);
            let m = self.memory.read_u8(addr);
            let shifted = Self::shift_byte(kind, m, self.p.carry());
            self.memory.write_u8(addr, shifted.value);
            self.update_nz_flags(shifted.value);
            self.p.carry = shifted.carry;
            if page_cross {
                1
            } else {
                0
            }
        }
    }

    /// `INC` and `DEC`. Returns the extra cycles.
    pub fn step_value(&mut self, mode: AddressingMode, up: bool) -> (extra_cycles: u8)
        requires
            old(self).wf(),
            mode == AddressingMode::Accumulator || has_address(mode),
        ensures
            final(self).wf(),
            extra_cycles <= 1,
            step_value::<M>(old(self)@, mode, up) == (Executed {
                state: final(self)@,
                extra_cycles,
            }),
    {
        proof {
            reveal(step_value);
        }
        if mode == AddressingMode::Accumulator {
            if up {
                self.set_a(self.a.wrapping_add(1));
            } else {
                self.set_a(self.a.wrapping_sub(1));
            }
            0
        } else {
            let (addr, page_cross) = self.read_address_operand(mode);
            let value = self.memory.read_u8(addr);
            let new_value = if up {
                value.wrapping_add(1)
            } else {
                value.wrapping_sub(1)
            };
            self.memory.write_u8(addr, new_value);
            self.update_nz_flags(new_value);
            if page_cross && mode != AddressingMode::AbsoluteIndexedX {
                1
            } else {
                0
            }
        }
    }

    /// `BIT`. Returns the extra cycles.
    pub fn bit_test(&mut self, mode: AddressingMode) -> (extra_cycles: u8)
        requires
            old(self).wf(),
            has_value(mode),
        ensures
            final(self).wf(),
            bit_test::<M>(old(self)@, mode) == (Executed { state: final(self)@, extra_cycles }),
            extra_cycles <= 1,
    {
        proof {
            reveal(bit_test);
        }
        let (m, page_cross) = self.read_value_operand(mode);
        self.p = Self::bit_test_flags(self.p, self.a, m, mode == AddressingMode::Immediate);
        if page_cross {
            1
        } else {
            0
        }
    }

    fn bit_test_flags(p: Status, a: u8, m: u8, immediate: bool) -> (flags: Status)
        ensures
            flags == with_bit_test(p, a, m, immediate),
    {
        let mut flags = p;
        flags.set_zero((a & m) == 0);
        if !immediate {
            // N and V are only touched when not in immediate mode
            flags.set_negative(m >= 0x80);
            flags.set_overflow((m & 0x40) != 0);
        }
        flags
    }

    /// `TRB` and `TSB`. Returns the extra cycles.
    pub fn test_and_modify(&mut self, mode: AddressingMode, set: bool) -> (extra_cycles: u8)
        requires
            old(self).wf(),
            has_address(mode),
        ensures
            final(self).wf(),
            extra_cycles <= 1,
            test_and_modify::<M>(old(self)@, mode, set) == (Executed {
                state: final(self)@,
                extra_cycles,
            }),
    {
        proof {
            reveal(test_and_modify);
        }
        let (addr, page_cross) = self.read_address_operand(mode);
        let a = self.a;
        let m = self.memory.read_u8(addr);
        let value = if set {
            m | a
        } else {
            m & !a
        };
        self.memory.write_u8(addr, value);
        self.p.zero = (m & a) == 0;
        assert(self@ == test_and_modify::<M>(old(self)@, mode, set).state);
        if page_cross {
            1
        } else {
            0
        }
    }

    fn set_register(&mut self, register: Register, value: u8)
        ensures
            final(self).wf() == old(self).wf(),
            final(self)@ == set_register(old(self)@, register, value),
    {
        match register {
            Register::A => self.set_a(value),
            Register::X => self.set_x(value),
            Register::Y => self.set_y(value),
        }
    }

    /// `LDA`, `LDX` and `LDY`. Returns the extra cycles.
    pub fn load_register(&mut self, mode: AddressingMode, register: Register) -> (extra_cycles:
        u8)
        requires
            old(self).wf(),
            has_value(mode),
        ensures
            final(self).wf(),
            extra_cycles <= 1,
            load_register::<M>(old(self)@, mode, register) == (Executed {
                state: final(self)@,
                extra_cycles,
            }),
    {
        proof {
            reveal(load_register);
        }
        let (op, page_cross) = self.read_value_operand(mode);
        self.set_register(register, op);
        if page_cross {
            1
        } else {
            0
        }
    }

    /// `STA`, `STX`, `STY` and `STZ`.
    pub fn store_value(&mut self, mode: AddressingMode, value: u8)
        requires
            old(self).wf(),
            has_address(mode),
        ensures
            final(self).wf(),
            store_value::<M>(old(self)@, mode, value) == (Executed {
                state: final(self)@,
                extra_cycles: 0,
            }),
    {
        proof {
            reveal(store_value);
        }
        let (addr, _) = self.read_address_operand(mode);
        self.memory.write_u8(addr, value);
    }

    /// `PLA`, `PLX` and `PLY`.
    pub fn pull_register(&mut self, register: Register)
        requires
            old(self).wf(),
        ensures
            final(self).wf(),
            final(self)@ == pull_register::<M>(old(self)@, register),
    {
        proof {
            reveal(pull_register);
        }
        let value = self.pop();
        self.set_register(register, value);
    }

    /// `JSR`.
    pub fn jump_subroutine(&mut self, mode: AddressingMode)
        requires
            old(self).wf(),
            has_address(mode),
        ensures
            final(self).wf(),
            final(self)@ == jump_subroutine::<M>(old(self)@, mode),
    {
        proof {
            reveal(jump_subroutine);
        }
        let (target, _) = self.read_address_operand(mode);
        self.pc = self.pc.wrapping_sub(1);
        self.push_pc();
        self.pc = target;
    }

    /// `RTS`.
    pub fn return_subroutine(&mut self)
        requires
            old(self).wf(),
        ensures
            final(self).wf(),
            final(self)@ == return_subroutine::<M>(old(self)@),
    {
        proof {
            reveal(return_subroutine);
        }
        self.pop_pc();
        self.pc = self.pc.wrapping_add(1);
    }

    /// Executes one of the arithmetic, logic, shift, compare and increment instructions.
    fn execute_alu(&mut self, opcode: InstructionMeta) -> (extra_cycles: u8)
        requires
            old(self).wf(),
            executable(opcode),
            is_alu(opcode.opcode),
        ensures
            final(self).wf(),
            execute::<M>(old(self)@, opcode) == (Executed { state: final(self)@, extra_cycles }),
            extra_cycles <= 2,
    {
        proof {
            reveal(execute);
        }
        let mode = opcode.parameter_1;
        match opcode.opcode {
            Opcode::ADC => self.arithmetic(mode, false),
            Opcode::SBC => self.arithmetic(mode, true),
            Opcode::AND => self.logic(mode, Logic::And),
            Opcode::ORA => self.logic(mode, Logic::Or),
            Opcode::EOR => self.logic(mode, Logic::ExclusiveOr),
            Opcode::ASL => self.shift(mode, Shift::Asl),
            Opcode::LSR => self.shift(mode, Shift::Lsr),
            Opcode::ROL => self.shift(mode, Shift::Rol),
            Opcode::ROR => self.shift(mode, Shift::Ror),
            Opcode::BIT => self.bit_test(mode),
            Opcode::CMP => self.compare(self.a, mode),
            Opcode::CPX => self.compare(self.x, mode),
            Opcode::CPY => self.compare(self.y, mode),
            Opcode::DEC => self.step_value(mode, false),
            Opcode::INC => self.step_value(mode, true),
            Opcode::TRB => self.test_and_modify(mode, false),
            Opcode::TSB => self.test_and_modify(mode, true),
            Opcode::DEX => {
                self.set_x(self.x.wrapping_sub(1));
                0
            },
            Opcode::DEY => {
                self.set_y(self.y.wrapping_sub(1));
                0
            },
            Opcode::INX => {
                self.set_x(self.x.wrapping_add(1));
                0
            },
            Opcode::INY => {
                self.set_y(self.y.wrapping_add(1));
                0
            },
            _ => 0,
        }
    }

    /// Executes one of the branches, jumps, returns and the instructions that halt or wait.
    fn execute_flow(&mut self, opcode: InstructionMeta) -> (extra_cycles: u8)
        requires
            old(self).wf(),
            executable(opcode),
            is_flow(opcode.opcode),
        ensures
            final(self).wf(),
            execute::<M>(old(self)@, opcode) == (Executed { state: final(self)@, extra_cycles }),
            extra_cycles <= 2,
    {
        proof {
            reveal(execute);
        }
        let mode = opcode.parameter_1;
        match opcode.opcode {
            Opcode::BCC => self.branch(!self.p.carry()),
            Opcode::BCS => self.branch(self.p.carry()),
            Opcode::BEQ => self.branch(self.p.zero()),
            Opcode::BNE => self.branch(!self.p.zero()),
            Opcode::BMI => self.branch(self.p.negative()),
            Opcode::BPL => self.branch(!self.p.negative()),
            Opcode::BVC => self.branch(!self.p.overflow()),
            Opcode::BVS => self.branch(self.p.overflow()),
            Opcode::BRA => self.branch(true),
            Opcode::BRK => {
                self.pc = self.pc.wrapping_add(1);  // skip unused 2nd instruction byte
                self.enter_handler(true, IRQ_VECTOR);
                0
            },
            Opcode::JMP => {
                let (target, page_cross) = self.read_address_operand(mode);
                self.pc = target;
                if page_cross {
                    1
                } else {
                    0
                }
            },
            Opcode::JSR => {
                self.jump_subroutine(mode);
                0
            },
            Opcode::RTI => {
                self.pop_flags();
                self.pop_pc();
                0
            },
            Opcode::RTS => {
                self.return_subroutine();
                0
            },
            Opcode::STP => {
                self.run = false;
                0
            },
            Opcode::WAI => {
                self.wai = true;
                0
            },
            Opcode::NOP => 0,
            _ => 0,
        }
    }

    /// Executes one of the `BBRn` and `BBSn` instructions.
    fn execute_bit_branch(&mut self, opcode: InstructionMeta) -> (extra_cycles: u8)
        requires
            old(self).wf(),
            executable(opcode),
            is_bit_branch(opcode.opcode),
        ensures
            final(self).wf(),
            execute::<M>(old(self)@, opcode) == (Executed { state: final(self)@, extra_cycles }),
            extra_cycles <= 2,
    {
        proof {
            reveal(execute);
        }
        let mode = opcode.parameter_1;
        match opcode.opcode {
            Opcode::BBR0 => self.bbr(0),
            Opcode::BBR1 => self.bbr(1),
            Opcode::BBR2 => self.bbr(2),
            Opcode::BBR3 => self.bbr(3),
            Opcode::BBR4 => self.bbr(4),
            Opcode::BBR5 => self.bbr(5),
            Opcode::BBR6 => self.bbr(6),
            Opcode::BBR7 => self.bbr(7),
            Opcode::BBS0 => self.bbs(0),
            Opcode::BBS1 => self.bbs(1),
            Opcode::BBS2 => self.bbs(2),
            Opcode::BBS3 => self.bbs(3),
            Opcode::BBS4 => self.bbs(4),
            Opcode::BBS5 => self.bbs(5),
            Opcode::BBS6 => self.bbs(6),
            Opcode::BBS7 => self.bbs(7),
            _ => 0,
        }
    }

    /// Executes one of the `RMBn` and `SMBn` instructions.
    fn execute_bit_modify(&mut self, opcode: InstructionMeta) -> (extra_cycles: u8)
        requires
            old(self).wf(),
            executable(opcode),
            is_bit_modify(opcode.opcode),
        ensures
            final(self).wf(),
            execute::<M>(old(self)@, opcode) == (Executed { state: final(self)@, extra_cycles }),
            extra_cycles <= 2,
    {
        proof {
            reveal(execute);
        }
        let mode = opcode.parameter_1;
        match opcode.opcode {
            Opcode::RMB0 => {
                self.rmb(0);
                0
            },
            Opcode::RMB1 => {
                self.rmb(1);
                0
            },
            Opcode::RMB2 => {
                self.rmb(2);
                0
            },
            Opcode::RMB3 => {
                self.rmb(3);
                0
            },
            Opcode::RMB4 => {
                self.rmb(4);
                0
            },
            Opcode::RMB5 => {
                self.rmb(5);
                0
            },
            Opcode::RMB6 => {
                self.rmb(6);
                0
            },
            Opcode::RMB7 => {
                self.rmb(7);
                0
            },
            Opcode::SMB0 => {
                self.smb(0);
                0
            },
            Opcode::SMB1 => {
                self.smb(1);
                0
            },
            Opcode::SMB2 => {
                self.smb(2);
                0
            },
            Opcode::SMB3 => {
                self.smb(3);
                0
            },
            Opcode::SMB4 => {
                self.smb(4);
                0
            },
            Opcode::SMB5 => {
                self.smb(5);
                0
            },
            Opcode::SMB6 => {
                self.smb(6);
                0
            },
            Opcode::SMB7 => {
                self.smb(7);
                0
            },
            _ => 0,
        }
    }

    /// Executes one of the loads, stores, transfers and stack instructions.
    fn execute_transfer(&mut self, opcode: InstructionMeta) -> (extra_cycles: u8)
        requires
            old(self).wf(),
            executable(opcode),
            is_transfer(opcode.opcode),
        ensures
            final(self).wf(),
            execute::<M>(old(self)@, opcode) == (Executed { state: final(self)@, extra_cycles }),
            extra_cycles <= 2,
    {
        proof {
            reveal(execute);
        }
        let mode = opcode.parameter_1;
        match opcode.opcode {
            Opcode::LDA => self.load_register(mode, Register::A),
            Opcode::LDX => self.load_register(mode, Register::X),
            Opcode::LDY => self.load_register(mode, Register::Y),
            Opcode::STA => {
                self.store_value(mode, self.a);
                0
            },
            Opcode::STX => {
                self.store_value(mode, self.x);
                0
            },
            Opcode::STY => {
                self.store_value(mode, self.y);
                0
            },
            Opcode::STZ => {
                self.store_value(mode, 0);
                0
            },
            Opcode::TAX => {
                self.set_x(self.a);
                0
            },
            Opcode::TAY => {
                self.set_y(self.a);
                0
            },
            Opcode::TSX => {
                self.set_x(self.s);
                0
            },
            Opcode::TXA => {
                self.set_a(self.x);
                0
            },
            Opcode::TXS => {
                self.s = self.x;
                0
            },
            Opcode::TYA => {
                self.set_a(self.y);
                0
            },
            Opcode::PHA => {
                self.push(self.a);
                0
            },
            Opcode::PHP => {
                self.push_flags();
                0
            },
            Opcode::PHX => {
                self.push(self.x);
                0
            },
            Opcode::PHY => {
                self.push(self.y);
                0
            },
            Opcode::PLA => {
                self.pull_register(Register::A);
                0
            },
            Opcode::PLP => {
                self.pop_flags();
                0
            },
            Opcode::PLX => {
                self.pull_register(Register::X);
                0
            },
            Opcode::PLY => {
                self.pull_register(Register::Y);
                0
            },
            _ => 0,
        }
    }

    /// Executes one of the instructions that set or clear one flag.
    fn execute_flags(&mut self, opcode: InstructionMeta) -> (extra_cycles: u8)
        requires
            old(self).wf(),
            executable(opcode),
            is_flags(opcode.opcode),
        ensures
            final(self).wf(),
            execute::<M>(old(self)@, opcode) == (Executed { state: final(self)@, extra_cycles }),
            extra_cycles <= 2,
    {
        proof {
            reveal(execute);
        }
        let mode = opcode.parameter_1;
        match opcode.opcode {
            Opcode::CLC => {
                self.p.carry = false;
                0
            },
            Opcode::CLD => {
                self.p.decimal_mode = false;
                0
            },
            Opcode::CLI => {
                self.p.irqb_disable = false;
                0
            },
            Opcode::CLV => {
                self.p.overflow = false;
                0
            },
            Opcode::SEC => {
                self.p.carry = true;
                0
            },
            Opcode::SED => {
                self.p.decimal_mode = true;
                0
            },
            Opcode::SEI => {
                self.p.irqb_disable = true;
                0
            },
            _ => 0,
        }
    }

    /// Executes the instruction `opcode`, whose opcode byte has been
    /// fetched. Returns the cycles it takes beyond its base count.
    pub fn execute(&mut self, opcode: InstructionMeta) -> (extra_cycles: u8)
        requires
            old(self).wf(),
            executable(opcode),
        ensures
            final(self).wf(),
            execute::<M>(old(self)@, opcode) == (Executed { state: final(self)@, extra_cycles }),
            extra_cycles <= 2,
    {
        match opcode.opcode {
            Opcode::ADC
            | Opcode::SBC
            | Opcode::AND
            | Opcode::ORA
            | Opcode::EOR
            | Opcode::ASL
            | Opcode::LSR
            | Opcode::ROL
            | Opcode::ROR
            | Opcode::BIT
            | Opcode::CMP
            | Opcode::CPX
            | Opcode::CPY
            | Opcode::DEC
            | Opcode::INC
            | Opcode::TRB
            | Opcode::TSB
            | Opcode::DEX
            | Opcode::DEY
            | Opcode::INX
            | Opcode::INY => self.execute_alu(opcode),
            Opcode::BCC
            | Opcode::BCS
            | Opcode::BEQ
            | Opcode::BNE
            | Opcode::BMI
            | Opcode::BPL
            | Opcode::BVC
            | Opcode::BVS
            | Opcode::BRA
            | Opcode::BRK
            | Opcode::JMP
            | Opcode::JSR
            | Opcode::RTI
            | Opcode::RTS
            | Opcode::STP
            | Opcode::WAI
            | Opcode::NOP => self.execute_flow(opcode),
            Opcode::BBR0
            | Opcode::BBR1
            | Opcode::BBR2
            | Opcode::BBR3
            | Opcode::BBR4
            | Opcode::BBR5
            | Opcode::BBR6
            | Opcode::BBR7
            | Opcode::BBS0
            | Opcode::BBS1
            | Opcode::BBS2
            | Opcode::BBS3
            | Opcode::BBS4
            | Opcode::BBS5
            | Opcode::BBS6
            | Opcode::BBS7 => self.execute_bit_branch(opcode),
            Opcode::RMB0
            | Opcode::RMB1
            | Opcode::RMB2
            | Opcode::RMB3
            | Opcode::RMB4
            | Opcode::RMB5
            | Opcode::RMB6
            | Opcode::RMB7
            | Opcode::SMB0
            | Opcode::SMB1
            | Opcode::SMB2
            | Opcode::SMB3
            | Opcode::SMB4
            | Opcode::SMB5
            | Opcode::SMB6
            | Opcode::SMB7 => self.execute_bit_modify(opcode),
            Opcode::LDA
            | Opcode::LDX
            | Opcode::LDY
            | Opcode::STA
            | Opcode::STX
            | Opcode::STY
            | Opcode::STZ
            | Opcode::TAX
            | Opcode::TAY
            | Opcode::TSX
            | Opcode::TXA
            | Opcode::TXS
            | Opcode::TYA
            | Opcode::PHA
            | Opcode::PHP
            | Opcode::PHX
            | Opcode::PHY
            | Opcode::PLA
            | Opcode::PLP
            | Opcode::PLX
            | Opcode::PLY => self.execute_transfer(opcode),
            Opcode::CLC
            | Opcode::CLD
            | Opcode::CLI
            | Opcode::CLV
            | Opcode::SEC
            | Opcode::SED
            | Opcode::SEI => self.execute_flags(opcode),
        }
    }

    /// Executes one step and returns the number of elapsed cycles: 0 when
    /// the processor is stopped, 1 while it waits for an interrupt or for an
    /// undocumented opcode byte, else the cycles of the instruction.
    pub fn step_instruction(&mut self) -> (cycles: u8)
        requires
            old(self).wf(),
        ensures
            final(self).wf(),
            step::<M>(old(self)@) == (Stepped { state: final(self)@, cycles }),
    {
        proof {
            reveal(step);
            reveal(service);
            reveal(run_instruction);
        }
        if !self.run {
            return 0;
        }
        let interrupt = self.memory.update(self.cycle);
        if interrupt.is_nmi() || interrupt.is_irq() {
            self.wai = false;
            if interrupt.is_nmi() {
                self.enter_handler(false, NMI_VECTOR);
            } else if !self.p.irqb_disable() {
                self.enter_handler(false, IRQ_VECTOR);
            }
        }
        if self.wai {
            self.cycle = self.cycle.wrapping_add(1);
            return 1;
        }
        let byte = self.read_u8_inc_pc();
        proof {
            lemma_catalogue_executable(byte);
        }
        let cycles = match get_instruction(byte) {
            Some(opcode) => {
                let extra_cycles = self.execute(opcode);
                opcode.cycles + extra_cycles
            },
            None => 1,
        };
        self.cycle = self.cycle.wrapping_add(cycles as usize);
        cycles
    }

    /// Executes steps until the processor stops, but `limit` steps at most.
    /// Returns the number of steps taken.
    pub fn run(&mut self, limit: usize) -> (steps: usize)
        requires
            old(self).wf(),
        ensures
            final(self).wf(),
            steps <= limit,
            final(self)@ == run_steps::<M>(old(self)@, steps as nat),
            steps < limit ==> !final(self)@.run,
            forall|k: nat| k < steps ==> (#[trigger] run_steps::<M>(old(self)@, k)).run,
    {
        let mut steps: usize = 0;
        while steps < limit && self.run
            invariant
                self.wf(),
                steps <= limit,
                self@ == run_steps::<M>(old(self)@, steps as nat),
                forall|k: nat| k < steps ==> (#[trigger] run_steps::<M>(old(self)@, k)).run,
            decreases limit - steps,
        {
            self.step_instruction();
            steps += 1;
        }
        steps
    }
}

} // verus!
