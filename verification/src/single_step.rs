use crate::cpu::semantics::{step, State, Stepped};
use crate::cpu::Cpu;
use crate::memory::contiguous::{zeroed, Contiguous, Ram};
use crate::memory::logging::{Logged, LoggingMemory, MemoryAccess, MemoryAccessType};
use crate::memory::Memory;
use crate::status::Status;
use vstd::prelude::*;

verus! {

/// The direction of a bus cycle in a test vector.
#[derive(Debug, Copy, Clone, PartialEq, Eq, Structural)]
pub enum CycleOp {
    Read,
    Write,
}

/// One bus cycle of a test vector: address, value and direction.
#[derive(Debug, Clone)]
pub struct Cycle(pub u16, pub u8, pub CycleOp);

impl Cycle {
    pub fn address(&self) -> (address: u16)
        ensures
            address == self.0,
    {
        self.0
    }

    pub fn value(&self) -> (value: u8)
        ensures
            value == self.1,
    {
        self.1
    }

    pub fn op(&self) -> (op: CycleOp)
        ensures
            op == self.2,
    {
        self.2
    }

    /// The bus access that this cycle stands for.
    pub open spec fn access(self) -> MemoryAccess {
        MemoryAccess {
            access_type: match self.2 {
                CycleOp::Read => MemoryAccessType::Read,
                CycleOp::Write => MemoryAccessType::Write,
            },
            address: self.0,
            value: self.1,
        }
    }
}

/// One byte of memory in a test vector: address and value.
#[derive(Debug, Clone)]
pub struct RamValue(pub u16, pub u8);

impl RamValue {
    pub fn address(&self) -> (address: u16)
        ensures
            address == self.0,
    {
        self.0
    }

    pub fn value(&self) -> (value: u8)
        ensures
            value == self.1,
    {
        self.1
    }
}

/// The registers and the bytes of memory that a test vector names.
#[derive(Debug, Clone)]
pub struct Configuration {
    pub pc: u16,
    pub s: u8,
    pub a: u8,
    pub x: u8,
    pub y: u8,
    pub p: u8,
    pub ram: Vec<RamValue>,
}

/// A single-step test vector: the machine before one step, the machine
/// after it, and the bus cycles of the step.
#[derive(Debug, Clone)]
pub struct TestCase {
    pub name: String,
    pub initial: Configuration,
    pub last: Configuration,
    pub cycles: Vec<Cycle>,
}

/// Where the processor departs from a test vector.
#[derive(Debug, Copy, Clone, PartialEq, Eq, Structural)]
pub enum Mismatch {
    /// the step took another number of cycles than the vector lists
    Cycles { expected: usize, actual: u8 },
    /// the step made another number of bus accesses than the vector lists
    AccessCount { expected: usize, actual: usize },
    /// the bus access at `index` is not the cycle that the vector lists
    Access { index: usize, expected: MemoryAccess, actual: MemoryAccess },
    Pc { expected: u16, actual: u16 },
    S { expected: u8, actual: u8 },
    A { expected: u8, actual: u8 },
    X { expected: u8, actual: u8 },
    Y { expected: u8, actual: u8 },
    P { expected: u8, actual: u8 },
    /// the byte at `address` is not the one that the vector lists
    Ram { address: u16, expected: u8, actual: u8 },
}

/// A memory of 64 KiB after the first `count` bytes of `ram` were written
/// to it, in order.
pub open spec fn loaded(ram: Seq<RamValue>, count: nat) -> Seq<u8>
    decreases count,
{
    if count == 0 {
        zeroed(0x10000)
    } else {
        loaded(ram, (count - 1) as nat).update(ram[count - 1].0 as int, ram[count - 1].1)
    }
}

/// The machine that a test vector starts from: the registers of the
/// configuration over a memory of 64 KiB that holds its bytes, the log
/// empty, the processor running at cycle 0.
pub open spec fn prepared(initial: Configuration) -> State<Logged<Seq<u8>>> {
    State {
        a: initial.a,
        x: initial.x,
        y: initial.y,
        s: initial.s,
        p: Status::unpack(initial.p),
        pc: initial.pc,
        run: true,
        wai: false,
        cycle: 0,
        memory: Logged { inner: loaded(initial.ram@, initial.ram@.len()), log: Seq::empty() },
    }
}

/// The first of the first `count` listed cycles that the log does not hold.
pub open spec fn first_wrong_access(
    log: Seq<MemoryAccess>,
    cycles: Seq<Cycle>,
    count: nat,
) -> Option<Mismatch>
    decreases count,
{
    if count == 0 {
        None
    } else {
        match first_wrong_access(log, cycles, (count - 1) as nat) {
            Some(mismatch) => Some(mismatch),
            None => if log[count - 1] != cycles[count - 1].access() {
                Some(
                    Mismatch::Access {
                        index: (count - 1) as usize,
                        expected: cycles[count - 1].access(),
                        actual: log[count - 1],
                    },
                )
            } else {
                None
            },
        }
    }
}

/// The first of the first `count` listed bytes that the memory does not
/// hold.
pub open spec fn first_wrong_byte(memory: Seq<u8>, ram: Seq<RamValue>, count: nat) -> Option<
    Mismatch,
>
    decreases count,
{
    if count == 0 {
        None
    } else {
        match first_wrong_byte(memory, ram, (count - 1) as nat) {
            Some(mismatch) => Some(mismatch),
            None => if Contiguous::<Ram>::read_value(memory, ram[count - 1].0) != ram[count - 1].1 {
                Some(
                    Mismatch::Ram {
                        address: ram[count - 1].0,
                        expected: ram[count - 1].1,
                        actual: Contiguous::<Ram>::read_value(memory, ram[count - 1].0),
                    },
                )
            } else {
                None
            },
        }
    }
}

/// The bus accesses of the step against the listed cycles: first their
/// number, then each in order.
pub open spec fn check_accesses(log: Seq<MemoryAccess>, cycles: Seq<Cycle>) -> Option<Mismatch> {
    if log.len() != cycles.len() {
        Some(Mismatch::AccessCount { expected: cycles.len() as usize, actual: log.len() as usize })
    } else {
        first_wrong_access(log, cycles, cycles.len())
    }
}

/// The registers and the memory after the step against the final
/// configuration: PC, S, A, X, Y, P, then the listed bytes in order.
pub open spec fn check_state(after: State<Logged<Seq<u8>>>, last: Configuration) -> Option<
    Mismatch,
> {
    if after.pc != last.pc {
        Some(Mismatch::Pc { expected: last.pc, actual: after.pc })
    } else if after.s != last.s {
        Some(Mismatch::S { expected: last.s, actual: after.s })
    } else if after.a != last.a {
        Some(Mismatch::A { expected: last.a, actual: after.a })
    } else if after.x != last.x {
        Some(Mismatch::X { expected: last.x, actual: after.x })
    } else if after.y != last.y {
        Some(Mismatch::Y { expected: last.y, actual: after.y })
    } else if after.p.bits() != last.p {
        Some(Mismatch::P { expected: last.p, actual: after.p.bits() })
    } else {
        first_wrong_byte(after.memory.inner, last.ram@, last.ram@.len())
    }
}

/// The verdict on a test vector: the first point at which one step from its
/// initial configuration departs from it, if any. The cycle count is held
/// against the number of listed cycles; the bus accesses are held against
/// the listed cycles only where `strict` asks for it.
pub open spec fn verdict(test_case: TestCase, strict: bool) -> Option<Mismatch> {
    let stepped = step::<LoggingMemory<Contiguous<Ram>>>(prepared(test_case.initial));
    if stepped.cycles as int != test_case.cycles@.len() {
        Some(Mismatch::Cycles { expected: test_case.cycles@.len() as usize, actual: stepped.cycles })
    } else {
        let accesses = if strict {
            check_accesses(stepped.state.memory.log, test_case.cycles@)
        } else {
            None
        };
        match accesses {
            Some(mismatch) => Some(mismatch),
            None => check_state(stepped.state, test_case.last),
        }
    }
}

/// Runs one step from the initial configuration of a test vector and holds
/// the outcome against the vector. Returns the first mismatch, or `None`
/// where the processor agrees with the vector.
pub fn execute_test_case(test_case: &TestCase, strict: bool) -> (result: Option<Mismatch>)
    ensures
        result == verdict(*test_case, strict),
{
    let memory = LoggingMemory::new(Contiguous::new_ram(0x10000));
    let mut cpu = Cpu::new(memory);
    cpu.pc = test_case.initial.pc;
    cpu.s = test_case.initial.s;
    cpu.a = test_case.initial.a;
    cpu.x = test_case.initial.x;
    cpu.y = test_case.initial.y;
    cpu.p = Status::from_bits(test_case.initial.p);
    let mut i: usize = 0;
    while i < test_case.initial.ram.len()
        invariant
            i <= test_case.initial.ram@.len(),
            cpu.wf(),
            cpu.memory@.inner.len() == 0x10000,
            cpu.memory@.inner == loaded(test_case.initial.ram@, i as nat),
            cpu@ == (State { memory: cpu.memory@, ..prepared(test_case.initial) }),
        decreases test_case.initial.ram@.len() - i,
    {
        let ram_value = &test_case.initial.ram[i];
        cpu.memory.write_u8(ram_value.address(), ram_value.value());
        i += 1;
    }
    cpu.memory.reset_log();
    let cycles = cpu.step_instruction();
    let ghost after = cpu@;
    if cycles as usize != test_case.cycles.len() {
        return Some(Mismatch::Cycles { expected: test_case.cycles.len(), actual: cycles });
    }
    if strict {
        let log = cpu.memory.log();
        if log.len() != test_case.cycles.len() {
            return Some(
                Mismatch::AccessCount { expected: test_case.cycles.len(), actual: log.len() },
            );
        }
        let mut i: usize = 0;
        while i < test_case.cycles.len()
            invariant
                i <= test_case.cycles@.len(),
                log@ == after.memory.log,
                log@.len() == test_case.cycles@.len(),
                strict,
                cycles as int == test_case.cycles@.len(),
                step::<LoggingMemory<Contiguous<Ram>>>(prepared(test_case.initial)) == (Stepped {
                    state: after,
                    cycles,
                }),
                first_wrong_access(log@, test_case.cycles@, i as nat) is None,
            decreases test_case.cycles@.len() - i,
        {
            let cycle = &test_case.cycles[i];
            let expected = MemoryAccess {
                access_type: match cycle.op() {
                    CycleOp::Read => MemoryAccessType::Read,
                    CycleOp::Write => MemoryAccessType::Write,
                },
                address: cycle.address(),
                value: cycle.value(),
            };
            let actual = log[i];
            if actual != expected {
                proof {
                    lemma_first_wrong_access(
                        log@,
                        test_case.cycles@,
                        (i + 1) as nat,
                        test_case.cycles@.len(),
                    );
                }
                return Some(Mismatch::Access { index: i, expected, actual });
            }
            i += 1;
        }
    }
    if cpu.pc != test_case.last.pc {
        return Some(Mismatch::Pc { expected: test_case.last.pc, actual: cpu.pc });
    }
    if cpu.s != test_case.last.s {
        return Some(Mismatch::S { expected: test_case.last.s, actual: cpu.s });
    }
    if cpu.a != test_case.last.a {
        return Some(Mismatch::A { expected: test_case.last.a, actual: cpu.a });
    }
    if cpu.x != test_case.last.x {
        return Some(Mismatch::X { expected: test_case.last.x, actual: cpu.x });
    }
    if cpu.y != test_case.last.y {
        return Some(Mismatch::Y { expected: test_case.last.y, actual: cpu.y });
    }
    let p = cpu.p.into_bits();
    if p != test_case.last.p {
        return Some(Mismatch::P { expected: test_case.last.p, actual: p });
    }
    let mut i: usize = 0;
    while i < test_case.last.ram.len()
        invariant
            i <= test_case.last.ram@.len(),
            cpu.wf(),
            cpu.memory@.inner == after.memory.inner,
            cycles as int == test_case.cycles@.len(),
            step::<LoggingMemory<Contiguous<Ram>>>(prepared(test_case.initial)) == (Stepped {
                state: after,
                cycles,
            }),
            strict ==> check_accesses(after.memory.log, test_case.cycles@) is None,
            after.pc == test_case.last.pc,
            after.s == test_case.last.s,
            after.a == test_case.last.a,
            after.x == test_case.last.x,
            after.y == test_case.last.y,
            after.p.bits() == test_case.last.p,
            first_wrong_byte(after.memory.inner, test_case.last.ram@, i as nat) is None,
        decreases test_case.last.ram@.len() - i,
    {
        let ram_value = &test_case.last.ram[i];
        let actual = cpu.memory.read_u8(ram_value.address());
        if actual != ram_value.value() {
            proof {
                lemma_first_wrong_byte(
                    after.memory.inner,
                    test_case.last.ram@,
                    (i + 1) as nat,
                    test_case.last.ram@.len(),
                );
            }
            return Some(
                Mismatch::Ram {
                    address: ram_value.address(),
                    expected: ram_value.value(),
                    actual,
                },
            );
        }
        i += 1;
    }
    None
}

/// A wrong access among the first `count` cycles is the first wrong access
/// among all of them.
proof fn lemma_first_wrong_access(
    log: Seq<MemoryAccess>,
    cycles: Seq<Cycle>,
    count: nat,
    whole: nat,
)
    requires
        count <= whole,
        first_wrong_access(log, cycles, count) is Some,
    ensures
        first_wrong_access(log, cycles, whole) == first_wrong_access(log, cycles, count),
    decreases whole,
{
    if count < whole {
        lemma_first_wrong_access(log, cycles, count, (whole - 1) as nat);
    }
}

/// A wrong byte among the first `count` listed is the first wrong byte
/// among all of them.
proof fn lemma_first_wrong_byte(memory: Seq<u8>, ram: Seq<RamValue>, count: nat, whole: nat)
    requires
        count <= whole,
        first_wrong_byte(memory, ram, count) is Some,
    ensures
        first_wrong_byte(memory, ram, whole) == first_wrong_byte(memory, ram, count),
    decreases whole,
{
    if count < whole {
        lemma_first_wrong_byte(memory, ram, count, (whole - 1) as nat);
    }
}

} // verus!
