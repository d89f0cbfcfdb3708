use crate::interrupt::Interrupt;
use crate::memory::Memory;
use vstd::prelude::*;

verus! {

/// The direction of a bus access.
#[derive(Debug, Copy, Clone, PartialEq, Eq, Structural)]
pub enum MemoryAccessType {
    Read,
    Write,
}

/// One access to the bus: its direction, its address and the byte that was
/// read or written.
#[derive(Debug, Copy, Clone, PartialEq, Eq, Structural)]
pub struct MemoryAccess {
    pub access_type: MemoryAccessType,
    pub address: u16,
    pub value: u8,
}

impl MemoryAccess {
    /// The record of a read.
    pub fn read(address: u16, value: u8) -> (access: Self)
        ensures
            access == (MemoryAccess { access_type: MemoryAccessType::Read, address, value }),
    {
        Self { access_type: MemoryAccessType::Read, address, value }
    }

    /// The record of a write.
    pub fn write(address: u16, value: u8) -> (access: Self)
        ensures
            access == (MemoryAccess { access_type: MemoryAccessType::Write, address, value }),
    {
        Self { access_type: MemoryAccessType::Write, address, value }
    }
}

/// A bus that records every access to the bus it wraps.
#[derive(Debug)]
pub struct LoggingMemory<M> {
    pub inner: M,
    pub log: Vec<MemoryAccess>,
}

/// The state of a logging bus: the state of the wrapped bus and the
/// accesses so far, oldest first.
pub struct Logged<V> {
    pub inner: V,
    pub log: Seq<MemoryAccess>,
}

impl<M: Memory> View for LoggingMemory<M> {
    type V = Logged<M::V>;

    open spec fn view(&self) -> Logged<M::V> {
        Logged { inner: self.inner@, log: self.log@ }
    }
}

impl<M: Memory> LoggingMemory<M> {
    /// Wraps `memory`, with an empty log.
    pub fn new(memory: M) -> (logging: Self)
        ensures
            logging@ == (Logged { inner: memory@, log: Seq::empty() }),
            logging.wf() == memory.wf(),
    {
        Self { inner: memory, log: Vec::new() }
    }

    /// The accesses since the log was last reset, oldest first.
    pub fn log(&self) -> (log: &[MemoryAccess])
        ensures
            log@ == self@.log,
    {
        self.log.as_slice()
    }

    /// Forgets the accesses so far.
    pub fn reset_log(&mut self)
        ensures
            final(self)@ == (Logged { inner: old(self)@.inner, log: Seq::empty() }),
            final(self).wf() == old(self).wf(),
    {
        self.log.clear();
    }
}

impl<M: Memory> Memory for LoggingMemory<M> {
    open spec fn wf(&self) -> bool {
        self.inner.wf()
    }

    open spec fn read_value(m: Logged<M::V>, address: u16) -> u8 {
        M::read_value(m.inner, address)
    }

    /// A read is passed on and recorded with the byte it returned.
    open spec fn read_effect(m: Logged<M::V>, address: u16) -> Logged<M::V> {
        Logged {
            inner: M::read_effect(m.inner, address),
            log: m.log.push(
                MemoryAccess {
                    access_type: MemoryAccessType::Read,
                    address,
                    value: M::read_value(m.inner, address),
                },
            ),
        }
    }

    /// A write is passed on and recorded.
    open spec fn write_effect(m: Logged<M::V>, address: u16, value: u8) -> Logged<M::V> {
        Logged {
            inner: M::write_effect(m.inner, address, value),
            log: m.log.push(MemoryAccess { access_type: MemoryAccessType::Write, address, value }),
        }
    }

    open spec fn update_signal(m: Logged<M::V>, cycle: usize) -> Interrupt {
        M::update_signal(m.inner, cycle)
    }

    /// The clock hook is passed on and not recorded.
    open spec fn update_effect(m: Logged<M::V>, cycle: usize) -> Logged<M::V> {
        Logged { inner: M::update_effect(m.inner, cycle), log: m.log }
    }

    fn read_u8(&mut self, address: u16) -> (value: u8) {
        let value = self.inner.read_u8(address);
        self.log.push(MemoryAccess::read(address, value));
        value
    }

    fn write_u8(&mut self, address: u16, value: u8) {
        self.inner.write_u8(address, value);
        self.log.push(MemoryAccess::write(address, value));
    }

    fn update(&mut self, cycle: usize) -> (signal: Interrupt) {
        self.inner.update(cycle)
    }
}

} // verus!
