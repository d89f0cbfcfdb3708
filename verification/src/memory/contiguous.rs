use crate::interrupt::Interrupt;
use crate::memory::Memory;
use crate::memory::{high_byte, low_byte, split_word};
use std::marker::PhantomData;
use vstd::prelude::*;

verus! {

/// Whether a contiguous region accepts writes from the bus.
pub trait MemoryMode {
    spec fn writeable() -> bool;

    fn is_writeable() -> (accepts: bool)
        ensures
            accepts == Self::writeable(),
    ;
}

/// Marker of a region that accepts writes.
#[derive(Debug)]
pub struct Ram;

/// Marker of a region that discards writes.
#[derive(Debug)]
pub struct Rom;

impl MemoryMode for Ram {
    open spec fn writeable() -> bool {
        true
    }

    fn is_writeable() -> (accepts: bool) {
        true
    }
}

impl MemoryMode for Rom {
    open spec fn writeable() -> bool {
        false
    }

    fn is_writeable() -> (accepts: bool) {
        false
    }
}

/// A byte array of fixed size. An address selects the byte at
/// `address mod size`.
#[derive(Debug)]
pub struct Contiguous<M = Ram> {
    pub memory: Vec<u8>,
    pub mode: PhantomData<M>,
}

impl<M> View for Contiguous<M> {
    type V = Seq<u8>;

    open spec fn view(&self) -> Seq<u8> {
        self.memory@
    }
}

/// `bytes` with `data` laid over it from index `start` on; what would fall
/// behind the end of `bytes` is left out.
pub open spec fn overlay(bytes: Seq<u8>, start: int, data: Seq<u8>) -> Seq<u8> {
    Seq::new(
        bytes.len(),
        |i: int|
            if start <= i < start + data.len() {
                data[i - start]
            } else {
                bytes[i]
            },
    )
}

/// `size` zero bytes.
pub open spec fn zeroed(size: nat) -> Seq<u8> {
    Seq::new(size, |i: int| 0u8)
}

impl Contiguous<Ram> {
    /// A writeable region of `size` zero bytes.
    pub fn new_ram(size: usize) -> (region: Self)
        ensures
            region@ == zeroed(size as nat),
            region.wf() <==> size > 0,
    {
        Self::new(size)
    }
}

impl Contiguous<Rom> {
    /// A read-only region of `size` zero bytes.
    pub fn new_rom(size: usize) -> (region: Self)
        ensures
            region@ == zeroed(size as nat),
            region.wf() <==> size > 0,
    {
        Self::new(size)
    }
}

impl<M: MemoryMode> Contiguous<M> {
    /// A region of `size` zero bytes.
    pub fn new(size: usize) -> (region: Self)
        ensures
            region@ == zeroed(size as nat),
            region.wf() <==> size > 0,
    {
        let region = Self { memory: vec![0u8; size], mode: PhantomData };
        assert(region@ =~= zeroed(size as nat));
        region
    }

    /// A region of `size` bytes that starts with `data`; what does not fit
    /// is left out.
    pub fn from_bytes(size: usize, data: &[u8]) -> (region: Self)
        ensures
            region@ == overlay(zeroed(size as nat), 0, data@),
            region.wf() <==> size > 0,
    {
        Self::from_bytes_at(size, data, 0)
    }

    /// A region of `size` bytes that holds `data` from `load_address` on;
    /// what does not fit is left out.
    pub fn from_bytes_at(size: usize, data: &[u8], load_address: u16) -> (region: Self)
        ensures
            region@ == overlay(zeroed(size as nat), load_address as int, data@),
            region.wf() <==> size > 0,
    {
        let mut memory = Self::new(size);
        memory.force_write_all(load_address, data);
        memory
    }

    /// Stores a byte at index `address`, whatever the mode of the region. An
    /// index behind the end stores nothing.
    pub fn force_write_u8(&mut self, address: u16, value: u8)
        ensures
            final(self)@ == overlay(old(self)@, address as int, seq![value]),
    {
        let data: [u8; 1] = [value];
        self.force_write_all(address, data.as_slice());
    }

    /// Stores a little-endian word at index `address`, whatever the mode of
    /// the region. A byte behind the end is not stored.
    pub fn force_write_u16(&mut self, address: u16, value: u16)
        ensures
            final(self)@ == overlay(
                old(self)@,
                address as int,
                seq![low_byte(value), high_byte(value)],
            ),
    {
        let (l, h) = split_word(value);
        let data: [u8; 2] = [l, h];
        assert(data@ =~= seq![low_byte(value), high_byte(value)]);
        self.force_write_all(address, data.as_slice());
    }

    /// Copies `data` into the region from index `address` on, whatever the
    /// mode of the region. What would fall behind the end is left out.
    pub fn force_write_all(&mut self, address: u16, data: &[u8])
        ensures
            final(self)@ == overlay(old(self)@, address as int, data@),
    {
        let size = self.memory.len();
        let start = address as usize;
        let remaining = if size > start {
            size - start
        } else {
            0
        };
        let to_copy = if data.len() < remaining {
            data.len()
        } else {
            remaining
        };
        let mut i: usize = 0;
        while i < to_copy
            invariant
                i <= to_copy,
                to_copy <= data.len(),
                to_copy <= remaining,
                remaining == if size > start { size - start } else { 0 },
                self.memory.len() == size,
                size == old(self)@.len(),
                start == address,
                forall|k: int|
                    0 <= k < size ==> self.memory@[k] == if start <= k < start + i {
                        data@[k - start]
                    } else {
                        old(self)@[k]
                    },
            decreases to_copy - i,
        {
            self.memory[start + i] = data[i];
            i += 1;
        }
        assert(self@ =~= overlay(old(self)@, address as int, data@));
    }
}

impl<M: MemoryMode> Memory for Contiguous<M> {
    /// Reads wrap around the size, so the region must not be empty.
    open spec fn wf(&self) -> bool {
        self.memory@.len() > 0
    }

    open spec fn read_value(m: Seq<u8>, address: u16) -> u8 {
        m[address as int % m.len() as int]
    }

    open spec fn read_effect(m: Seq<u8>, address: u16) -> Seq<u8> {
        m
    }

    open spec fn write_effect(m: Seq<u8>, address: u16, value: u8) -> Seq<u8> {
        if M::writeable() {
            m.update(address as int % m.len() as int, value)
        } else {
            m
        }
    }

    open spec fn update_signal(m: Seq<u8>, cycle: usize) -> Interrupt {
        Interrupt { irq: false, nmi: false }
    }

    open spec fn update_effect(m: Seq<u8>, cycle: usize) -> Seq<u8> {
        m
    }

    fn read_u8(&mut self, address: u16) -> (value: u8) {
        self.memory[address as usize % self.memory.len()]
    }

    fn write_u8(&mut self, address: u16, value: u8) {
        if M::is_writeable() {
            let index = address as usize % self.memory.len();
            self.memory[index] = value;
        }
    }

    fn update(&mut self, _cycle: usize) -> (signal: Interrupt) {
        Interrupt::none()
    }
}

} // verus!
