use crate::interrupt::Interrupt;
use crate::memory::Memory;
use vstd::prelude::*;

verus! {

/// A small memory for short programs: the zero page, the stack page and the
/// last page in full, and between them the program, from address 0x0200
/// on. Behind the program memory reads as 0 and drops writes.
#[derive(Debug)]
pub struct Sparse {
    pub zeropage: [u8; 0x100],
    pub stack: [u8; 0x100],
    pub last_page: [u8; 0x100],
    pub memory: Vec<u8>,
}

/// The state of a `Sparse` memory.
pub struct SparseState {
    pub zeropage: Seq<u8>,
    pub stack: Seq<u8>,
    pub last_page: Seq<u8>,
    pub memory: Seq<u8>,
}

impl View for Sparse {
    type V = SparseState;

    open spec fn view(&self) -> SparseState {
        SparseState {
            zeropage: self.zeropage@,
            stack: self.stack@,
            last_page: self.last_page@,
            memory: self.memory@,
        }
    }
}

impl SparseState {
    /// Three pages of 256 bytes each.
    pub open spec fn wf(self) -> bool {
        self.zeropage.len() == 0x100 && self.stack.len() == 0x100 && self.last_page.len()
            == 0x100
    }

    pub open spec fn read(self, address: u16) -> u8 {
        if address < 0x0100 {
            self.zeropage[address as int]
        } else if address < 0x0200 {
            self.stack[address - 0x0100]
        } else if address >= 0xFF00 {
            self.last_page[address - 0xFF00]
        } else if address - 0x0200 < self.memory.len() {
            self.memory[address - 0x0200]
        } else {
            0
        }
    }

    pub open spec fn write(self, address: u16, value: u8) -> SparseState {
        if address < 0x0100 {
            SparseState { zeropage: self.zeropage.update(address as int, value), ..self }
        } else if address < 0x0200 {
            SparseState { stack: self.stack.update(address - 0x0100, value), ..self }
        } else if address >= 0xFF00 {
            SparseState { last_page: self.last_page.update(address - 0xFF00, value), ..self }
        } else if address - 0x0200 < self.memory.len() {
            SparseState { memory: self.memory.update(address - 0x0200, value), ..self }
        } else {
            self
        }
    }
}

impl Default for Sparse {
    fn default() -> (memory: Self)
        ensures
            memory@.zeropage == Seq::new(0x100, |i: int| 0u8),
            memory@.stack == Seq::new(0x100, |i: int| 0u8),
            memory@.last_page == Seq::new(0x100, |i: int| 0u8),
            memory@.memory == Seq::<u8>::empty(),
    {
        let memory = Self {
            zeropage: [0; 0x100],
            stack: [0; 0x100],
            last_page: [0; 0x100],
            memory: Vec::new(),
        };
        assert(memory@.zeropage =~= Seq::new(0x100, |i: int| 0u8));
        assert(memory@.stack =~= Seq::new(0x100, |i: int| 0u8));
        assert(memory@.last_page =~= Seq::new(0x100, |i: int| 0u8));
        memory
    }
}

impl Sparse {
    /// The most bytes that fit between the stack page and the last page.
    pub const MAX_LEN: usize = 0xFD00;

    /// A memory with `data`, cut to `MAX_LEN` bytes, placed at 0x0200 and
    /// the reset vector pointing there.
    pub fn from_bytes(data: &[u8]) -> (memory: Self)
        ensures
            memory@.memory == data@.take(
                if data@.len() < Self::MAX_LEN {
                    data@.len() as int
                } else {
                    Self::MAX_LEN as int
                },
            ),
            memory@.zeropage == Seq::new(0x100, |i: int| 0u8),
            memory@.stack == Seq::new(0x100, |i: int| 0u8),
            memory@.last_page == Seq::new(0x100, |i: int| 0u8).update(0xFC, 0x00u8).update(
                0xFD,
                0x02u8,
            ),
    {
        let mut m = Self::default();
        let len = if data.len() < Self::MAX_LEN {
            data.len()
        } else {
            Self::MAX_LEN
        };
        let mut i: usize = 0;
        while i < len
            invariant
                i <= len,
                len <= data@.len(),
                m.memory@ == data@.take(i as int),
                m@.zeropage == Seq::new(0x100, |i: int| 0u8),
                m@.stack == Seq::new(0x100, |i: int| 0u8),
                m@.last_page == Seq::new(0x100, |i: int| 0u8),
            decreases len - i,
        {
            m.memory.push(data[i]);
            assert(m.memory@ =~= data@.take(i + 1));
            i += 1;
        }
        m.write_u16(0xFFFC, 0x0200);
        m
    }
}

impl Memory for Sparse {
    open spec fn wf(&self) -> bool {
        true
    }

    open spec fn read_value(m: SparseState, address: u16) -> u8 {
        m.read(address)
    }

    open spec fn read_effect(m: SparseState, address: u16) -> SparseState {
        m
    }

    open spec fn write_effect(m: SparseState, address: u16, value: u8) -> SparseState {
        m.write(address, value)
    }

    open spec fn update_signal(m: SparseState, cycle: usize) -> Interrupt {
        Interrupt { irq: false, nmi: false }
    }

    open spec fn update_effect(m: SparseState, cycle: usize) -> SparseState {
        m
    }

    fn read_u8(&mut self, address: u16) -> (value: u8) {
        if address < 0x0100 {
            self.zeropage[address as usize]
        } else if address < 0x0200 {
            self.stack[(address - 0x0100) as usize]
        } else if address >= 0xFF00 {
            self.last_page[(address - 0xFF00) as usize]
        } else if ((address - 0x0200) as usize) < self.memory.len() {
            self.memory[(address - 0x0200) as usize]
        } else {
            0
        }
    }

    fn write_u8(&mut self, address: u16, value: u8) {
        if address < 0x0100 {
            self.zeropage[address as usize] = value;
        } else if address < 0x0200 {
            self.stack[(address - 0x0100) as usize] = value;
        } else if address >= 0xFF00 {
            self.last_page[(address - 0xFF00) as usize] = value;
        } else if ((address - 0x0200) as usize) < self.memory.len() {
            self.memory[(address - 0x0200) as usize] = value;
        }
    }

    fn update(&mut self, _cycle: usize) -> (signal: Interrupt) {
        Interrupt::none()
    }
}

} // verus!
