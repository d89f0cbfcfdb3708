use crate::interrupt::Interrupt;
use crate::memory::Memory;
use vstd::prelude::*;

verus! {

pub const UART1_BASE: u16 = 0xD480;

pub const UART2_BASE: u16 = 0xD4A0;

/// Control register
pub const UART_CNTL: u16 = 0;

/// Command register
pub const UART_CMND: u16 = 1;

/// Status register
pub const UART_STAT: u16 = 2;

/// Receive ring buffer head register
pub const UART_RXHD: u16 = 4;

/// Receive ring buffer tail register
pub const UART_RXTL: u16 = 5;

/// Transmit ring buffer head register
pub const UART_TXHD: u16 = 6;

/// Transmit ring buffer tail register
pub const UART_TXTL: u16 = 7;

/// Ring buffer size
pub const UART_BUFFER_SIZE: u16 = 8;

/// Receive ring buffer (8 bytes)
pub const UART_RXBF: u16 = 8;

/// Transmit ring buffer (8 bytes)
pub const UART_TXBF: u16 = 16;

/// End location
pub const UART_END: u16 = 24;

/// The state of a ring buffer of eight bytes: the bytes, and the indices
/// where the next byte is written (`head`) and read (`tail`).
pub struct Ring {
    pub buf: Seq<u8>,
    pub head: u8,
    pub tail: u8,
}

impl Ring {
    /// Eight bytes, and both indices within them.
    pub open spec fn wf(self) -> bool {
        self.buf.len() == 8 && self.head < 8 && self.tail < 8
    }

    /// The empty buffer of zero bytes.
    pub open spec fn empty() -> Ring {
        Ring { buf: Seq::new(8, |i: int| 0u8), head: 0, tail: 0 }
    }

    /// The number of bytes written and not yet read.
    pub open spec fn len(self) -> int {
        if self.head >= self.tail {
            self.head - self.tail
        } else {
            self.head - self.tail + 8
        }
    }

    pub open spec fn is_empty(self) -> bool {
        self.head == self.tail
    }

    /// Full when the head stands right before the tail: one slot is never
    /// used.
    pub open spec fn is_full(self) -> bool {
        (self.head + 1) % 8 == self.tail as int
    }

    /// The bytes written and not yet read, oldest first.
    pub open spec fn pending(self) -> Seq<u8> {
        Seq::new(self.len() as nat, |i: int| self.buf[(self.tail + i) % 8])
    }

    /// The buffer after a byte is written at the head; unchanged when full.
    pub open spec fn push(self, value: u8) -> Ring {
        if self.is_full() {
            self
        } else {
            Ring {
                buf: self.buf.update(self.head as int, value),
                head: ((self.head + 1) % 8) as u8,
                ..self
            }
        }
    }

    /// The buffer after the byte at the tail is read; unchanged when empty.
    pub open spec fn pop(self) -> Ring {
        if self.is_empty() {
            self
        } else {
            Ring { tail: ((self.tail + 1) % 8) as u8, ..self }
        }
    }

    /// The byte that `pop` reads.
    pub open spec fn front(self) -> Option<u8> {
        if self.is_empty() {
            None
        } else {
            Some(self.buf[self.tail as int])
        }
    }

    pub open spec fn with_head(self, head: u8) -> Ring {
        Ring { head: head % 8, ..self }
    }

    pub open spec fn with_tail(self, tail: u8) -> Ring {
        Ring { tail: tail % 8, ..self }
    }

    pub open spec fn get(self, index: u8) -> u8 {
        self.buf[index as int % 8]
    }

    pub open spec fn set(self, index: u8, value: u8) -> Ring {
        Ring { buf: self.buf.update(index as int % 8, value), ..self }
    }

    /// The tail moved up to the head: everything pending is read.
    pub open spec fn drained(self) -> Ring {
        Ring { tail: self.head, ..self }
    }

    /// A write appends to the pending bytes, a read takes the oldest, and
    /// seven bytes at most are pending.
    pub proof fn lemma_queue(self, value: u8)
        requires
            self.wf(),
        ensures
            0 <= self.len() <= 7,
            self.is_full() <==> self.len() == 7,
            self.is_empty() <==> self.len() == 0,
            self.push(value).wf() && self.pop().wf(),
            !self.is_full() ==> self.push(value).pending() == self.pending().push(value),
            !self.is_empty() ==> self.front() == Some(self.pending()[0]) && self.pop().pending()
                == self.pending().skip(1),
    {
        if !self.is_full() {
            assert(self.push(value).pending() =~= self.pending().push(value));
        }
        if !self.is_empty() {
            assert(self.pop().pending() =~= self.pending().skip(1));
        }
    }
}

/// A ring buffer of eight bytes, of which seven can be pending.
#[derive(Debug, Copy, Clone)]
pub struct RingBuf {
    buf: [u8; 8],
    head: u8,
    tail: u8,
}

impl View for RingBuf {
    type V = Ring;

    closed spec fn view(&self) -> Ring {
        Ring { buf: self.buf@, head: self.head, tail: self.tail }
    }
}

impl RingBuf {
    #[verifier::type_invariant]
    spec fn inv(self) -> bool {
        self.head < 8 && self.tail < 8
    }

    pub fn new() -> (ring: Self)
        ensures
            ring@ == Ring::empty(),
    {
        let ring = Self { buf: [0; 8], head: 0, tail: 0 };
        assert(ring@.buf =~= Ring::empty().buf);
        ring
    }

    pub fn capacity(&self) -> (capacity: u8)
        ensures
            capacity == 8,
    {
        8
    }

    /// The number of pending bytes.
    pub fn len(&self) -> (len: u8)
        ensures
            len == self@.len(),
            self@.wf(),
    {
        proof {
            use_type_invariant(self);
        }
        self.head.wrapping_sub(self.tail) % self.capacity()
    }

    pub fn is_empty(&self) -> (empty: bool)
        ensures
            empty == self@.is_empty(),
    {
        self.head == self.tail
    }

    pub fn is_full(&self) -> (full: bool)
        ensures
            full == self@.is_full(),
    {
        self.head.wrapping_add(1) % self.capacity() == self.tail
    }

    pub fn head(&self) -> (head: u8)
        ensures
            head == self@.head,
            head < 8,
    {
        proof {
            use_type_invariant(self);
        }
        self.head
    }

    /// Moves the head to `head` modulo the capacity.
    pub fn set_head(&mut self, head: u8)
        ensures
            final(self)@ == old(self)@.with_head(head),
    {
        proof {
            use_type_invariant(&*self);
        }
        self.head = head % self.capacity();
    }

    pub fn tail(&self) -> (tail: u8)
        ensures
            tail == self@.tail,
            tail < 8,
    {
        proof {
            use_type_invariant(self);
        }
        self.tail
    }

    /// Moves the tail to `tail` modulo the capacity.
    pub fn set_tail(&mut self, tail: u8)
        ensures
            final(self)@ == old(self)@.with_tail(tail),
    {
        proof {
            use_type_invariant(&*self);
        }
        self.tail = tail % self.capacity();
    }

    /// Writes a byte at the head. Returns false, and writes nothing, when
    /// the buffer is full.
    pub fn push(&mut self, value: u8) -> (written: bool)
        ensures
            written == !old(self)@.is_full(),
            final(self)@ == old(self)@.push(value),
    {
        proof {
            use_type_invariant(&*self);
        }
        if self.is_full() {
            return false;
        }
        self.buf[self.head as usize] = value;
        self.head = self.head.wrapping_add(1) % self.capacity();
        true
    }

    /// Reads the byte at the tail. Returns `None` when the buffer is empty.
    pub fn pop(&mut self) -> (value: Option<u8>)
        ensures
            value == old(self)@.front(),
            final(self)@ == old(self)@.pop(),
    {
        proof {
            use_type_invariant(&*self);
        }
        if self.is_empty() {
            return None;
        }
        let value = self.buf[self.tail as usize];
        self.tail = self.tail.wrapping_add(1) % self.capacity();
        Some(value)
    }

    /// The byte at `index` modulo the capacity.
    pub fn get(&self, index: u8) -> (value: u8)
        ensures
            value == self@.get(index),
    {
        self.buf[(index % self.capacity()) as usize]
    }

    /// Stores a byte at `index` modulo the capacity.
    pub fn set(&mut self, index: u8, value: u8)
        ensures
            final(self)@ == old(self)@.set(index, value),
    {
        proof {
            use_type_invariant(&*self);
        }
        let capacity = self.capacity();
        self.buf[(index % capacity) as usize] = value;
    }
}

impl Default for RingBuf {
    fn default() -> (ring: Self)
        ensures
            ring@ == Ring::empty(),
    {
        Self::new()
    }
}

/// The bytes that the host feeds into a receive buffer, and how many of
/// them have been handed out.
#[derive(Debug)]
pub struct UartSource {
    source: Vec<u8>,
    pos: usize,
}

/// The state of a `UartSource`.
pub struct Feed {
    pub bytes: Seq<u8>,
    pub pos: nat,
}

impl View for UartSource {
    type V = Feed;

    closed spec fn view(&self) -> Feed {
        Feed { bytes: self.source@, pos: self.pos as nat }
    }
}

impl UartSource {
    #[verifier::type_invariant]
    spec fn inv(self) -> bool {
        self.pos <= self.source@.len()
    }

    /// A source without bytes.
    pub fn empty() -> (source: Self)
        ensures
            source@ == (Feed { bytes: Seq::empty(), pos: 0 }),
    {
        Self { source: Vec::new(), pos: 0 }
    }

    /// A source that hands out `source` from its first byte on.
    pub fn new(source: Vec<u8>) -> (feed: Self)
        ensures
            feed@ == (Feed { bytes: source@, pos: 0 }),
    {
        Self { source, pos: 0 }
    }

    /// The number of bytes handed out.
    pub fn pos(&self) -> (pos: usize)
        ensures
            pos == self@.pos,
            pos <= self@.bytes.len(),
    {
        proof {
            use_type_invariant(self);
        }
        self.pos
    }

    /// The number of bytes, handed out or not.
    pub fn len(&self) -> (len: usize)
        ensures
            len == self@.bytes.len(),
    {
        self.source.len()
    }

    pub fn is_empty(&self) -> (empty: bool)
        ensures
            empty == (self@.bytes.len() == 0),
    {
        self.source.len() == 0
    }

    /// Whether a byte is left to hand out.
    pub fn has_next(&self) -> (more: bool)
        ensures
            more == (self@.pos < self@.bytes.len()),
    {
        self.pos < self.source.len()
    }

    /// Hands out the next byte, or `None` when none is left.
    pub fn read(&mut self) -> (value: Option<u8>)
        ensures
            final(self)@.bytes == old(self)@.bytes,
            old(self)@.pos < old(self)@.bytes.len() ==> value == Some(
                old(self)@.bytes[old(self)@.pos as int],
            ) && final(self)@.pos == old(self)@.pos + 1,
            old(self)@.pos >= old(self)@.bytes.len() ==> value is None && final(self)@.pos == old(
                self,
            )@.pos,
    {
        proof {
            use_type_invariant(&*self);
        }
        if self.pos < self.source.len() {
            let value = self.source[self.pos];
            self.pos += 1;
            Some(value)
        } else {
            None
        }
    }

    /// Starts over from the first byte.
    pub fn reset(&mut self)
        ensures
            final(self)@ == (Feed { bytes: old(self)@.bytes, pos: 0 }),
    {
        self.pos = 0;
    }
}

/// The state of a UART: its three registers, its two ring buffers, and what
/// the host still has to feed.
pub struct UartState {
    pub control: u8,
    pub command: u8,
    pub status: u8,
    pub receive: Ring,
    pub transmit: Ring,
    pub feed: Feed,
}

/// The receive buffer and the feed after the host has written bytes of the
/// feed until the buffer was full or the feed exhausted.
pub open spec fn fill(receive: Ring, feed: Feed) -> (Ring, Feed)
    decreases 8 - receive.len(),
    when receive.wf()
{
    if receive.is_full() || feed.pos >= feed.bytes.len() {
        (receive, feed)
    } else {
        fill(receive.push(feed.bytes[feed.pos as int]), Feed { pos: feed.pos + 1, ..feed })
    }
}

impl UartState {
    /// Bit 0 of the command register enables the UART.
    pub open spec fn is_enabled(self) -> bool {
        self.command & 0x1 != 0
    }

    /// The status follows the enable bit: 0x40 while enabled; when disabled
    /// it is cleared, and the receive head and the transmit tail go to 0.
    pub open spec fn update_state(self) -> UartState {
        if self.is_enabled() {
            UartState { status: 0x40, ..self }
        } else {
            UartState {
                status: 0x0,
                receive: self.receive.with_head(0),
                transmit: self.transmit.with_tail(0),
                ..self
            }
        }
    }

    /// One tick of the clock: the status follows the enable bit; while
    /// enabled, everything pending in the transmit buffer is taken out and
    /// discarded, and the receive buffer is filled from the feed.
    pub open spec fn tick(self) -> UartState {
        let st = self.update_state();
        if st.is_enabled() {
            let filled = fill(st.receive, st.feed);
            UartState { transmit: st.transmit.drained(), receive: filled.0, feed: filled.1, ..st }
        } else {
            st
        }
    }

    /// The byte that the register at `address` reads as.
    pub open spec fn read(self, address: u16) -> u8 {
        if address == UART_CNTL {
            self.control
        } else if address == UART_CMND {
            self.command
        } else if address == UART_STAT {
            self.status
        } else if address == UART_RXHD {
            self.receive.head
        } else if address == UART_RXTL {
            self.receive.tail
        } else if address == UART_TXHD {
            self.transmit.head
        } else if address == UART_TXTL {
            self.transmit.tail
        } else if UART_RXBF <= address < UART_TXBF {
            self.receive.get((address - UART_RXBF) as u8)
        } else if UART_TXBF <= address < UART_END {
            self.transmit.get((address - UART_TXBF) as u8)
        } else {
            0
        }
    }

    /// The state after `value` is written to the register at `address`. The
    /// status register and the addresses outside the window ignore writes.
    pub open spec fn write(self, address: u16, value: u8) -> UartState {
        if address == UART_CNTL {
            UartState { control: value, ..self }
        } else if address == UART_CMND {
            UartState { command: value, ..self }
        } else if address == UART_RXHD {
            UartState { receive: self.receive.with_head(value), ..self }
        } else if address == UART_RXTL {
            UartState { receive: self.receive.with_tail(value), ..self }
        } else if address == UART_TXHD {
            UartState { transmit: self.transmit.with_head(value), ..self }
        } else if address == UART_TXTL {
            UartState { transmit: self.transmit.with_tail(value), ..self }
        } else if UART_RXBF <= address < UART_TXBF {
            UartState { receive: self.receive.set((address - UART_RXBF) as u8, value), ..self }
        } else if UART_TXBF <= address < UART_END {
            UartState { transmit: self.transmit.set((address - UART_TXBF) as u8, value), ..self }
        } else {
            self
        }
    }
}

/// A UART with a receive and a transmit ring buffer behind a window of 24
/// registers.
#[derive(Debug)]
pub struct Uart {
    control: u8,
    command: u8,
    status: u8,
    receive_buffer: RingBuf,
    transmit_buffer: RingBuf,
    source: UartSource,
}

impl View for Uart {
    type V = UartState;

    closed spec fn view(&self) -> UartState {
        UartState {
            control: self.control,
            command: self.command,
            status: self.status,
            receive: self.receive_buffer@,
            transmit: self.transmit_buffer@,
            feed: self.source@,
        }
    }
}

impl Uart {
    /// A disabled UART with empty buffers, fed from `source`.
    pub fn new(source: UartSource) -> (uart: Self)
        ensures
            uart@ == (UartState {
                control: 0,
                command: 0,
                status: 0,
                receive: Ring::empty(),
                transmit: Ring::empty(),
                feed: source@,
            }),
    {
        Self {
            control: 0,
            command: 0,
            status: 0,
            receive_buffer: RingBuf::new(),
            transmit_buffer: RingBuf::new(),
            source,
        }
    }

    pub fn is_enabled(&self) -> (enabled: bool)
        ensures
            enabled == self@.is_enabled(),
    {
        self.command & 0x1 != 0
    }

    /// Lets the status follow the enable bit.
    pub fn update_state(&mut self)
        ensures
            final(self)@ == old(self)@.update_state(),
    {
        // set enable/disable status bit
        if self.command & 0x1 != 0 {
            // discard all errors and transmit/receive status
            self.status = 0x40;
        } else {
            self.status = 0x0;
            self.receive_buffer.set_head(0);
            self.transmit_buffer.set_tail(0);
        }
    }

    pub fn get_receive_buffer(&self) -> (ring: &RingBuf)
        ensures
            ring@ == self@.receive,
    {
        &self.receive_buffer
    }

    pub fn get_transmit_buffer(&self) -> (ring: &RingBuf)
        ensures
            ring@ == self@.transmit,
    {
        &self.transmit_buffer
    }
}

impl Memory for Uart {
    open spec fn wf(&self) -> bool {
        true
    }

    open spec fn read_value(m: UartState, address: u16) -> u8 {
        m.read(address)
    }

    open spec fn read_effect(m: UartState, address: u16) -> UartState {
        m
    }

    open spec fn write_effect(m: UartState, address: u16, value: u8) -> UartState {
        m.write(address, value)
    }

    /// The UART is not wired to an interrupt line.
    open spec fn update_signal(m: UartState, cycle: usize) -> Interrupt {
        Interrupt { irq: false, nmi: false }
    }

    open spec fn update_effect(m: UartState, cycle: usize) -> UartState {
        m.tick()
    }

    fn read_u8(&mut self, address: u16) -> (value: u8) {
        if address == UART_CNTL {
            self.control
        } else if address == UART_CMND {
            self.command
        } else if address == UART_STAT {
            self.status
        } else if address == UART_RXHD {
            self.receive_buffer.head()
        } else if address == UART_RXTL {
            self.receive_buffer.tail()
        } else if address == UART_TXHD {
            self.transmit_buffer.head()
        } else if address == UART_TXTL {
            self.transmit_buffer.tail()
        } else if UART_RXBF <= address && address < UART_TXBF {
            self.receive_buffer.get((address - UART_RXBF) as u8)
        } else if UART_TXBF <= address && address < UART_END {
            self.transmit_buffer.get((address - UART_TXBF) as u8)
        } else {
            0
        }
    }

    fn write_u8(&mut self, address: u16, value: u8) {
        if address == UART_CNTL {
            self.control = value;
        } else if address == UART_CMND {
            self.command = value;
        } else if address == UART_STAT {
            // no-op
        } else if address == UART_RXHD {
            self.receive_buffer.set_head(value);
        } else if address == UART_RXTL {
            self.receive_buffer.set_tail(value);
        } else if address == UART_TXHD {
            self.transmit_buffer.set_head(value);
        } else if address == UART_TXTL {
            self.transmit_buffer.set_tail(value);
        } else if UART_RXBF <= address && address < UART_TXBF {
            self.receive_buffer.set((address - UART_RXBF) as u8, value);
        } else if UART_TXBF <= address && address < UART_END {
            self.transmit_buffer.set((address - UART_TXBF) as u8, value);
        }
    }

    fn update(&mut self, _cycle: usize) -> (signal: Interrupt) {
        self.update_state();
        if self.is_enabled() {
            // transmit
            let ghost transmit = self.transmit_buffer@;
            proof {
                use_type_invariant(&self.transmit_buffer);
                use_type_invariant(&self.receive_buffer);
                transmit.lemma_queue(0);
            }
            loop
                invariant
                    self.transmit_buffer@.wf(),
                    self.transmit_buffer@.buf == transmit.buf,
                    self.transmit_buffer@.head == transmit.head,
                    self@ == (UartState { transmit: self.transmit_buffer@, ..old(self)@.update_state() }),
                ensures
                    self.transmit_buffer@ == transmit.drained(),
                decreases self.transmit_buffer@.len(),
            {
                proof {
                    self.transmit_buffer@.lemma_queue(0);
                }
                if self.transmit_buffer.pop().is_none() {
                    break;
                }
            }

            // receive
            let ghost start = self@;
            loop
                invariant
                    self.receive_buffer@.wf(),
                    self@ == (UartState {
                        receive: self.receive_buffer@,
                        feed: self.source@,
                        ..start
                    }),
                    fill(self.receive_buffer@, self.source@) == fill(start.receive, start.feed),
                ensures
                    (self.receive_buffer@, self.source@) == fill(start.receive, start.feed),
                decreases 8 - self.receive_buffer@.len(),
            {
                proof {
                    self.receive_buffer@.lemma_queue(0);
                }
                if self.receive_buffer.is_full() {
                    break;
                }
                match self.source.read() {
                    Some(value) => {
                        proof {
                            self.receive_buffer@.lemma_queue(value);
                        }
                        self.receive_buffer.push(value);
                    },
                    None => {
                        break;
                    },
                }
            }
        }
        Interrupt::none()
    }
}

} // verus!
