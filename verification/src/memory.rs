use crate::interrupt::Interrupt;
use vstd::prelude::*;

pub mod contiguous;
pub mod logging;
pub mod mapped;
pub mod sparse;
pub mod zero;

verus! {

/// The 16-bit word with low byte `low` and high byte `high`.
pub open spec fn word(low: u8, high: u8) -> u16 {
    (high as int * 256 + low as int) as u16
}

/// The low byte of a word.
pub open spec fn low_byte(value: u16) -> u8 {
    (value % 256) as u8
}

/// The high byte of a word.
pub open spec fn high_byte(value: u16) -> u8 {
    (value / 256) as u8
}

/// `address + 1` modulo 65536.
pub open spec fn next_address(address: u16) -> u16 {
    if address == 0xFFFF {
        0
    } else {
        (address + 1) as u16
    }
}

/// `address + 1` modulo 256: the successor that stays in the zero page.
pub open spec fn next_zero_page(address: u8) -> u8 {
    if address == 0xFF {
        0
    } else {
        (address + 1) as u8
    }
}

/// Joins two bytes into a little-endian word.
pub fn make_word(low: u8, high: u8) -> (value: u16)
    ensures
        value == word(low, high),
{
    (high as u16) * 256 + (low as u16)
}

/// Splits a word into its low and high byte.
pub fn split_word(value: u16) -> (bytes: (u8, u8))
    ensures
        bytes.0 == low_byte(value),
        bytes.1 == high_byte(value),
        word(bytes.0, bytes.1) == value,
{
    ((value % 256) as u8, (value / 256) as u8)
}

/// Anything the processor can transact against: a byte-addressed bus with a
/// clock hook.
///
/// The view of an implementor is its mathematical state. What a read returns
/// and how each operation changes the state are given by the spec functions
/// `read_value`, `read_effect`, `write_effect`, `update_signal` and
/// `update_effect`; the executable methods are bound to them.
pub trait Memory: View + Sized {
    /// Validity of the concrete representation.
    spec fn wf(&self) -> bool;

    /// The byte that a read of `address` returns in state `m`.
    spec fn read_value(m: Self::V, address: u16) -> u8;

    /// The state after a read of `address` in state `m`.
    spec fn read_effect(m: Self::V, address: u16) -> Self::V;

    /// The state after writing `value` to `address` in state `m`.
    spec fn write_effect(m: Self::V, address: u16, value: u8) -> Self::V;

    /// The interrupt lines that the clock hook reports at `cycle`.
    spec fn update_signal(m: Self::V, cycle: usize) -> Interrupt;

    /// The state after the clock hook ran at `cycle`.
    spec fn update_effect(m: Self::V, cycle: usize) -> Self::V;

    fn read_u8(&mut self, address: u16) -> (value: u8)
        requires
            old(self).wf(),
        ensures
            final(self).wf(),
            value == Self::read_value(old(self)@, address),
            final(self)@ == Self::read_effect(old(self)@, address),
    ;

    fn write_u8(&mut self, address: u16, value: u8)
        requires
            old(self).wf(),
        ensures
            final(self).wf(),
            final(self)@ == Self::write_effect(old(self)@, address, value),
    ;

    /// Advances the device clock to `cycle` and reports pending interrupts.
    fn update(&mut self, cycle: usize) -> (signal: Interrupt)
        requires
            old(self).wf(),
        ensures
            final(self).wf(),
            signal == Self::update_signal(old(self)@, cycle),
            final(self)@ == Self::update_effect(old(self)@, cycle),
    ;

    /// Reads one byte of the zero page.
    fn read_u8_zp(&mut self, address: u8) -> (value: u8)
        requires
            old(self).wf(),
        ensures
            final(self).wf(),
            value == Self::read_value(old(self)@, address as u16),
            final(self)@ == Self::read_effect(old(self)@, address as u16),
    {
        self.read_u8(address as u16)
    }

    /// Reads a little-endian word: the low byte at `address`, then the high
    /// byte at `address + 1` modulo 65536.
    fn read_u16(&mut self, address: u16) -> (value: u16)
        requires
            old(self).wf(),
        ensures
            final(self).wf(),
            value == word(
                Self::read_value(old(self)@, address),
                Self::read_value(Self::read_effect(old(self)@, address), next_address(address)),
            ),
            final(self)@ == Self::read_effect(
                Self::read_effect(old(self)@, address),
                next_address(address),
            ),
    {
        let l = self.read_u8(address);
        let h = self.read_u8(address.wrapping_add(1));
        make_word(l, h)
    }

    /// Reads a little-endian word whose two bytes both lie in the zero page:
    /// the high byte comes from `address + 1` modulo 256.
    fn read_u16_zp(&mut self, address: u8) -> (value: u16)
        requires
            old(self).wf(),
        ensures
            final(self).wf(),
            value == word(
                Self::read_value(old(self)@, address as u16),
                Self::read_value(
                    Self::read_effect(old(self)@, address as u16),
                    next_zero_page(address) as u16,
                ),
            ),
            final(self)@ == Self::read_effect(
                Self::read_effect(old(self)@, address as u16),
                next_zero_page(address) as u16,
            ),
    {
        let l = self.read_u8_zp(address);
        let h = self.read_u8_zp(address.wrapping_add(1));
        make_word(l, h)
    }

    /// Writes one byte of the zero page.
    fn write_u8_zp(&mut self, address: u8, value: u8)
        requires
            old(self).wf(),
        ensures
            final(self).wf(),
            final(self)@ == Self::write_effect(old(self)@, address as u16, value),
    {
        self.write_u8(address as u16, value)
    }

    /// Writes a little-endian word: the low byte to `address`, then the high
    /// byte to `address + 1` modulo 65536.
    fn write_u16(&mut self, address: u16, value: u16)
        requires
            old(self).wf(),
        ensures
            final(self).wf(),
            final(self)@ == Self::write_effect(
                Self::write_effect(old(self)@, address, low_byte(value)),
                next_address(address),
                high_byte(value),
            ),
    {
        let (l, h) = split_word(value);
        self.write_u8(address, l);
        self.write_u8(address.wrapping_add(1), h);
    }

    /// Writes a little-endian word whose two bytes both lie in the zero page.
    fn write_u16_zp(&mut self, address: u8, value: u16)
        requires
            old(self).wf(),
        ensures
            final(self).wf(),
            final(self)@ == Self::write_effect(
                Self::write_effect(old(self)@, address as u16, low_byte(value)),
                next_zero_page(address) as u16,
                high_byte(value),
            ),
    {
        let (l, h) = split_word(value);
        self.write_u8_zp(address, l);
        self.write_u8_zp(address.wrapping_add(1), h);
    }
}

/// The word that `read_u16` returns at `address` in state `m`.
pub open spec fn read_word_value<M: Memory>(m: M::V, address: u16) -> u16 {
    word(
        M::read_value(m, address),
        M::read_value(M::read_effect(m, address), next_address(address)),
    )
}

/// The state after `read_u16` at `address` in state `m`.
pub open spec fn read_word_effect<M: Memory>(m: M::V, address: u16) -> M::V {
    M::read_effect(M::read_effect(m, address), next_address(address))
}

/// The word that `read_u16_zp` returns at `address` in state `m`.
pub open spec fn read_zero_page_word_value<M: Memory>(m: M::V, address: u8) -> u16 {
    word(
        M::read_value(m, address as u16),
        M::read_value(M::read_effect(m, address as u16), next_zero_page(address) as u16),
    )
}

/// The state after `read_u16_zp` at `address` in state `m`.
pub open spec fn read_zero_page_word_effect<M: Memory>(m: M::V, address: u8) -> M::V {
    M::read_effect(M::read_effect(m, address as u16), next_zero_page(address) as u16)
}

/// The state after `write_u16` of `value` at `address` in state `m`.
pub open spec fn write_word_effect<M: Memory>(m: M::V, address: u16, value: u16) -> M::V {
    M::write_effect(
        M::write_effect(m, address, low_byte(value)),
        next_address(address),
        high_byte(value),
    )
}

/// A bus in a box is the bus.
impl<M: Memory> Memory for Box<M> {
    open spec fn wf(&self) -> bool {
        (**self).wf()
    }

    open spec fn read_value(m: M::V, address: u16) -> u8 {
        M::read_value(m, address)
    }

    open spec fn read_effect(m: M::V, address: u16) -> M::V {
        M::read_effect(m, address)
    }

    open spec fn write_effect(m: M::V, address: u16, value: u8) -> M::V {
        M::write_effect(m, address, value)
    }

    open spec fn update_signal(m: M::V, cycle: usize) -> Interrupt {
        M::update_signal(m, cycle)
    }

    open spec fn update_effect(m: M::V, cycle: usize) -> M::V {
        M::update_effect(m, cycle)
    }

    fn read_u8(&mut self, address: u16) -> (value: u8) {
        (**self).read_u8(address)
    }

    fn write_u8(&mut self, address: u16, value: u8) {
        (**self).write_u8(address, value);
    }

    fn update(&mut self, cycle: usize) -> (signal: Interrupt) {
        (**self).update(cycle)
    }
}

} // verus!
