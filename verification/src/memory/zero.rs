use crate::interrupt::Interrupt;
use crate::memory::Memory;
use vstd::prelude::*;

verus! {

/// A region that reads as zero everywhere and discards writes.
#[derive(Debug, Copy, Clone)]
pub struct ZeroMemory;

impl View for ZeroMemory {
    type V = ();

    open spec fn view(&self) -> () {
        ()
    }
}

impl Memory for ZeroMemory {
    open spec fn wf(&self) -> bool {
        true
    }

    open spec fn read_value(m: (), address: u16) -> u8 {
        0
    }

    open spec fn read_effect(m: (), address: u16) -> () {
        ()
    }

    open spec fn write_effect(m: (), address: u16, value: u8) -> () {
        ()
    }

    open spec fn update_signal(m: (), cycle: usize) -> Interrupt {
        Interrupt { irq: false, nmi: false }
    }

    open spec fn update_effect(m: (), cycle: usize) -> () {
        ()
    }

    fn read_u8(&mut self, address: u16) -> (value: u8) {
        assert(Self::read_value(old(self)@, address) == 0);
        0
    }

    fn write_u8(&mut self, _address: u16, _value: u8) {
    }

    fn update(&mut self, _cycle: usize) -> (signal: Interrupt) {
        Interrupt::none()
    }
}

} // verus!
