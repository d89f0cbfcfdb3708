use crate::interrupt::Interrupt;
use crate::memory::Memory;
use vstd::prelude::*;

verus! {

/// Cycles of the processor clock in one frame of the display: a megahertz
/// clock at 59.94 frames a second.
pub const FRAME_CYCLES: usize = 16683;

/// Cycles at the start of each frame during which the raster draws no
/// visible line: 42 of the 262 lines of a frame.
pub const VBLANK_CYCLES: usize = 2674;

/// Whether the display is in its blanking interval at `cycle`.
pub open spec fn in_blank(cycle: usize) -> bool {
    cycle % FRAME_CYCLES < VBLANK_CYCLES
}

/// A register of one bit that reads 1 during the vertical blanking interval.
#[derive(Debug, Clone, Default)]
pub struct BlankingRegister {
    pub in_blanking_interval: bool,
}

impl View for BlankingRegister {
    type V = bool;

    open spec fn view(&self) -> bool {
        self.in_blanking_interval
    }
}

impl BlankingRegister {
    /// A register outside the blanking interval.
    pub fn new() -> (register: Self)
        ensures
            !register@,
    {
        BlankingRegister { in_blanking_interval: false }
    }
}

impl Memory for BlankingRegister {
    open spec fn wf(&self) -> bool {
        true
    }

    open spec fn read_value(m: bool, address: u16) -> u8 {
        if m {
            1
        } else {
            0
        }
    }

    open spec fn read_effect(m: bool, address: u16) -> bool {
        m
    }

    /// Writes are ignored.
    open spec fn write_effect(m: bool, address: u16, value: u8) -> bool {
        m
    }

    open spec fn update_signal(m: bool, cycle: usize) -> Interrupt {
        Interrupt { irq: false, nmi: false }
    }

    open spec fn update_effect(m: bool, cycle: usize) -> bool {
        in_blank(cycle)
    }

    fn read_u8(&mut self, _address: u16) -> (value: u8) {
        if self.in_blanking_interval {
            1
        } else {
            0
        }
    }

    fn write_u8(&mut self, _address: u16, _value: u8) {
    }

    fn update(&mut self, cycle: usize) -> (signal: Interrupt) {
        let frame_cycle = cycle % FRAME_CYCLES;
        self.in_blanking_interval = frame_cycle < VBLANK_CYCLES;
        Interrupt::none()
    }
}

} // verus!
