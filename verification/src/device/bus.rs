use crate::device::blanking::BlankingRegister;
use crate::device::uart::{Uart, UartState};
use crate::device::via::{Via, ViaState};
use crate::interrupt::Interrupt;
use crate::memory::contiguous::{Contiguous, Ram, Rom};
use crate::memory::zero::ZeroMemory;
use crate::memory::Memory;
use vstd::prelude::*;

verus! {

/// Anything that can be a region of the machine's bus.
#[derive(Debug)]
pub enum Device {
    Ram(Contiguous<Ram>),
    Rom(Contiguous<Rom>),
    Zero(ZeroMemory),
    Via(Via),
    Uart(Uart),
    Blanking(BlankingRegister),
}

/// The state of a `Device`.
pub enum DeviceState {
    Ram(Seq<u8>),
    Rom(Seq<u8>),
    Zero,
    Via(ViaState),
    Uart(UartState),
    Blanking(bool),
}

impl View for Device {
    type V = DeviceState;

    open spec fn view(&self) -> DeviceState {
        match self {
            Device::Ram(memory) => DeviceState::Ram(memory@),
            Device::Rom(memory) => DeviceState::Rom(memory@),
            Device::Zero(_) => DeviceState::Zero,
            Device::Via(via) => DeviceState::Via(via@),
            Device::Uart(uart) => DeviceState::Uart(uart@),
            Device::Blanking(register) => DeviceState::Blanking(register@),
        }
    }
}

impl Memory for Device {
    open spec fn wf(&self) -> bool {
        match self {
            Device::Ram(memory) => memory.wf(),
            Device::Rom(memory) => memory.wf(),
            _ => true,
        }
    }

    open spec fn read_value(m: DeviceState, address: u16) -> u8 {
        match m {
            DeviceState::Ram(state) => Contiguous::<Ram>::read_value(state, address),
            DeviceState::Rom(state) => Contiguous::<Rom>::read_value(state, address),
            DeviceState::Zero => 0,
            DeviceState::Via(state) => Via::read_value(state, address),
            DeviceState::Uart(state) => Uart::read_value(state, address),
            DeviceState::Blanking(state) => BlankingRegister::read_value(state, address),
        }
    }

    open spec fn read_effect(m: DeviceState, address: u16) -> DeviceState {
        match m {
            DeviceState::Via(state) => DeviceState::Via(Via::read_effect(state, address)),
            _ => m,
        }
    }

    open spec fn write_effect(m: DeviceState, address: u16, value: u8) -> DeviceState {
        match m {
            DeviceState::Ram(state) => DeviceState::Ram(
                Contiguous::<Ram>::write_effect(state, address, value),
            ),
            DeviceState::Via(state) => DeviceState::Via(Via::write_effect(state, address, value)),
            DeviceState::Uart(state) => DeviceState::Uart(
                Uart::write_effect(state, address, value),
            ),
            _ => m,
        }
    }

    open spec fn update_signal(m: DeviceState, cycle: usize) -> Interrupt {
        match m {
            DeviceState::Via(state) => Via::update_signal(state, cycle),
            _ => Interrupt { irq: false, nmi: false },
        }
    }

    open spec fn update_effect(m: DeviceState, cycle: usize) -> DeviceState {
        match m {
            DeviceState::Via(state) => DeviceState::Via(Via::update_effect(state, cycle)),
            DeviceState::Uart(state) => DeviceState::Uart(Uart::update_effect(state, cycle)),
            DeviceState::Blanking(state) => DeviceState::Blanking(
                BlankingRegister::update_effect(state, cycle),
            ),
            _ => m,
        }
    }

    fn read_u8(&mut self, address: u16) -> (value: u8) {
        match self {
            Device::Ram(memory) => memory.read_u8(address),
            Device::Rom(memory) => memory.read_u8(address),
            Device::Zero(memory) => memory.read_u8(address),
            Device::Via(via) => via.read_u8(address),
            Device::Uart(uart) => uart.read_u8(address),
            Device::Blanking(register) => register.read_u8(address),
        }
    }

    fn write_u8(&mut self, address: u16, value: u8) {
        match self {
            Device::Ram(memory) => memory.write_u8(address, value),
            Device::Rom(memory) => memory.write_u8(address, value),
            Device::Zero(memory) => memory.write_u8(address, value),
            Device::Via(via) => via.write_u8(address, value),
            Device::Uart(uart) => uart.write_u8(address, value),
            Device::Blanking(register) => register.write_u8(address, value),
        }
    }

    fn update(&mut self, cycle: usize) -> (signal: Interrupt) {
        match self {
            Device::Ram(memory) => memory.update(cycle),
            Device::Rom(memory) => memory.update(cycle),
            Device::Zero(memory) => memory.update(cycle),
            Device::Via(via) => via.update(cycle),
            Device::Uart(uart) => uart.update(cycle),
            Device::Blanking(register) => register.update(cycle),
        }
    }
}

} // verus!
