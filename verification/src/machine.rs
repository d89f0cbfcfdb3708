use crate::device::blanking::BlankingRegister;
use crate::device::bus::{Device, DeviceState};
use crate::device::uart::{Uart, UART1_BASE, UART2_BASE, UART_END};
use crate::device::via::Via;
use crate::memory::contiguous::{overlay, Contiguous, Ram, Rom};
use crate::memory::mapped::{serving, MappedMemory, RegionState};
use crate::memory::{make_word, word, Memory};
use vstd::prelude::*;
use vstd::slice::slice_subrange;

verus! {

/// The size of the main memory, which starts at address 0.
pub const RAM_SIZE: u16 = 0xA000;

/// The address at which the memory shared with the display starts.
pub const PROPELLER_RAM_BASE: u16 = 0xA000;

/// The size of the memory shared with the display.
pub const PROPELLER_RAM_SIZE: u16 = 0x4000;

/// The address at which the read-only memory starts.
pub const ROM_BASE: u16 = 0xE000;

/// The size of the read-only memory, which ends with the address space.
pub const ROM_SIZE: u16 = 0x2000;

/// The address of the window of the interface adapter, which lies over the
/// end of the main memory.
pub const VIA_BASE: u16 = 0x9F00;

/// The size of the window of the interface adapter.
pub const VIA_SIZE: u16 = 0x0100;

/// The address of the blanking register.
pub const BLANKING_BASE: u16 = 0xD000;

/// Why a file is no cartridge.
#[derive(Debug, Copy, Clone, PartialEq, Eq, Structural)]
pub enum CartridgeError {
    /// the file is shorter than the header of four bytes
    HeaderTooShort,
    /// the end address lies before the load address
    EndBeforeStart,
    /// the file holds fewer bytes than the header announces
    PayloadTooShort,
}

/// A cartridge: the address at which its code is loaded, and the code.
#[derive(Debug)]
pub struct Cartridge {
    pub load_address: u16,
    pub payload: Vec<u8>,
}

/// The load address in a cartridge header: the little-endian word in the
/// first two bytes.
pub open spec fn header_load_address(data: Seq<u8>) -> u16 {
    word(data[0], data[1])
}

/// The end address in a cartridge header, the address of the last byte of
/// code: the little-endian word in the third and fourth byte.
pub open spec fn header_end_address(data: Seq<u8>) -> u16 {
    word(data[2], data[3])
}

/// The number of bytes of code that a cartridge header announces.
pub open spec fn header_length(data: Seq<u8>) -> int {
    header_end_address(data) - header_load_address(data) + 1
}

/// What is wrong with a cartridge file, if anything.
pub open spec fn cartridge_fault(data: Seq<u8>) -> Option<CartridgeError> {
    if data.len() < 4 {
        Some(CartridgeError::HeaderTooShort)
    } else if header_end_address(data) < header_load_address(data) {
        Some(CartridgeError::EndBeforeStart)
    } else if data.len() - 4 < header_length(data) {
        Some(CartridgeError::PayloadTooShort)
    } else {
        None
    }
}

/// Reads a cartridge file: a header of four bytes with the load address and
/// the inclusive end address, then the code. Bytes behind the announced
/// code are left out.
pub fn parse_cartridge(data: &[u8]) -> (result: Result<Cartridge, CartridgeError>)
    ensures
        match cartridge_fault(data@) {
            Some(fault) => result == Err::<Cartridge, CartridgeError>(fault),
            None => result matches Ok(cartridge) && cartridge.load_address == header_load_address(
                data@,
            ) && cartridge.payload@ == data@.subrange(4, 4 + header_length(data@)),
        },
{
    if data.len() < 4 {
        return Err(CartridgeError::HeaderTooShort);
    }
    let load_address = make_word(data[0], data[1]);
    let end_address = make_word(data[2], data[3]);
    if end_address < load_address {
        return Err(CartridgeError::EndBeforeStart);
    }
    let len = (end_address - load_address) as usize + 1;
    if data.len() - 4 < len {
        return Err(CartridgeError::PayloadTooShort);
    }
    let payload = vstd::slice::slice_to_vec(slice_subrange(data, 4, len + 4));
    Ok(Cartridge { load_address, payload })
}

/// Lays `data` into the three memories of the machine from `load_address`
/// on: each memory takes the bytes that fall into its range of addresses,
/// and what would lie behind the end of the address space is left out.
pub fn load_image(
    ram: &mut Contiguous<Ram>,
    propeller_ram: &mut Contiguous<Ram>,
    rom: &mut Contiguous<Rom>,
    load_address: u16,
    data: &[u8],
)
    requires
        old(ram)@.len() == RAM_SIZE,
        old(propeller_ram)@.len() == PROPELLER_RAM_SIZE,
        old(rom)@.len() == ROM_SIZE,
    ensures
        final(ram)@ == overlay(old(ram)@, load_address as int, data@),
        final(propeller_ram)@ == overlay(
            old(propeller_ram)@,
            load_address - PROPELLER_RAM_BASE,
            data@,
        ),
        final(rom)@ == overlay(old(rom)@, load_address - ROM_BASE, data@),
{
    if load_address >= ROM_BASE {
        rom.force_write_all(load_address - ROM_BASE, data);
        assert(ram@ =~= overlay(old(ram)@, load_address as int, data@));
        assert(propeller_ram@ =~= overlay(
            old(propeller_ram)@,
            load_address - PROPELLER_RAM_BASE,
            data@,
        ));
    } else if load_address >= PROPELLER_RAM_BASE {
        let address = load_address - PROPELLER_RAM_BASE;
        let mut remaining = data.len();
        let room = (PROPELLER_RAM_SIZE - address) as usize;
        let to_copy = if remaining < room {
            remaining
        } else {
            room
        };
        propeller_ram.force_write_all(address, slice_subrange(data, 0, to_copy));
        remaining -= to_copy;
        if remaining > 0 {
            rom.force_write_all(0, slice_subrange(data, to_copy, data.len()));
        }
        assert(ram@ =~= overlay(old(ram)@, load_address as int, data@));
        assert(propeller_ram@ =~= overlay(
            old(propeller_ram)@,
            load_address - PROPELLER_RAM_BASE,
            data@,
        ));
        assert(rom@ =~= overlay(old(rom)@, load_address - ROM_BASE, data@));
    } else {
        let mut remaining = data.len();
        let room = (RAM_SIZE - load_address) as usize;
        let to_copy = if remaining < room {
            remaining
        } else {
            room
        };
        ram.force_write_all(load_address, slice_subrange(data, 0, to_copy));
        let mut offset = to_copy;
        remaining -= to_copy;
        let to_copy = if remaining < PROPELLER_RAM_SIZE as usize {
            remaining
        } else {
            PROPELLER_RAM_SIZE as usize
        };
        if remaining > 0 {
            propeller_ram.force_write_all(0, slice_subrange(data, offset, offset + to_copy));
            offset += to_copy;
            remaining -= to_copy;
            if remaining > 0 {
                rom.force_write_all(0, slice_subrange(data, offset, data.len()));
            }
        }
        assert(ram@ =~= overlay(old(ram)@, load_address as int, data@));
        assert(propeller_ram@ =~= overlay(
            old(propeller_ram)@,
            load_address - PROPELLER_RAM_BASE,
            data@,
        ));
        assert(rom@ =~= overlay(old(rom)@, load_address - ROM_BASE, data@));
    }
}

/// The regions of the machine in the order in which they are added to the
/// bus: main memory, memory shared with the display, read-only memory, the
/// interface adapter, the two UARTs and the blanking register.
pub open spec fn memory_map(
    ram: Seq<u8>,
    propeller_ram: Seq<u8>,
    rom: Seq<u8>,
    via: crate::device::via::ViaState,
    uart1: crate::device::uart::UartState,
    uart2: crate::device::uart::UartState,
    blanking: bool,
) -> Seq<RegionState<DeviceState>> {
    seq![
        RegionState { start: 0, size: RAM_SIZE, state: DeviceState::Ram(ram) },
        RegionState {
            start: PROPELLER_RAM_BASE,
            size: PROPELLER_RAM_SIZE,
            state: DeviceState::Ram(propeller_ram),
        },
        RegionState { start: ROM_BASE, size: ROM_SIZE, state: DeviceState::Rom(rom) },
        RegionState { start: VIA_BASE, size: VIA_SIZE, state: DeviceState::Via(via) },
        RegionState { start: UART1_BASE, size: UART_END, state: DeviceState::Uart(uart1) },
        RegionState { start: UART2_BASE, size: UART_END, state: DeviceState::Uart(uart2) },
        RegionState { start: BLANKING_BASE, size: 1, state: DeviceState::Blanking(blanking) },
    ]
}

/// The index of the region of the machine that serves `address`.
pub open spec fn region_of(address: u16) -> int {
    if address == BLANKING_BASE {
        6
    } else if UART2_BASE <= address < UART2_BASE + UART_END {
        5
    } else if UART1_BASE <= address < UART1_BASE + UART_END {
        4
    } else if VIA_BASE <= address < PROPELLER_RAM_BASE {
        3
    } else if address >= ROM_BASE {
        2
    } else if address >= PROPELLER_RAM_BASE {
        1
    } else {
        0
    }
}

/// Builds the bus of the machine from its memories and devices.
pub fn build_bus(
    ram: Contiguous<Ram>,
    propeller_ram: Contiguous<Ram>,
    rom: Contiguous<Rom>,
    via: Via,
    uart1: Uart,
    uart2: Uart,
    blanking: BlankingRegister,
) -> (bus: MappedMemory<Device>)
    requires
        ram.wf(),
        propeller_ram.wf(),
        rom.wf(),
    ensures
        bus.wf(),
        bus@ == memory_map(ram@, propeller_ram@, rom@, via@, uart1@, uart2@, blanking@),
{
    let mut memory: MappedMemory<Device> = MappedMemory::new();
    memory.add_memory(0x0000, RAM_SIZE, Device::Ram(ram));
    memory.add_memory(PROPELLER_RAM_BASE, PROPELLER_RAM_SIZE, Device::Ram(propeller_ram));
    memory.add_memory(ROM_BASE, ROM_SIZE, Device::Rom(rom));
    memory.add_memory(VIA_BASE, VIA_SIZE, Device::Via(via));
    memory.add_memory(UART1_BASE, UART_END, Device::Uart(uart1));
    memory.add_memory(UART2_BASE, UART_END, Device::Uart(uart2));
    memory.add_memory(BLANKING_BASE, 0x1, Device::Blanking(blanking));
    assert(memory@ =~= memory_map(ram@, propeller_ram@, rom@, via@, uart1@, uart2@, blanking@));
    memory
}

/// Every address of the machine is served, and by the region that the
/// memory map names: the devices lie over the memories.
pub proof fn lemma_memory_map(bus: Seq<RegionState<DeviceState>>, address: u16)
    requires
        bus.len() == 7,
        bus[0].start == 0 && bus[0].size == RAM_SIZE,
        bus[1].start == PROPELLER_RAM_BASE && bus[1].size == PROPELLER_RAM_SIZE,
        bus[2].start == ROM_BASE && bus[2].size == ROM_SIZE,
        bus[3].start == VIA_BASE && bus[3].size == VIA_SIZE,
        bus[4].start == UART1_BASE && bus[4].size == UART_END,
        bus[5].start == UART2_BASE && bus[5].size == UART_END,
        bus[6].start == BLANKING_BASE && bus[6].size == 1,
    ensures
        serving(bus, address, 7) == Some(region_of(address)),
{
    reveal_with_fuel(serving, 8);
}

} // verus!
