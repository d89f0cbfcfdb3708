use cody_emulator::device::blanking::BlankingRegister;
use cody_emulator::device::bus::Device;
use cody_emulator::interrupt::Interrupt;
use cody_emulator::memory::contiguous::Contiguous;
use cody_emulator::memory::logging::{LoggingMemory, MemoryAccess, MemoryAccessType};
use cody_emulator::memory::mapped::MappedMemory;
use cody_emulator::memory::sparse::Sparse;
use cody_emulator::memory::zero::ZeroMemory;
use cody_emulator::memory::{make_word, split_word, Memory};

#[test]
fn words_are_little_endian() {
    assert_eq!(make_word(0x34, 0x12), 0x1234);
    assert_eq!(split_word(0x1234), (0x34, 0x12));
    let mut ram = Contiguous::new_ram(0x10000);
    ram.write_u16(0x1000, 0xBEEF);
    assert_eq!(ram.read_u8(0x1000), 0xEF);
    assert_eq!(ram.read_u8(0x1001), 0xBE);
    assert_eq!(ram.read_u16(0x1000), 0xBEEF);
}

#[test]
fn word_accesses_wrap_around() {
    let mut ram = Contiguous::new_ram(0x10000);
    ram.write_u16(0xFFFF, 0x1234);
    assert_eq!(ram.read_u8(0xFFFF), 0x34);
    assert_eq!(ram.read_u8(0x0000), 0x12);
    assert_eq!(ram.read_u16(0xFFFF), 0x1234);
    ram.write_u8(0x0100, 0x99);
    ram.write_u16_zp(0xFF, 0xABCD);
    assert_eq!(ram.read_u8(0x00FF), 0xCD);
    assert_eq!(ram.read_u8(0x0000), 0xAB);
    assert_eq!(ram.read_u8(0x0100), 0x99);
    assert_eq!(ram.read_u16_zp(0xFF), 0xABCD);
    ram.write_u8_zp(0x10, 0x77);
    assert_eq!(ram.read_u8_zp(0x10), 0x77);
}

#[test]
fn contiguous_addresses_are_taken_modulo_the_size() {
    let mut ram = Contiguous::new_ram(0x100);
    ram.write_u8(0x0123, 0x5A);
    assert_eq!(ram.read_u8(0x0023), 0x5A);
    assert_eq!(ram.read_u8(0xFF23), 0x5A);
    assert_eq!(ram.memory[0x23], 0x5A);
    assert_eq!(ram.update(12345), Interrupt::none());
}

#[test]
fn rom_discards_writes() {
    let mut rom = Contiguous::new_rom(0x100);
    rom.write_u8(0x10, 0x5A);
    assert_eq!(rom.read_u8(0x10), 0);
    rom.force_write_u8(0x10, 0x5A);
    assert_eq!(rom.read_u8(0x10), 0x5A);
    rom.write_u8(0x10, 0x00);
    assert_eq!(rom.read_u8(0x10), 0x5A);
    rom.force_write_u16(0x20, 0x1234);
    assert_eq!(rom.read_u16(0x20), 0x1234);
}

#[test]
fn forced_writes_drop_what_does_not_fit() {
    let mut ram = Contiguous::new_ram(4);
    ram.force_write_all(2, &[1, 2, 3, 4]);
    assert_eq!(ram.memory, vec![0, 0, 1, 2]);
    ram.force_write_all(4, &[9]);
    ram.force_write_all(100, &[9]);
    ram.force_write_u16(3, 0xAABB);
    assert_eq!(ram.memory, vec![0, 0, 1, 0xBB]);
    let filled = Contiguous::new_ram(0).memory.len();
    assert_eq!(filled, 0);
    let from = Contiguous::<cody_emulator::memory::contiguous::Ram>::from_bytes(3, &[7, 8, 9, 10]);
    assert_eq!(from.memory, vec![7, 8, 9]);
    let at = Contiguous::<cody_emulator::memory::contiguous::Rom>::from_bytes_at(4, &[7, 8], 1);
    assert_eq!(at.memory, vec![0, 7, 8, 0]);
}

#[test]
fn zero_memory_reads_zero() {
    let mut zero = ZeroMemory;
    zero.write_u8(0x1234, 0xFF);
    assert_eq!(zero.read_u8(0x1234), 0);
    assert_eq!(zero.read_u16(0xFFFF), 0);
    assert_eq!(zero.update(1), Interrupt::none());
}

#[test]
fn logging_memory_records_accesses_in_order() {
    let mut memory = LoggingMemory::new(Contiguous::new_ram(0x10000));
    memory.write_u8(0x0010, 0x42);
    assert_eq!(memory.read_u8(0x0010), 0x42);
    memory.write_u16(0x0020, 0x1234);
    memory.update(7);
    assert_eq!(
        memory.log(),
        &[
            MemoryAccess::write(0x0010, 0x42),
            MemoryAccess::read(0x0010, 0x42),
            MemoryAccess::write(0x0020, 0x34),
            MemoryAccess::write(0x0021, 0x12),
        ]
    );
    assert_eq!(memory.log()[1].access_type, MemoryAccessType::Read);
    memory.reset_log();
    assert!(memory.log().is_empty());
    assert_eq!(memory.read_u8(0x0021), 0x12);
    assert_eq!(memory.log().len(), 1);
}

#[test]
fn later_regions_win_on_overlap() {
    let mut bus = MappedMemory::new();
    let mut low = Contiguous::new_ram(0x100);
    low.force_write_u8(0x10, 0x11);
    let mut over = Contiguous::new_ram(0x10);
    over.force_write_u8(0x00, 0x22);
    bus.add_memory(0x1000, 0x100, Device::Ram(low));
    assert_eq!(bus.read_u8(0x1010), 0x11);
    bus.add_memory(0x1010, 0x10, Device::Ram(over));
    // the later region serves the overlap, at the address counted from its start
    assert_eq!(bus.read_u8(0x1010), 0x22);
    bus.write_u8(0x1011, 0x33);
    assert_eq!(bus.read_u8(0x1011), 0x33);
    // beside the overlap the earlier region serves
    bus.write_u8(0x1020, 0x44);
    assert_eq!(bus.read_u8(0x1020), 0x44);
    assert_eq!(bus.read_u8(0x100F), 0x00);
    // unmapped addresses read 0 and drop writes
    bus.write_u8(0x2000, 0x55);
    assert_eq!(bus.read_u8(0x2000), 0);
    assert_eq!(bus.read_u8(0x0FFF), 0);
    assert_eq!(bus.read_u8(0x1100), 0);
}

#[test]
fn regions_at_the_end_of_the_address_space() {
    let mut bus = MappedMemory::new();
    bus.add_memory(0xFFF0, 0x0010, Device::Ram(Contiguous::new_ram(0x10)));
    bus.write_u8(0xFFFF, 0x12);
    assert_eq!(bus.read_u8(0xFFFF), 0x12);
    // a region that would reach beyond the address space is cut off there
    let mut bus = MappedMemory::new();
    bus.add_memory(0xFFF0, 0x0100, Device::Ram(Contiguous::new_ram(0x100)));
    bus.write_u8(0xFFFF, 0x34);
    assert_eq!(bus.read_u8(0xFFFF), 0x34);
    assert_eq!(bus.read_u8(0xFFEF), 0);
}

#[test]
fn devices_of_size_zero_only_get_the_clock() {
    let mut bus = MappedMemory::new();
    bus.add_device(Device::Blanking(BlankingRegister::new()));
    assert_eq!(bus.read_u8(0x0000), 0);
    bus.update(100);
    match &bus.memories[0].memory {
        Device::Blanking(register) => assert!(register.in_blanking_interval),
        _ => unreachable!(),
    }
    bus.update(5000);
    match &bus.memories[0].memory {
        Device::Blanking(register) => assert!(!register.in_blanking_interval),
        _ => unreachable!(),
    }
}

#[test]
fn sparse_memory_holds_three_pages_and_a_program() {
    let mut memory = Sparse::from_bytes(&[1, 2, 3]);
    assert_eq!(memory.read_u16(0xFFFC), 0x0200);
    assert_eq!(memory.read_u8(0x0200), 1);
    assert_eq!(memory.read_u8(0x0202), 3);
    assert_eq!(memory.read_u8(0x0203), 0);
    memory.write_u8(0x0203, 9);
    assert_eq!(memory.read_u8(0x0203), 0);
    memory.write_u8(0x0201, 9);
    assert_eq!(memory.read_u8(0x0201), 9);
    memory.write_u8(0x0042, 7);
    memory.write_u8(0x0142, 8);
    memory.write_u8(0xFF42, 9);
    assert_eq!(memory.zeropage[0x42], 7);
    assert_eq!(memory.stack[0x42], 8);
    assert_eq!(memory.last_page[0x42], 9);
    assert_eq!(memory.read_u8(0xFEFF), 0);
}

#[test]
fn a_boxed_bus_is_the_bus() {
    let mut boxed = Box::new(Contiguous::new_ram(0x100));
    boxed.write_u8(0x10, 0x42);
    assert_eq!(boxed.read_u8(0x10), 0x42);
    boxed.write_u16(0x20, 0x1234);
    assert_eq!(boxed.read_u16(0x20), 0x1234);
    assert_eq!(boxed.update(3), Interrupt::none());
    assert_eq!(boxed.memory[0x10], 0x42);
}
