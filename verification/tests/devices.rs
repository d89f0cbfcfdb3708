use cody_emulator::device::blanking::{BlankingRegister, FRAME_CYCLES, VBLANK_CYCLES};
use cody_emulator::device::keyboard::{
    Keyboard, KeyboardEmulation, LOGICAL_KEYS, LOGICAL_MAPPING, PHYSICAL_KEYS, PHYSICAL_MAPPING,
};
use cody_emulator::device::uart::{
    RingBuf, Uart, UartSource, UART_CMND, UART_CNTL, UART_RXBF, UART_RXHD, UART_RXTL, UART_STAT,
    UART_TXBF, UART_TXHD, UART_TXTL,
};
use cody_emulator::device::via::{
    CodyKeyCode, KeyState, Via, VIA_ACR, VIA_DDRA, VIA_IER, VIA_IFR, VIA_IORA, VIA_IORB, VIA_T1CH,
    VIA_T1CL, VIA_T1LH, VIA_T1LL, VIA_T2CH, VIA_T2CL,
};
use cody_emulator::interrupt::Interrupt;
use cody_emulator::memory::Memory;

#[test]
fn interrupt_lines_combine_with_or() {
    assert!(!Interrupt::none().is_irq() && !Interrupt::none().is_nmi());
    assert!(Interrupt::irq().is_irq() && !Interrupt::irq().is_nmi());
    assert!(!Interrupt::nmi().is_irq() && Interrupt::nmi().is_nmi());
    let both = Interrupt::irq().or(Interrupt::nmi());
    assert!(both.is_irq() && both.is_nmi());
    assert_eq!(Interrupt::none().or(Interrupt::irq()), Interrupt::irq());
    assert_eq!(Interrupt::nmi().or(Interrupt::none()), Interrupt::nmi());
    assert_eq!(Interrupt::default(), Interrupt::none());
}

#[test]
fn blanking_register_follows_the_frame() {
    assert_eq!(FRAME_CYCLES, 16683);
    assert_eq!(VBLANK_CYCLES, 2674);
    let mut register = BlankingRegister::default();
    assert_eq!(register.read_u8(0), 0);
    for (cycle, expected) in [
        (0, 1),
        (2673, 1),
        (2674, 0),
        (16682, 0),
        (16683, 1),
        (16683 + 2673, 1),
        (16683 + 2674, 0),
        (10 * 16683 + 5, 1),
    ] {
        assert_eq!(register.update(cycle), Interrupt::none());
        assert_eq!(register.read_u8(0), expected, "cycle {cycle}");
    }
    register.update(0);
    register.write_u8(0, 0);
    assert_eq!(register.read_u8(0), 1);
}

#[test]
fn via_enable_register_sets_and_clears_by_bit_7() {
    let mut via = Via::default();
    assert_eq!(via.read_u8(VIA_IER), 0x80);
    via.write_u8(VIA_IER, 0x80 | 0x40 | 0x02);
    assert_eq!(via.read_u8(VIA_IER), 0xC2);
    via.write_u8(VIA_IER, 0x40);
    assert_eq!(via.read_u8(VIA_IER), 0x82);
    via.write_u8(VIA_IER, 0x7F);
    assert_eq!(via.read_u8(VIA_IER), 0x80);
}

#[test]
fn via_flag_register_derives_bit_7() {
    let mut via = Via::default();
    via.write_u8(VIA_IFR, 0xFF);
    // nothing is enabled: bit 7 stays clear
    assert_eq!(via.read_u8(VIA_IFR), 0x7F);
    assert_eq!(via.update(0), Interrupt::none());
    via.write_u8(VIA_IER, 0x80 | 0x20);
    assert_eq!(via.read_u8(VIA_IFR), 0xFF);
    via.write_u8(VIA_IFR, 0x40);
    assert_eq!(via.read_u8(VIA_IFR), 0x40);
    via.write_u8(VIA_IFR, 0x60);
    assert_eq!(via.read_u8(VIA_IFR), 0xE0);
    via.write_u8(VIA_IER, 0x20);
    assert_eq!(via.read_u8(VIA_IFR), 0x60);
}

#[test]
fn via_timer_1_fires_once() {
    let mut via = Via::default();
    via.write_u8(VIA_IER, 0xC0);
    via.write_u8(VIA_T1CL, 3);
    assert_eq!(via.read_u8(VIA_T1LL), 3);
    via.write_u8(VIA_T1CH, 0);
    assert_eq!(via.read_u8(VIA_T1CH), 0);
    assert_eq!(via.update(1), Interrupt::none());
    assert_eq!(via.update(2), Interrupt::none());
    assert_eq!(via.read_u8(VIA_IFR), 0);
    // the counter reaches zero: the flag is raised and the counter reloaded
    assert_eq!(via.update(3), Interrupt::irq());
    assert_eq!(via.read_u8(VIA_IFR), 0xC0);
    assert_eq!(via.update(3), Interrupt::irq());
    // reading the low counter byte clears the flag
    assert_eq!(via.read_u8(VIA_T1CL), 3);
    assert_eq!(via.read_u8(VIA_IFR), 0);
    // one-shot: the next underflow raises nothing
    assert_eq!(via.update(6), Interrupt::none());
    assert_eq!(via.read_u8(VIA_IFR), 0);
    // writing the high latch clears the flag without restarting
    via.write_u8(VIA_T1LH, 1);
    assert_eq!(via.read_u8(VIA_T1LH), 1);
}

#[test]
fn via_timer_1_repeats_in_continuous_mode() {
    let mut via = Via::default();
    via.write_u8(VIA_ACR, 0x40);
    via.write_u8(VIA_IER, 0xC0);
    via.write_u8(VIA_T1LL, 2);
    via.write_u8(VIA_T1CH, 0);
    assert_eq!(via.update(2), Interrupt::irq());
    via.read_u8(VIA_T1CL);
    assert_eq!(via.update(3), Interrupt::none());
    assert_eq!(via.update(4), Interrupt::irq());
}

#[test]
fn via_timer_2_fires_once_and_pauses_in_pulse_mode() {
    let mut via = Via::default();
    via.write_u8(VIA_IER, 0xA0);
    via.write_u8(VIA_T2CL, 2);
    via.write_u8(VIA_T2CH, 0);
    assert_eq!(via.update(1), Interrupt::none());
    assert_eq!(via.update(2), Interrupt::irq());
    assert_eq!(via.read_u8(VIA_IFR), 0xA0);
    assert_eq!(via.read_u8(VIA_T2CL), 0);
    assert_eq!(via.read_u8(VIA_IFR), 0);
    assert_eq!(via.update(3), Interrupt::none());
    assert_eq!(via.read_u8(VIA_T2CL), 0xFF);
    assert_eq!(via.read_u8(VIA_T2CH), 0xFF);
    // pulse counting: the counter stands still
    via.write_u8(VIA_ACR, 0x20);
    via.write_u8(VIA_T2CL, 5);
    via.write_u8(VIA_T2CH, 0);
    assert_eq!(via.update(100), Interrupt::none());
    assert_eq!(via.read_u8(VIA_T2CL), 5);
}

#[test]
fn via_plain_registers_hold_what_was_written() {
    let mut via = Via::default();
    via.write_u8(VIA_IORB, 0x12);
    via.write_u8(0xF, 0x34);
    assert_eq!(via.read_u8(VIA_IORB), 0x12);
    assert_eq!(via.read_u8(0xF), 0x34);
    via.write_u8(0x10, 0x56);
    assert_eq!(via.read_u8(0x10), 0);
    assert_eq!(via.read_u8(0xFF), 0);
}

#[test]
fn key_matrix_clears_the_bit_of_a_pressed_key() {
    let mut keys = KeyState::default();
    assert_eq!(keys.state, [0; 8]);
    keys.set_pressed(CodyKeyCode::KeyQ, false);
    assert_eq!(keys.state[0], 0x08);
    keys.set_pressed(CodyKeyCode::KeyO, false);
    assert_eq!(keys.state[0], 0x88);
    keys.set_pressed(CodyKeyCode::KeyQ, true);
    assert_eq!(keys.state[0], 0x80);
    keys.set_pressed(CodyKeyCode::KeyG, false);
    assert_eq!(keys.state[1], 0x20);
    keys.set_pressed(CodyKeyCode::Joystick2Fire, false);
    assert_eq!(keys.state[7], 0x80);
    for index in 0..40u8 {
        let code = CodyKeyCode::from_index(index).unwrap();
        assert_eq!(code.index(), index);
    }
    assert_eq!(CodyKeyCode::from_index(40), None);
    assert_eq!(CodyKeyCode::COUNT, 40);
}

#[test]
fn port_a_reads_the_selected_row() {
    let mut via = Via::default();
    for index in 0..40u8 {
        via.set_pressed(CodyKeyCode::from_index(index).unwrap(), false);
    }
    via.set_pressed(CodyKeyCode::KeyG, true);
    via.write_u8(VIA_DDRA, 0x07);
    via.write_u8(VIA_IORA, 0x01);
    assert_eq!(via.read_u8(VIA_IORA), 0xD8 | 0x01);
    via.write_u8(VIA_IORA, 0x02);
    assert_eq!(via.read_u8(VIA_IORA), 0xF8 | 0x02);
    assert_eq!(via.read_iora(), 0xFA);
    assert_eq!(via.get_key_state().state[1], 0xD8);
}

#[test]
fn keyboard_maps_held_host_keys() {
    assert_eq!(PHYSICAL_MAPPING.len(), PHYSICAL_KEYS);
    assert_eq!(LOGICAL_MAPPING.len(), LOGICAL_KEYS);
    let mut keyboard = Keyboard::new(KeyboardEmulation::Physical, KeyState::default());
    keyboard.update(&[false; 38]);
    assert_eq!(keyboard.key_state.state, [0xF8; 8]);
    let mut held = [false; 38];
    held[0] = true;
    // both control keys stand for the Cody key
    held[11] = true;
    keyboard.update(&held);
    assert_eq!(keyboard.key_state.state, [0xF0, 0xF8, 0xF0, 0xF8, 0xF8, 0xF8, 0xF8, 0xF8]);
    assert_eq!(PHYSICAL_MAPPING[10], CodyKeyCode::Cody);
    assert_eq!(PHYSICAL_MAPPING[11], CodyKeyCode::Cody);
    // a short list counts the missing slots as not held
    keyboard.update(&[true]);
    assert_eq!(keyboard.key_state.state[0], 0xF0);
    assert_eq!(keyboard.key_state.state[2], 0xF8);

    let mut keyboard = Keyboard::new(KeyboardEmulation::Logical, KeyState::default());
    let mut held = [false; 72];
    // "1" is the Cody key with Q
    held[35] = true;
    keyboard.update(&held);
    assert_eq!(keyboard.key_state.state, [0xF0, 0xF8, 0xF0, 0xF8, 0xF8, 0xF8, 0xF8, 0xF8]);
    let pressed = Keyboard::pressed_keys(KeyboardEmulation::Logical, &held);
    assert_eq!(pressed.iter().filter(|p| **p).count(), 2);
    assert!(pressed[CodyKeyCode::KeyQ.index() as usize]);
    assert!(pressed[CodyKeyCode::Cody.index() as usize]);
    // "/" is the Meta key with M
    let mut held = [false; 72];
    held[71] = true;
    let pressed = Keyboard::pressed_keys(KeyboardEmulation::Logical, &held);
    assert!(pressed[CodyKeyCode::KeyM.index() as usize]);
    assert!(pressed[CodyKeyCode::Meta.index() as usize]);
    assert_eq!(pressed.iter().filter(|p| **p).count(), 2);
}

#[test]
fn ring_buffer_registers_wrap_modulo_the_capacity() {
    let mut buf = RingBuf::default();
    assert_eq!(buf.capacity(), 8);
    buf.set_head(13);
    assert_eq!(buf.head(), 5);
    buf.set_tail(250);
    assert_eq!(buf.tail(), 2);
    assert_eq!(buf.len(), 3);
    buf.set(9, 0x42);
    assert_eq!(buf.get(1), 0x42);
    assert_eq!(buf.get(17), 0x42);
    // the head wraps from 7 to 0
    let mut buf = RingBuf::new();
    buf.set_head(7);
    buf.set_tail(7);
    assert!(buf.push(1));
    assert_eq!(buf.head(), 0);
    assert_eq!(buf.len(), 1);
    assert_eq!(buf.get(7), 1);
    assert_eq!(buf.pop(), Some(1));
    assert_eq!(buf.tail(), 0);
}

#[test]
fn uart_source_hands_out_its_bytes_once() {
    let mut source = UartSource::new(vec![1, 2]);
    assert_eq!((source.pos(), source.len()), (0, 2));
    assert!(!source.is_empty());
    assert!(source.has_next());
    assert_eq!(source.read(), Some(1));
    assert_eq!(source.read(), Some(2));
    assert_eq!(source.pos(), 2);
    assert!(!source.has_next());
    assert_eq!(source.read(), None);
    assert_eq!(source.pos(), 2);
    source.reset();
    assert_eq!(source.read(), Some(1));
    let mut empty = UartSource::empty();
    assert!(empty.is_empty());
    assert_eq!(empty.read(), None);
}

#[test]
fn uart_status_follows_the_enable_bit() {
    let mut uart = Uart::new(UartSource::empty());
    assert!(!uart.is_enabled());
    uart.write_u8(UART_CNTL, 0x0F);
    assert_eq!(uart.read_u8(UART_CNTL), 0x0F);
    uart.write_u8(UART_STAT, 0xFF);
    assert_eq!(uart.read_u8(UART_STAT), 0);
    uart.write_u8(UART_CMND, 0x01);
    assert!(uart.is_enabled());
    assert_eq!(uart.read_u8(UART_STAT), 0);
    assert_eq!(uart.update(0), Interrupt::none());
    assert_eq!(uart.read_u8(UART_STAT), 0x40);
    uart.write_u8(UART_RXHD, 3);
    uart.write_u8(UART_RXTL, 3);
    uart.write_u8(UART_TXTL, 4);
    uart.write_u8(UART_TXHD, 4);
    uart.write_u8(UART_CMND, 0x00);
    uart.update(1);
    assert_eq!(uart.read_u8(UART_STAT), 0);
    assert_eq!(uart.read_u8(UART_RXHD), 0);
    assert_eq!(uart.read_u8(UART_RXTL), 3);
    assert_eq!(uart.read_u8(UART_TXTL), 0);
    assert_eq!(uart.read_u8(UART_TXHD), 4);
    assert_eq!(uart.read_u8(3), 0);
    assert_eq!(uart.read_u8(24), 0);
}

#[test]
fn uart_receives_from_its_source_until_full() {
    let mut uart = Uart::new(UartSource::new((1..=10).collect::<Vec<u8>>()));
    uart.update(0);
    assert_eq!(uart.read_u8(UART_RXHD), 0);
    uart.write_u8(UART_CMND, 0x01);
    uart.update(1);
    assert_eq!(uart.read_u8(UART_RXHD), 7);
    assert_eq!(uart.read_u8(UART_RXTL), 0);
    for offset in 0..7 {
        assert_eq!(uart.read_u8(UART_RXBF + offset), offset as u8 + 1);
    }
    assert_eq!(uart.get_receive_buffer().len(), 7);
    // the processor takes three bytes
    uart.write_u8(UART_RXTL, 3);
    uart.update(2);
    assert_eq!(uart.read_u8(UART_RXHD), 2);
    assert_eq!(uart.read_u8(UART_RXBF + 7), 8);
    assert_eq!(uart.read_u8(UART_RXBF), 9);
    assert_eq!(uart.read_u8(UART_RXBF + 1), 10);
    // the source is exhausted
    uart.write_u8(UART_RXTL, 2);
    uart.update(3);
    assert_eq!(uart.read_u8(UART_RXHD), 2);
}

#[test]
fn uart_takes_out_what_is_transmitted() {
    let mut uart = Uart::new(UartSource::empty());
    uart.write_u8(UART_CMND, 0x01);
    uart.write_u8(UART_TXBF, b'h');
    uart.write_u8(UART_TXBF + 1, b'i');
    uart.write_u8(UART_TXHD, 2);
    assert_eq!(uart.get_transmit_buffer().len(), 2);
    uart.update(0);
    assert_eq!(uart.read_u8(UART_TXTL), 2);
    assert_eq!(uart.read_u8(UART_TXHD), 2);
    assert!(uart.get_transmit_buffer().is_empty());
    assert_eq!(uart.read_u8(UART_TXBF), b'h');
}
