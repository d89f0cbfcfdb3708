use cody_emulator::device::vid::{
    render_pixels, Color, Mode, HEIGHT, PALETTE, VID_BASE, VID_COLOR, VID_CONTROL,
    VID_ROW_EFFECT_CONTROL, VID_ROW_EFFECT_DATA, VID_SCREEN_COLORS, VID_SCROLL, VID_SPRITE,
    VID_SPRITE_BANKS, WIDTH,
};
use cody_emulator::memory::contiguous::Contiguous;
use cody_emulator::memory::Memory;

fn frame() -> Vec<Color> {
    vec![Color::default(); (WIDTH * HEIGHT) as usize]
}

fn at(x: usize, y: usize) -> usize {
    y * WIDTH as usize + x
}

#[test]
fn colours_are_opaque() {
    assert_eq!(Color::rgb(0x123456), Color { r: 0x12, g: 0x34, b: 0x56, a: 255 });
    assert_eq!(Color::default(), Color { r: 0, g: 0, b: 0, a: 255 });
    assert_eq!(Color::palette(1), Color { r: 255, g: 255, b: 255, a: 255 });
    assert_eq!(Color::palette(0x12), Color::rgb(0xcc0000));
    assert_eq!(PALETTE[15], 0xcccccc);
    assert_eq!((WIDTH, HEIGHT), (328, 216));
}

#[test]
fn the_control_register_selects_the_mode() {
    let mode = Mode::new(0x00, 0x31);
    assert!(!mode.disable_video && !mode.hires_mode && !mode.bitmap_mode);
    assert_eq!(mode.color_memory_start, 0xA000 + 3 * 0x400);
    assert_eq!((mode.width(), mode.height(), mode.border_x(), mode.border_y()), (160, 200, 4, 8));
    let mode = Mode::new(0x06, 0x00);
    assert!(mode.enable_v_scroll && mode.enable_h_scroll);
    assert_eq!((mode.width(), mode.height(), mode.border_x(), mode.border_y()), (152, 192, 8, 12));
    // the high resolution switches scrolling off
    let mode = Mode::new(0x26 | 0x18, 0x00);
    assert!(mode.hires_mode && mode.bitmap_mode && mode.enable_row_effects);
    assert!(!mode.enable_v_scroll && !mode.enable_h_scroll);
    assert_eq!((mode.width(), mode.height(), mode.border_x(), mode.border_y()), (320, 200, 4, 8));
    assert!(Mode::new(0x01, 0).disable_video);
}

#[test]
fn a_disabled_display_shows_the_border() {
    let mut memory = Contiguous::new_ram(0x10000);
    memory.write_u8(VID_CONTROL, 0x01);
    memory.write_u8(VID_COLOR, 0x02);
    let mut pixels = frame();
    pixels.push(Color::default());
    render_pixels(&mut memory, &mut pixels);
    assert!(pixels.iter().all(|pixel| *pixel == Color::palette(2)));
}

#[test]
fn a_disabled_display_takes_a_frame_of_any_length() {
    let mut memory = Contiguous::new_ram(0x10000);
    memory.write_u8(VID_CONTROL, 0x01);
    memory.write_u8(VID_COLOR, 0xF7);
    let before = memory.memory.clone();
    let mut pixels = [Color::default(); 3];
    render_pixels(&mut memory, &mut pixels);
    assert_eq!(pixels, [Color::palette(7); 3]);
    let mut none: [Color; 0] = [];
    render_pixels(&mut memory, &mut none);
    assert_eq!(memory.memory, before);
}

#[test]
fn characters_are_drawn_from_the_character_memory() {
    let mut memory = Contiguous::new_ram(0x10000);
    // border blue, colour memory at $A400; screen memory at $A000, characters at $A800
    memory.write_u8(VID_COLOR, 0x16);
    memory.write_u8(VID_BASE, 0x01);
    memory.write_u8(VID_SCREEN_COLORS, 0x54);
    // tile 0 shows character 3; its first line has the pixels 0, 1, 2, 3
    memory.write_u8(0xA000, 3);
    memory.write_u8(0xA800 + 8 * 3, 0b00_01_10_11);
    memory.write_u8(0xA800 + 8 * 3 + 1, 0b11_11_11_11);
    memory.write_u8(0xA400, 0x21);
    let mut pixels = frame();
    render_pixels(&mut memory, &mut pixels);
    // the border
    assert_eq!(pixels[at(0, 0)], Color::palette(6));
    assert_eq!(pixels[at(3, 8)], Color::palette(6));
    assert_eq!(pixels[at(4 + 320, 8)], Color::palette(6));
    assert_eq!(pixels[at(4, 7)], Color::palette(6));
    assert_eq!(pixels[at(4, 208)], Color::palette(6));
    // each pixel is two columns wide
    for (x, colour) in [(0, 1), (1, 2), (2, 4), (3, 5)] {
        assert_eq!(pixels[at(4 + 2 * x, 8)], Color::palette(colour));
        assert_eq!(pixels[at(4 + 2 * x + 1, 8)], Color::palette(colour));
        assert_eq!(pixels[at(4 + 2 * x, 9)], Color::palette(5));
    }
    // character 0 is empty: the other tiles show their own first colour, black
    assert_eq!(pixels[at(4 + 8, 8)], Color::palette(0));
    assert_eq!(pixels[at(4 + 319, 8 + 199)], Color::palette(0));
}

#[test]
fn bitmaps_and_the_high_resolution() {
    let mut memory = Contiguous::new_ram(0x10000);
    memory.write_u8(VID_CONTROL, 0x30);
    memory.write_u8(VID_COLOR, 0x10);
    // tile 41 is the second tile of the second row; its line 2
    memory.write_u8(0xA000 + 8 * 41 + 2, 0b1000_0001);
    memory.write_u8(0xA400 + 41, 0x73);
    let mut pixels = frame();
    render_pixels(&mut memory, &mut pixels);
    let line = 8 + 8 + 2;
    assert_eq!(pixels[at(4 + 8, line)], Color::palette(7));
    assert_eq!(pixels[at(4 + 9, line)], Color::palette(3));
    assert_eq!(pixels[at(4 + 15, line)], Color::palette(7));
    assert_eq!(pixels[at(4 + 16, line)], Color::palette(0));
    assert_eq!(pixels[at(4 + 8, line + 1)], Color::palette(3));
}

#[test]
fn sprites_lie_over_the_background() {
    let mut memory = Contiguous::new_ram(0x10000);
    memory.write_u8(VID_SPRITE, 0x19);
    // sprite 0 of bank 1 ends at column 20 and line 30, data at $A000 + $40 * 0x80
    let sprite = VID_SPRITE_BANKS + 0x20;
    memory.write_u8(sprite, 20);
    memory.write_u8(sprite + 1, 30);
    memory.write_u8(sprite + 2, 0xBA);
    memory.write_u8(sprite + 3, 0x80);
    memory.write_u8(0xA000 + 0x40 * 0x80, 0b01_10_11_00);
    let mut pixels = frame();
    render_pixels(&mut memory, &mut pixels);
    let (left, top) = (20 - 12, 30 - 21);
    for (x, colour) in [(0, 0xA), (1, 0xB), (2, 0x9), (3, 0x0)] {
        assert_eq!(pixels[at(4 + 2 * (left + x), 8 + top)], Color::palette(colour));
    }
    assert_eq!(pixels[at(4 + 2 * left, 8 + top + 1)], Color::palette(0));
    // the other sprites of the bank end at column 0 and show nothing
    assert_eq!(pixels[at(4, 8)], Color::palette(0));
}

#[test]
fn scrolling_shifts_the_picture() {
    let mut memory = Contiguous::new_ram(0x10000);
    memory.write_u8(VID_CONTROL, 0x16);
    memory.write_u8(VID_SCROLL, 0x12);
    memory.write_u8(VID_BASE, 0x80);
    memory.write_u8(VID_COLOR, 0x93);
    // bitmap at $C000, colours at $C400; tile 0, line 2, pixel 1
    memory.write_u8(0xC000 + 2, 0b00_11_00_00);
    memory.write_u8(VID_SCREEN_COLORS, 0x50);
    let mut pixels = frame();
    render_pixels(&mut memory, &mut pixels);
    // the first pixel of the picture shows pixel (1, 2) of tile 0
    assert_eq!(pixels[at(8, 12)], Color::palette(5));
    assert_eq!(pixels[at(9, 12)], Color::palette(5));
    assert_eq!(pixels[at(10, 12)], Color::palette(0));
    // the border is wider
    assert_eq!(pixels[at(7, 12)], Color::palette(3));
    assert_eq!(pixels[at(8, 11)], Color::palette(3));
    assert_eq!(pixels[at(8 + 2 * 152, 12)], Color::palette(3));
    assert_eq!(pixels[at(8, 12 + 192)], Color::palette(3));
}

#[test]
fn row_effects_change_registers_between_rows() {
    let mut memory = Contiguous::new_ram(0x10000);
    memory.write_u8(VID_CONTROL, 0x18);
    memory.write_u8(VID_COLOR, 0x10);
    memory.write_u8(VID_SCREEN_COLORS, 0x21);
    // every pixel of the bitmap takes the first screen colour
    for address in 0xA000..0xA000 + 8000u16 {
        memory.write_u8(address, 0b10_10_10_10);
    }
    // behind the first line of tile row 1 the screen colours become $43
    memory.write_u8(VID_ROW_EFFECT_CONTROL + 5, 0x80 | (2 << 5) | 1);
    memory.write_u8(VID_ROW_EFFECT_DATA + 5, 0x43);
    // a switched off effect for the same row
    memory.write_u8(VID_ROW_EFFECT_CONTROL + 6, (2 << 5) | 1);
    memory.write_u8(VID_ROW_EFFECT_DATA + 6, 0x65);
    let mut pixels = frame();
    render_pixels(&mut memory, &mut pixels);
    assert_eq!(pixels[at(4, 8)], Color::palette(1));
    assert_eq!(pixels[at(4, 8 + 8)], Color::palette(1));
    assert_eq!(pixels[at(4, 8 + 9)], Color::palette(3));
    assert_eq!(pixels[at(4, 8 + 199)], Color::palette(3));
}
