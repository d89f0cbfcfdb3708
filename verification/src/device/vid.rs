use crate::memory::Memory;
use vstd::prelude::*;

verus! {

/// Width of the picture area in pixels of the low resolution.
pub const CONTENT_WIDTH: u8 = 160;

/// Width of the picture area in pixels of the high resolution.
pub const HIRES_WIDTH: u16 = 320;

/// Height of the picture area in lines.
pub const CONTENT_HEIGHT: u8 = 200;

/// Width of the border left and right of the picture area.
pub const BORDER_X: u32 = 4;

/// Height of the border above and below the picture area.
pub const BORDER_Y: u32 = 8;

/// Width of the frame: the picture area in high resolution and the border.
pub const WIDTH: u32 = 328;

/// Height of the frame: the picture area and the border.
pub const HEIGHT: u32 = 216;

/// Address of the control register of the display.
pub const VID_CONTROL: u16 = 0xD001;

/// Address of the register with the border colour and the place of the
/// colour memory.
pub const VID_COLOR: u16 = 0xD002;

/// Address of the register with the places of screen and character memory.
pub const VID_BASE: u16 = 0xD003;

/// Address of the scroll register.
pub const VID_SCROLL: u16 = 0xD004;

/// Address of the register with the two colours shared by the screen.
pub const VID_SCREEN_COLORS: u16 = 0xD005;

/// Address of the sprite register.
pub const VID_SPRITE: u16 = 0xD006;

/// Address of the first of 32 row effect control bytes.
pub const VID_ROW_EFFECT_CONTROL: u16 = 0xD040;

/// Address of the first of 32 row effect data bytes.
pub const VID_ROW_EFFECT_DATA: u16 = 0xD060;

/// Address of the first sprite bank.
pub const VID_SPRITE_BANKS: u16 = 0xD080;

/// Address at which the memory shared with the display starts.
pub const VID_MEMORY: u16 = 0xA000;

/// Width of a sprite in pixels.
pub const SPRITE_WIDTH: u8 = 12;

/// Height of a sprite in lines.
pub const SPRITE_HEIGHT: u8 = 21;

/// The sixteen colours of the machine as 0xRRGGBB: black, white, red, cyan,
/// purple, green, blue, yellow, orange, brown, light red, dark gray, gray,
/// light green, light blue, light gray.
pub const PALETTE: [u32; 16] = [
    0x000000,
    0xffffff,
    0xcc0000,
    0x99ffd9,
    0xcc0099,
    0x33ff66,
    0x0d0066,
    0xffe699,
    0xffbf99,
    0xcc4d00,
    0xff9999,
    0x666666,
    0x999999,
    0x99ffb3,
    0xa699ff,
    0xcccccc,
];

/// A pixel of the frame: red, green, blue and opacity.
#[derive(Debug, Copy, Clone, PartialEq, Eq, Structural)]
pub struct Color {
    pub r: u8,
    pub g: u8,
    pub b: u8,
    pub a: u8,
}

/// The opaque colour 0xRRGGBB.
pub open spec fn rgb(color: u32) -> Color {
    Color {
        r: ((color >> 16) & 0xFF) as u8,
        g: ((color >> 8) & 0xFF) as u8,
        b: (color & 0xFF) as u8,
        a: 255,
    }
}

/// The colour of the palette with the number in the low four bits of
/// `index`.
pub open spec fn palette(index: u8) -> Color {
    rgb(PALETTE@[(index & 0xF) as int])
}

impl Color {
    /// The opaque colour 0xRRGGBB.
    pub fn rgb(color: u32) -> (pixel: Self)
        ensures
            pixel == rgb(color),
    {
        assert((color >> 16) & 0xFF < 256 && (color >> 8) & 0xFF < 256 && color & 0xFF < 256)
            by (bit_vector);
        Self {
            r: ((color >> 16) & 0xFF) as u8,
            g: ((color >> 8) & 0xFF) as u8,
            b: (color & 0xFF) as u8,
            a: 255,
        }
    }

    /// The colour of the palette with the number in the low four bits of
    /// `index`.
    pub fn palette(index: u8) -> (pixel: Self)
        ensures
            pixel == palette(index),
    {
        assert(index & 0xF < 16) by (bit_vector);
        Self::rgb(PALETTE[(index & 0xF) as usize])
    }
}

impl Default for Color {
    fn default() -> (pixel: Self)
        ensures
            pixel == rgb(0),
    {
        Color::rgb(0x000000)
    }
}

/// What the control register and the colour register say about a frame.
#[derive(Debug, Copy, Clone, PartialEq, Eq, Structural)]
pub struct Mode {
    /// the picture area is not drawn
    pub disable_video: bool,
    /// the picture is shifted down by the scroll register and loses a row
    pub enable_v_scroll: bool,
    /// the picture is shifted right by the scroll register and loses two
    /// columns
    pub enable_h_scroll: bool,
    /// the row effects change the registers between rows
    pub enable_row_effects: bool,
    /// the screen memory holds pixel rows in place of character numbers
    pub bitmap_mode: bool,
    /// one bit per pixel at twice the width; no scrolling and no sprites
    pub hires_mode: bool,
    /// the border colour
    pub border: u8,
    /// the address of the colour memory
    pub color_memory_start: u16,
}

/// The registers that a row effect can change.
#[derive(Debug, Copy, Clone, PartialEq, Eq, Structural)]
pub struct Registers {
    pub base: u8,
    pub scroll: u8,
    pub screen_colors: u8,
    pub sprite: u8,
}

/// `address + offset` modulo 65536.
pub open spec fn offset_address(address: u16, offset: int) -> u16 {
    ((address + offset) % 0x10000) as u16
}

impl Mode {
    /// The mode that the control register `control` and the colour register
    /// `color` select.
    pub open spec fn decode(control: u8, color: u8) -> Mode {
        let hires_mode = (control & 0x20) != 0;
        Mode {
            disable_video: (control & 0x1) != 0,
            enable_v_scroll: (control & 0x2) != 0 && !hires_mode,
            enable_h_scroll: (control & 0x4) != 0 && !hires_mode,
            enable_row_effects: (control & 0x8) != 0,
            bitmap_mode: (control & 0x10) != 0,
            hires_mode,
            border: color,
            color_memory_start: offset_address(VID_MEMORY, 0x400 * (color >> 4)),
        }
    }

    /// The number of pixels in a line of the picture.
    pub open spec fn spec_width(&self) -> u16 {
        let columns: u16 = if self.enable_h_scroll {
            152
        } else {
            160
        };
        if self.hires_mode {
            (columns * 2) as u16
        } else {
            columns
        }
    }

    /// The number of lines of the picture.
    pub open spec fn spec_height(&self) -> u8 {
        if self.enable_v_scroll {
            192
        } else {
            200
        }
    }

    /// The column of the frame at which the picture starts.
    pub open spec fn spec_border_x(&self) -> usize {
        if self.enable_h_scroll {
            8
        } else {
            4
        }
    }

    /// The line of the frame at which the picture starts.
    pub open spec fn spec_border_y(&self) -> usize {
        if self.enable_v_scroll {
            12
        } else {
            8
        }
    }

    /// Whether the flags agree with each other: the high resolution has no
    /// scrolling.
    pub open spec fn wf(&self) -> bool {
        self.hires_mode ==> !self.enable_h_scroll && !self.enable_v_scroll
    }

    /// The mode that the two registers select.
    pub fn new(control: u8, color: u8) -> (mode: Mode)
        ensures
            mode == Mode::decode(control, color),
            mode.wf(),
    {
        let hires_mode = (control & 0x20) != 0;
        assert(color >> 4 < 16) by (bit_vector);
        Mode {
            disable_video: (control & 0x1) != 0,
            enable_v_scroll: (control & 0x2) != 0 && !hires_mode,
            enable_h_scroll: (control & 0x4) != 0 && !hires_mode,
            enable_row_effects: (control & 0x8) != 0,
            bitmap_mode: (control & 0x10) != 0,
            hires_mode,
            border: color,
            color_memory_start: VID_MEMORY.wrapping_add(0x400 * ((color >> 4) as u16)),
        }
    }

    #[verifier::when_used_as_spec(spec_width)]
    pub fn width(&self) -> (width: u16)
        ensures
            width == self.spec_width(),
    {
        let columns: u16 = CONTENT_WIDTH as u16 - if self.enable_h_scroll {
            2 * 4
        } else {
            0
        };
        if self.hires_mode {
            columns * 2
        } else {
            columns
        }
    }

    #[verifier::when_used_as_spec(spec_height)]
    pub fn height(&self) -> (height: u8)
        ensures
            height == self.spec_height(),
    {
        CONTENT_HEIGHT - if self.enable_v_scroll {
            8
        } else {
            0
        }
    }

    #[verifier::when_used_as_spec(spec_border_x)]
    pub fn border_x(&self) -> (border: usize)
        ensures
            border == self.spec_border_x(),
    {
        BORDER_X as usize + if self.enable_h_scroll {
            2 * 2
        } else {
            0
        }
    }

    #[verifier::when_used_as_spec(spec_border_y)]
    pub fn border_y(&self) -> (border: usize)
        ensures
            border == self.spec_border_y(),
    {
        BORDER_Y as usize + if self.enable_v_scroll {
            4
        } else {
            0
        }
    }
}

/// A palette index read from the display memory, with the bus after the
/// reads.
pub struct Looked<V> {
    pub index: u8,
    pub memory: V,
}

/// The tile that holds a pixel of the picture, and the place of the pixel
/// in the tile.
pub struct Place {
    /// the number of the tile, counted row by row, 40 to a row
    pub tile: u16,
    /// the column of the pixel in the tile
    pub column: u16,
    /// the line of the pixel in the tile
    pub line: u16,
}

/// The place of the pixel `(x, y)` of the picture, shifted by the scroll
/// register where the mode scrolls. A tile is 8 lines high, and 4 pixels
/// wide in the low and 8 in the high resolution.
pub open spec fn place(mode: Mode, scroll: u8, x: u16, y: u16) -> Place {
    let vertical = if mode.enable_v_scroll {
        scroll & 0x7
    } else {
        0
    };
    let horizontal = if mode.enable_h_scroll {
        (scroll >> 4) & 0x3
    } else {
        0
    };
    let tile_width: int = if mode.hires_mode {
        8
    } else {
        4
    };
    let scrolled_x = x + horizontal;
    let scrolled_y = y + vertical;
    Place {
        tile: ((scrolled_y / 8) * 40 + scrolled_x / tile_width) as u16,
        column: (scrolled_x % tile_width) as u16,
        line: (scrolled_y % 8) as u16,
    }
}

/// The pixels of one line of a tile, with the bus after reading them: in
/// bitmap mode the screen memory holds them, tile by tile; else the screen
/// memory holds the number of a character, whose lines the character
/// memory holds.
pub open spec fn tile_row<M: Memory>(m: M::V, mode: Mode, base: u8, at: Place) -> Looked<M::V> {
    let screen = offset_address(VID_MEMORY, 0x400 * (base >> 4));
    let characters = offset_address(VID_MEMORY, 0x800 * (base & 0xF));
    if mode.bitmap_mode {
        let address = offset_address(screen, 8 * at.tile + at.line);
        Looked { index: M::read_value(m, address), memory: M::read_effect(m, address) }
    } else {
        let address = offset_address(screen, at.tile as int);
        let character = M::read_value(m, address);
        let m1 = M::read_effect(m, address);
        let row = offset_address(characters, 8 * character + at.line);
        Looked { index: M::read_value(m1, row), memory: M::read_effect(m1, row) }
    }
}

/// The colour number that the tiles give the pixel at `at`. In the high
/// resolution a pixel is one bit that chooses between the two colours of
/// its tile; in the low resolution it is two bits that choose among the two
/// colours of the tile and the two colours of the screen.
pub open spec fn background<M: Memory>(
    m: M::V,
    mode: Mode,
    registers: Registers,
    at: Place,
) -> Looked<M::V> {
    let row = tile_row::<M>(m, mode, registers.base, at);
    let colors_at = offset_address(mode.color_memory_start, at.tile as int);
    let local = M::read_value(row.memory, colors_at);
    let memory = M::read_effect(row.memory, colors_at);
    if mode.hires_mode {
        let pixel = (row.index >> ((7 - at.column) as u8)) & 0x1;
        Looked {
            index: if pixel == 0 {
                local & 0xF
            } else {
                local >> 4
            },
            memory,
        }
    } else {
        let pixel = (row.index >> ((2 * (3 - at.column)) as u8)) & 0x3;
        Looked {
            index: if pixel == 0 {
                local & 0xF
            } else if pixel == 1 {
                local >> 4
            } else if pixel == 2 {
                registers.screen_colors & 0xF
            } else {
                registers.screen_colors >> 4
            },
            memory,
        }
    }
}

/// The colour number of the pixel `(x, y)` after sprite `number` of the
/// selected bank was laid over the colour number `under`. A sprite is 12
/// pixels wide and 21 lines high and ends before its position; where the
/// pixel lies outside of it only its position bytes are read. Two bits
/// per pixel choose between transparency, the two colours of the sprite
/// and the colour shared by all sprites.
pub open spec fn sprite_over<M: Memory>(
    m: M::V,
    sprite: u8,
    number: u16,
    x: u16,
    y: u16,
    under: u8,
) -> Looked<M::V> {
    let data = offset_address(VID_SPRITE_BANKS, 0x20 * (sprite >> 4) + 4 * number);
    let right = M::read_value(m, data);
    let m1 = M::read_effect(m, data);
    if !(right - SPRITE_WIDTH <= x < right) {
        Looked { index: under, memory: m1 }
    } else {
        let bottom = M::read_value(m1, offset_address(data, 1));
        let m2 = M::read_effect(m1, offset_address(data, 1));
        if !(bottom - SPRITE_HEIGHT <= y < bottom) {
            Looked { index: under, memory: m2 }
        } else {
            let colors = M::read_value(m2, offset_address(data, 2));
            let m3 = M::read_effect(m2, offset_address(data, 2));
            let location = offset_address(
                VID_MEMORY,
                0x40 * M::read_value(m3, offset_address(data, 3)),
            );
            let m4 = M::read_effect(m3, offset_address(data, 3));
            let pixel = (y - (bottom - SPRITE_HEIGHT)) * SPRITE_WIDTH + (x - (right
                - SPRITE_WIDTH));
            let address = offset_address(location, pixel / 4);
            let bits = (M::read_value(m4, address) >> ((2 * (3 - pixel % 4)) as u8)) & 0x3;
            Looked {
                index: if bits == 0 {
                    under
                } else if bits == 1 {
                    colors & 0xF
                } else if bits == 2 {
                    colors >> 4
                } else {
                    sprite & 0xF
                },
                memory: M::read_effect(m4, address),
            }
        }
    }
}

/// The colour number of the pixel `(x, y)` after the first `count` sprites
/// of the selected bank were laid over `under`, in order.
pub open spec fn sprites_over<M: Memory>(
    m: M::V,
    sprite: u8,
    count: int,
    x: u16,
    y: u16,
    under: u8,
) -> Looked<M::V>
    decreases count,
{
    if count <= 0 {
        Looked { index: under, memory: m }
    } else {
        let below = sprites_over::<M>(m, sprite, count - 1, x, y, under);
        sprite_over::<M>(below.memory, sprite, (count - 1) as u16, x, y, below.index)
    }
}

/// The colour number of the pixel `(x, y)` of the picture: the background,
/// and in the low resolution the eight sprites over it.
pub open spec fn pixel<M: Memory>(
    m: M::V,
    mode: Mode,
    registers: Registers,
    x: u16,
    y: u16,
) -> Looked<M::V> {
    let under = background::<M>(m, mode, registers, place(mode, registers.scroll, x, y));
    if mode.hires_mode {
        under
    } else {
        sprites_over::<M>(under.memory, registers.sprite, 8, x, y, under.index)
    }
}

/// Finds the tile of a pixel.
fn find_place(mode: &Mode, scroll: u8, x: u16, y: u16) -> (at: Place)
    requires
        mode.wf(),
        x < mode.spec_width(),
        y < 200,
    ensures
        at == place(*mode, scroll, x, y),
        at.tile <= 1040,
        at.line < 8,
        at.column < 8,
        !mode.hires_mode ==> at.column < 4,
{
    assert(scroll & 0x7 < 8 && (scroll >> 4) & 0x3 < 4) by (bit_vector);
    let v_scroll_amount = if mode.enable_v_scroll {
        scroll & 0x7
    } else {
        0
    };
    let h_scroll_amount = if mode.enable_h_scroll {
        (scroll >> 4) & 0x3
    } else {
        0
    };
    let scrolled_x = x + h_scroll_amount as u16;
    let scrolled_y = y + v_scroll_amount as u16;
    let tile_width: u16 = if mode.hires_mode {
        8
    } else {
        4
    };
    let tile_x = scrolled_x / tile_width;
    let tile_y = scrolled_y / 8;
    Place { tile: tile_y * 40 + tile_x, column: scrolled_x % tile_width, line: scrolled_y % 8 }
}

/// Reads one line of a tile.
fn read_tile_row<M: Memory>(memory: &mut M, mode: &Mode, base: u8, at: &Place) -> (row: u8)
    requires
        old(memory).wf(),
        at.tile <= 1040,
        at.line < 8,
    ensures
        final(memory).wf(),
        tile_row::<M>(old(memory)@, *mode, base, *at) == (Looked {
            index: row,
            memory: final(memory)@,
        }),
{
    assert(base >> 4 < 16 && base & 0xF < 16) by (bit_vector);
    let screen_memory_start = VID_MEMORY.wrapping_add(0x400 * ((base >> 4) as u16));
    let character_memory_start = VID_MEMORY.wrapping_add(0x800 * ((base & 0xF) as u16));
    if mode.bitmap_mode {
        memory.read_u8(screen_memory_start.wrapping_add(8 * at.tile + at.line))
    } else {
        let character = memory.read_u8(screen_memory_start.wrapping_add(at.tile));
        memory.read_u8(character_memory_start.wrapping_add(8 * character as u16 + at.line))
    }
}

/// Reads the colour number that the tiles give a pixel.
fn read_background<M: Memory>(
    memory: &mut M,
    mode: &Mode,
    registers: &Registers,
    at: &Place,
) -> (index: u8)
    requires
        old(memory).wf(),
        at.tile <= 1040,
        at.line < 8,
        at.column < 8,
        !mode.hires_mode ==> at.column < 4,
    ensures
        final(memory).wf(),
        background::<M>(old(memory)@, *mode, *registers, *at) == (Looked {
            index,
            memory: final(memory)@,
        }),
{
    let character_data_row = read_tile_row(memory, mode, registers.base, at);
    let local_colors = memory.read_u8(mode.color_memory_start.wrapping_add(at.tile));
    if mode.hires_mode {
        let character_data_pixel = (character_data_row >> ((7 - at.column) as u8)) & 0x1;
        if character_data_pixel == 0 {
            local_colors & 0xF
        } else {
            local_colors >> 4
        }
    } else {
        let character_data_pixel = (character_data_row >> ((2 * (3 - at.column)) as u8)) & 0x3;
        if character_data_pixel == 0 {
            local_colors & 0xF
        } else if character_data_pixel == 1 {
            local_colors >> 4
        } else if character_data_pixel == 2 {
            registers.screen_colors & 0xF
        } else {
            registers.screen_colors >> 4
        }
    }
}

/// Lays one sprite over a pixel.
fn read_sprite<M: Memory>(memory: &mut M, sprite: u8, number: u16, x: u16, y: u16, under: u8) -> (index:
    u8)
    requires
        old(memory).wf(),
        number < 8,
        x < 320,
        y < 200,
    ensures
        final(memory).wf(),
        sprite_over::<M>(old(memory)@, sprite, number, x, y, under) == (Looked {
            index,
            memory: final(memory)@,
        }),
{
    assert(sprite >> 4 < 16) by (bit_vector);
    let sprite_bank_start = VID_SPRITE_BANKS.wrapping_add(0x20 * ((sprite >> 4) as u16));
    let sprite_data_start = sprite_bank_start.wrapping_add(4 * number);
    let sprite_pos_x = memory.read_u8(sprite_data_start);
    let min_x = (sprite_pos_x as i16) - (SPRITE_WIDTH as i16);
    let max_x = sprite_pos_x as i16;
    if !(min_x <= x as i16 && (x as i16) < max_x) {
        return under;
    }
    let sprite_pos_y = memory.read_u8(sprite_data_start.wrapping_add(1));
    let min_y = (sprite_pos_y as i16) - (SPRITE_HEIGHT as i16);
    let max_y = sprite_pos_y as i16;
    if !(min_y <= y as i16 && (y as i16) < max_y) {
        return under;
    }
    let sprite_colors = memory.read_u8(sprite_data_start.wrapping_add(2));
    let sprite_location = VID_MEMORY.wrapping_add(
        0x40 * memory.read_u8(sprite_data_start.wrapping_add(3)) as u16,
    );
    let in_sprite_x = (x as i16 - min_x) as u8;
    let in_sprite_y = (y as i16 - min_y) as u8;
    let sprite_pixel_index = in_sprite_y * SPRITE_WIDTH + in_sprite_x;
    let sprite_byte_index = sprite_pixel_index / 4;
    let sprite_byte_bit_shift = 2 * (3 - (sprite_pixel_index % 4));
    let sprite_pixel_data = (memory.read_u8(
        sprite_location.wrapping_add(sprite_byte_index as u16),
    ) >> sprite_byte_bit_shift) & 0x3;
    if sprite_pixel_data == 0 {
        under  // transparent
    } else if sprite_pixel_data == 1 {
        sprite_colors & 0xF
    } else if sprite_pixel_data == 2 {
        sprite_colors >> 4
    } else {
        sprite & 0xF
    }
}

/// Reads the colour number of a pixel of the picture.
fn read_pixel<M: Memory>(memory: &mut M, mode: &Mode, registers: &Registers, x: u16, y: u16) -> (index:
    u8)
    requires
        old(memory).wf(),
        mode.wf(),
        x < mode.spec_width(),
        y < 200,
    ensures
        final(memory).wf(),
        pixel::<M>(old(memory)@, *mode, *registers, x, y) == (Looked {
            index,
            memory: final(memory)@,
        }),
{
    let at = find_place(mode, registers.scroll, x, y);
    let mut palette_index = read_background(memory, mode, registers, &at);
    if !mode.hires_mode {
        let ghost start = memory@;
        let ghost under = palette_index;
        let mut sprite_index: u16 = 0;
        while sprite_index < 8
            invariant
                sprite_index <= 8,
                x < 320,
                y < 200,
                memory.wf(),
                sprites_over::<M>(start, registers.sprite, sprite_index as int, x, y, under) == (
                Looked { index: palette_index, memory: memory@ }),
            decreases 8 - sprite_index,
        {
            palette_index = read_sprite(memory, registers.sprite, sprite_index, x, y, palette_index);
            sprite_index += 1;
        }
    }
    palette_index
}

/// The frame being drawn and the bus being read for it.
pub struct Canvas<V> {
    pub memory: V,
    pub pixels: Seq<Color>,
}

/// The index in the frame of the pixel `(x, y)` of the picture. The frame
/// is stored line by line; a pixel of the low resolution is two columns
/// wide.
pub open spec fn position(mode: Mode, x: u16, y: u16) -> int {
    (y + mode.spec_border_y()) * WIDTH + (if mode.hires_mode {
        x as int
    } else {
        2 * x
    }) + mode.spec_border_x()
}

/// The frame with the pixel `(x, y)` of the picture in `color`.
pub open spec fn put(pixels: Seq<Color>, mode: Mode, x: u16, y: u16, color: Color) -> Seq<Color> {
    let at = position(mode, x, y);
    if mode.hires_mode {
        pixels.update(at, color)
    } else {
        pixels.update(at, color).update(at + 1, color)
    }
}

/// The canvas after the first `count` pixels of line `y` were drawn, from
/// left to right.
pub open spec fn line<M: Memory>(
    canvas: Canvas<M::V>,
    mode: Mode,
    registers: Registers,
    y: u16,
    count: int,
) -> Canvas<M::V>
    decreases count,
{
    if count <= 0 {
        canvas
    } else {
        let before = line::<M>(canvas, mode, registers, y, count - 1);
        let looked = pixel::<M>(before.memory, mode, registers, (count - 1) as u16, y);
        Canvas {
            memory: looked.memory,
            pixels: put(before.pixels, mode, (count - 1) as u16, y, palette(looked.index)),
        }
    }
}

/// The registers after row effects, with the bus after reading the effects.
pub struct Effected<V> {
    pub registers: Registers,
    pub memory: V,
}

/// The registers after row effect `number` was applied behind tile row
/// `row`. An effect is switched on by bit 7 of its control byte, names its
/// row in the low five bits and its register in bits 5 and 6; its data byte
/// is read only where it applies.
pub open spec fn row_effect<M: Memory>(
    m: M::V,
    registers: Registers,
    row: u8,
    number: u16,
) -> Effected<M::V> {
    let control_at = offset_address(VID_ROW_EFFECT_CONTROL, number as int);
    let control = M::read_value(m, control_at);
    let m1 = M::read_effect(m, control_at);
    if control & 0x80 == 0 || control & 0x1F != row {
        Effected { registers, memory: m1 }
    } else {
        let data_at = offset_address(VID_ROW_EFFECT_DATA, number as int);
        let data = M::read_value(m1, data_at);
        let destination = (control >> 5) & 0x3;
        Effected {
            registers: if destination == 0 {
                Registers { base: data, ..registers }
            } else if destination == 1 {
                Registers { scroll: data, ..registers }
            } else if destination == 2 {
                Registers { screen_colors: data, ..registers }
            } else {
                Registers { sprite: data, ..registers }
            },
            memory: M::read_effect(m1, data_at),
        }
    }
}

/// The registers after the first `count` row effects were applied behind
/// tile row `row`, in order.
pub open spec fn row_effects<M: Memory>(
    m: M::V,
    registers: Registers,
    row: u8,
    count: int,
) -> Effected<M::V>
    decreases count,
{
    if count <= 0 {
        Effected { registers, memory: m }
    } else {
        let before = row_effects::<M>(m, registers, row, count - 1);
        row_effect::<M>(before.memory, before.registers, row, (count - 1) as u16)
    }
}

/// The canvas and the registers after lines were drawn.
pub struct Drawn<V> {
    pub canvas: Canvas<V>,
    pub registers: Registers,
}

/// The canvas after the first `count` lines of the picture were drawn, from
/// top to bottom. Where the mode asks for row effects, they are applied
/// behind the first line of each tile row.
pub open spec fn lines<M: Memory>(
    canvas: Canvas<M::V>,
    mode: Mode,
    registers: Registers,
    count: int,
) -> Drawn<M::V>
    decreases count,
{
    if count <= 0 {
        Drawn { canvas, registers }
    } else {
        let before = lines::<M>(canvas, mode, registers, count - 1);
        let y = (count - 1) as u16;
        let drawn = line::<M>(before.canvas, mode, before.registers, y, mode.spec_width() as int);
        if mode.enable_row_effects && y % 8 == 0 {
            let effected = row_effects::<M>(drawn.memory, before.registers, (y / 8) as u8, 32);
            Drawn {
                canvas: Canvas { memory: effected.memory, pixels: drawn.pixels },
                registers: effected.registers,
            }
        } else {
            Drawn { canvas: drawn, registers: before.registers }
        }
    }
}

/// The state of the bus after the byte at `address` was read.
pub open spec fn after<M: Memory>(m: M::V, address: u16) -> M::V {
    M::read_effect(m, address)
}

/// A frame of `length` pixels drawn from the display memory: the whole
/// frame in the border colour, and over it, unless the display is switched
/// off, the lines of the picture.
pub open spec fn render<M: Memory>(m: M::V, length: nat) -> Canvas<M::V> {
    let control = M::read_value(m, VID_CONTROL);
    let m1 = after::<M>(m, VID_CONTROL);
    let color = M::read_value(m1, VID_COLOR);
    let m2 = after::<M>(m1, VID_COLOR);
    let mode = Mode::decode(control, color);
    let filled = Seq::new(length, |i: int| palette(color));
    if mode.disable_video {
        Canvas { memory: m2, pixels: filled }
    } else {
        let m3 = after::<M>(m2, VID_BASE);
        let m4 = after::<M>(m3, VID_SCROLL);
        let m5 = after::<M>(m4, VID_SCREEN_COLORS);
        let registers = Registers {
            base: M::read_value(m2, VID_BASE),
            scroll: M::read_value(m3, VID_SCROLL),
            screen_colors: M::read_value(m4, VID_SCREEN_COLORS),
            sprite: M::read_value(m5, VID_SPRITE),
        };
        lines::<M>(
            Canvas { memory: after::<M>(m5, VID_SPRITE), pixels: filled },
            mode,
            registers,
            mode.spec_height() as int,
        ).canvas
    }
}

/// Draws one line of the picture.
fn render_line<M: Memory>(
    memory: &mut M,
    raw_pixels: &mut [Color],
    mode: &Mode,
    registers: &Registers,
    y: u16,
)
    requires
        old(memory).wf(),
        mode.wf(),
        y < mode.spec_height(),
        old(raw_pixels)@.len() >= WIDTH * HEIGHT,
    ensures
        final(memory).wf(),
        final(raw_pixels)@.len() == old(raw_pixels)@.len(),
        line::<M>(
            Canvas { memory: old(memory)@, pixels: old(raw_pixels)@ },
            *mode,
            *registers,
            y,
            mode.spec_width() as int,
        ) == (Canvas { memory: final(memory)@, pixels: final(raw_pixels)@ }),
{
    let width = mode.width();
    let border_x = mode.border_x();
    let border_y = mode.border_y();
    let ghost start = Canvas { memory: memory@, pixels: raw_pixels@ };
    let mut x: u16 = 0;
    while x < width
        invariant
            x <= width,
            width == mode.spec_width(),
            border_x == mode.spec_border_x(),
            border_y == mode.spec_border_y(),
            mode.wf(),
            y < mode.spec_height(),
            memory.wf(),
            raw_pixels@.len() == start.pixels.len(),
            raw_pixels@.len() >= WIDTH * HEIGHT,
            line::<M>(start, *mode, *registers, y, x as int) == (Canvas {
                memory: memory@,
                pixels: raw_pixels@,
            }),
        decreases width - x,
    {
        let palette_index = read_pixel(memory, mode, registers, x, y);
        let target_color = Color::palette(palette_index);
        if mode.hires_mode {
            let target_pos = (y as usize + border_y) * WIDTH as usize + (x as usize + border_x);
            raw_pixels[target_pos] = target_color;
        } else {
            let target_pos = (y as usize + border_y) * WIDTH as usize + (2 * x as usize
                + border_x);
            raw_pixels[target_pos] = target_color;
            raw_pixels[target_pos + 1] = target_color;
        }
        x += 1;
    }
}

/// Applies one row effect.
fn apply_row_effect<M: Memory>(memory: &mut M, registers: &Registers, row: u8, number: u16) -> (changed:
    Registers)
    requires
        old(memory).wf(),
        number < 32,
    ensures
        final(memory).wf(),
        row_effect::<M>(old(memory)@, *registers, row, number) == (Effected {
            registers: changed,
            memory: final(memory)@,
        }),
{
    let effect_control = memory.read_u8(VID_ROW_EFFECT_CONTROL + number);
    if effect_control & 0x80 == 0 {
        return *registers;
    }
    if effect_control & 0x1F != row {
        return *registers;
    }
    let destination = (effect_control >> 5) & 0x3;
    let effect_data = memory.read_u8(VID_ROW_EFFECT_DATA + number);
    let mut changed = *registers;
    if destination == 0 {
        changed.base = effect_data;
    } else if destination == 1 {
        changed.scroll = effect_data;
    } else if destination == 2 {
        changed.screen_colors = effect_data;
    } else {
        changed.sprite = effect_data;
    }
    changed
}

/// Whether the control register, as the bus reads it in state `m`, has the
/// display switched on.
pub open spec fn video_enabled<M: Memory>(m: M::V) -> bool {
    (M::read_value(m, VID_CONTROL) & 0x1) == 0
}

/// Draws a frame from the display memory behind the bus: the whole frame in
/// the border colour, and over it, unless the display is switched off, the
/// picture. With the display switched on the frame must hold `WIDTH` times
/// `HEIGHT` pixels, line by line; with the display switched off a frame of
/// any length is painted in the border colour, and only the control and the
/// colour register are read.
pub fn render_pixels<M: Memory>(memory: &mut M, raw_pixels: &mut [Color])
    requires
        old(memory).wf(),
        video_enabled::<M>(old(memory)@) ==> old(raw_pixels)@.len() >= WIDTH * HEIGHT,
    ensures
        final(memory).wf(),
        render::<M>(old(memory)@, old(raw_pixels)@.len()) == (Canvas {
            memory: final(memory)@,
            pixels: final(raw_pixels)@,
        }),
{
    let control = memory.read_u8(VID_CONTROL);
    let color = memory.read_u8(VID_COLOR);
    let mode = Mode::new(control, color);
    // fill with border color
    let border = Color::palette(color);
    let length = raw_pixels.len();
    let mut i: usize = 0;
    while i < length
        invariant
            i <= length,
            raw_pixels@.len() == length,
            forall|k: int| 0 <= k < i ==> raw_pixels@[k] == border,
        decreases length - i,
    {
        raw_pixels[i] = border;
        i += 1;
    }
    assert(raw_pixels@ =~= Seq::new(length as nat, |i: int| palette(color)));
    if mode.disable_video {
        return ;
    }
    let height = mode.height();
    let mut registers = Registers {
        base: memory.read_u8(VID_BASE),
        scroll: memory.read_u8(VID_SCROLL),
        screen_colors: memory.read_u8(VID_SCREEN_COLORS),
        sprite: memory.read_u8(VID_SPRITE),
    };
    let ghost start = Canvas { memory: memory@, pixels: raw_pixels@ };
    let ghost first = registers;
    let mut y: u8 = 0;
    while y < height
        invariant
            y <= height,
            height == mode.spec_height(),
            mode.wf(),
            memory.wf(),
            raw_pixels@.len() == length,
            length >= WIDTH * HEIGHT,
            lines::<M>(start, mode, first, y as int) == (Drawn {
                canvas: Canvas { memory: memory@, pixels: raw_pixels@ },
                registers,
            }),
        decreases height - y,
    {
        render_line(memory, raw_pixels, &mode, &registers, y as u16);
        let tile_y = y / 8;
        let in_tile_y = y % 8;
        if mode.enable_row_effects && in_tile_y == 0 {
            let ghost drawn = memory@;
            let ghost before = registers;
            let mut effect_index: u16 = 0;
            while effect_index < 32
                invariant
                    effect_index <= 32,
                    memory.wf(),
                    row_effects::<M>(drawn, before, tile_y, effect_index as int) == (Effected {
                        registers,
                        memory: memory@,
                    }),
                decreases 32 - effect_index,
            {
                registers = apply_row_effect(memory, &registers, tile_y, effect_index);
                effect_index += 1;
            }
        }
        y += 1;
    }
}

} // verus!
