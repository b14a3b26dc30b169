//! Pictures of what the PPU holds: tiles of the pattern tables, drawn with
//! the colors of a palette into a frame of RGBA pixels.
//!
//! Everything the pictures are made of is read over the PPU's own bus, one
//! load after the other, so each function here is described together with
//! the state in which it leaves the PPU.

use super::{Ppu, PpuBus, PpuState, NAMETABLE_START};
use crate::mem::address::{wrap16, Address};
use vstd::prelude::*;

verus! {

/// The width of the picture in pixels.
pub const FRAME_WIDTH: usize = 256;

/// The height of the picture in pixels.
pub const FRAME_HEIGHT: usize = 240;

/// The number of tiles in a name table: 30 rows of 32.
pub const TILES_PER_NAMETABLE: usize = 960;

/// Where the attribute table starts within a name table: it fills the last
/// 64 bytes.
pub const ATTRIBUTE_TABLE_OFFSET: u16 = 0x3C0;

/// Where the color of the background is in the PPU's address space.
pub const BG_COLOR: u16 = 0x3F00;

/// The number of bytes in a table of colors: red, green and blue for each
/// of the 64 colors that the PPU can put out.
pub const COLOR_TABLE_SIZE: usize = 192;

/// Four colors to draw a tile with: the background color, which all
/// palettes share, and three colors of the palette's own. Each is an index
/// into the table of the colors that the PPU can put out.
#[derive(Clone, Copy, Debug, PartialEq, Eq, Structural)]
pub struct Palette {
    pub background: u8,
    pub color1: u8,
    pub color2: u8,
    pub color3: u8,
}

/// A palette of four greys: black, dark grey, light grey and white.
pub open spec fn greyscale() -> Palette {
    Palette { background: 0x0F, color1: 0x00, color2: 0x10, color3: 0x30 }
}

/// A palette of four greys, for pictures that have no palette of their own.
pub fn greyscale_palette() -> (palette: Palette)
    ensures
        palette == greyscale(),
{
    Palette { background: 0x0F, color1: 0x00, color2: 0x10, color3: 0x30 }
}

/// The column and the row of the tile `tile_num` in a grid that is 32
/// tiles wide.
pub fn tile_coords(tile_num: u8) -> (coords: (u8, u8))
    ensures
        coords.0 == tile_num % 32,
        coords.1 == tile_num / 32,
{
    (tile_num % 32, tile_num / 32)
}

/// One pixel of a tile: a number from 0 to 3 that selects one of the four
/// colors of a palette.
#[derive(Clone, Copy, Debug)]
pub struct Pixel(u8);

impl View for Pixel {
    type V = u8;

    closed spec fn view(&self) -> u8 {
        self.0
    }
}

/// The number that a pixel is, from its low and its high bit.
pub open spec fn pixel_value(low: bool, high: bool) -> u8 {
    if high {
        if low {
            3
        } else {
            2
        }
    } else {
        if low {
            1
        } else {
            0
        }
    }
}

/// The color of the palette that a pixel selects: 0 is the background, and
/// 1 to 3 are the three colors of the palette.
pub open spec fn palette_color(palette: Palette, pixel: u8) -> u8 {
    if pixel == 0 {
        palette.background
    } else if pixel == 1 {
        palette.color1
    } else if pixel == 2 {
        palette.color2
    } else {
        palette.color3
    }
}

/// The four bytes of a pixel of the color `color`: red, green and blue as
/// the table `colors` has them for the six low bits of the color, and no
/// transparency.
pub open spec fn rgba_of(colors: Seq<u8>, color: u8) -> Seq<u8> {
    let at = 3 * (color as int % 64);
    seq![colors[at], colors[at + 1], colors[at + 2], 0xFFu8]
}

impl Pixel {
    #[verifier::type_invariant]
    spec fn in_range(self) -> bool {
        self.0 < 4
    }

    /// The pixel with the given low and high bit.
    pub fn from_bits(low: bool, high: bool) -> (pixel: Pixel)
        ensures
            pixel@ == pixel_value(low, high),
    {
        if high {
            if low {
                Pixel(3)
            } else {
                Pixel(2)
            }
        } else {
            if low {
                Pixel(1)
            } else {
                Pixel(0)
            }
        }
    }

    /// The color of the palette that the pixel selects.
    pub fn color(&self, palette: Palette) -> (color: u8)
        ensures
            color == palette_color(palette, self@),
    {
        if self.0 == 0 {
            palette.background
        } else if self.0 == 1 {
            palette.color1
        } else if self.0 == 2 {
            palette.color2
        } else {
            palette.color3
        }
    }

    /// The four bytes of the pixel in a frame. The PPU puts out 64 colors:
    /// of a color only the six low bits count.
    pub fn to_rgba(&self, palette: Palette, colors: &[u8]) -> (rgba: [u8; 4])
        requires
            colors@.len() >= COLOR_TABLE_SIZE,
        ensures
            rgba@ == rgba_of(colors@, palette_color(palette, self@)),
    {
        let color = (self.color(palette) % 64) as usize;
        let rgba = [colors[color * 3], colors[color * 3 + 1], colors[color * 3 + 2], 0xFF];
        assert(rgba@ =~= rgba_of(colors@, palette_color(palette, self@)));
        rgba
    }
}

/// A tile of 8 by 8 pixels from a pattern table. The two bits of a pixel
/// are kept apart: one byte of `low` holds the low bits of a row of eight
/// pixels, and the same byte of `high` their high bits, the leftmost pixel
/// in bit 7.
#[derive(Clone, Copy, Debug)]
pub struct Tile {
    pub low: [u8; 8],
    pub high: [u8; 8],
}

/// Whether the bit of `byte` is set that belongs to the pixel in column
/// `x` of a row.
pub open spec fn column_bit(byte: u8, x: int) -> bool {
    byte & (1u8 << ((7 - x) as u8)) != 0
}

/// The pixel in column `x` of row `y` of the tile with the given rows.
pub open spec fn tile_pixel(low: Seq<u8>, high: Seq<u8>, x: int, y: int) -> u8 {
    pixel_value(column_bit(low[y], x), column_bit(high[y], x))
}

/// The frame `frame` with the four bytes `rgba` put at `offset`.
pub open spec fn with_pixel(frame: Seq<u8>, offset: int, rgba: Seq<u8>) -> Seq<u8> {
    frame.update(offset, rgba[0]).update(offset + 1, rgba[1]).update(offset + 2, rgba[2]).update(
        offset + 3,
        rgba[3],
    )
}

/// Where the pixel at column `x` and row `y` starts in a frame that is
/// `width` pixels wide.
pub open spec fn pixel_offset(width: int, x: int, y: int) -> int {
    (y * width + x) * 4
}

/// The frame after the first `count` pixels of a tile were drawn at
/// (`pos_x`, `pos_y`). The pixels are drawn column by column, each column
/// from the top down; where two of them fall on the same place, which
/// takes a frame narrower than the tile, the later one stays.
pub open spec fn drawn(
    frame: Seq<u8>,
    low: Seq<u8>,
    high: Seq<u8>,
    width: int,
    pos_x: int,
    pos_y: int,
    palette: Palette,
    colors: Seq<u8>,
    count: nat,
) -> Seq<u8>
    decreases count,
{
    if count == 0 {
        frame
    } else {
        let x = (count - 1) / 8;
        let y = (count - 1) % 8;
        with_pixel(
            drawn(frame, low, high, width, pos_x, pos_y, palette, colors, (count - 1) as nat),
            pixel_offset(width, pos_x + x, pos_y + y),
            rgba_of(colors, palette_color(palette, tile_pixel(low, high, x, y))),
        )
    }
}

/// Whether a tile drawn at (`pos_x`, `pos_y`) stays within a frame of
/// `len` bytes that is `width` pixels wide.
pub open spec fn tile_fits(len: int, width: int, pos_x: int, pos_y: int) -> bool {
    width >= 1 && pixel_offset(width, pos_x + 7, pos_y + 7) + 4 <= len
}

/// The pixels of a tile lie before its last one.
proof fn lemma_pixel_in_frame(len: int, width: int, pos_x: int, pos_y: int, x: int, y: int)
    requires
        tile_fits(len, width, pos_x, pos_y),
        0 <= pos_x,
        0 <= pos_y,
        0 <= x < 8,
        0 <= y < 8,
    ensures
        0 <= (pos_y + y) * width <= (pos_y + 7) * width,
        0 <= pixel_offset(width, pos_x + x, pos_y + y),
        pixel_offset(width, pos_x + x, pos_y + y) + 4 <= len,
        pos_x + 7 < len,
        pos_y + 7 < len,
{
    assert((pos_y + y) * width <= (pos_y + 7) * width) by (nonlinear_arith)
        requires
            0 <= pos_y + y <= pos_y + 7,
            width >= 1,
    ;
    assert(0 <= (pos_y + y) * width) by (nonlinear_arith)
        requires
            0 <= pos_y + y,
            width >= 1,
    ;
    assert(pos_y + 7 <= (pos_y + 7) * width) by (nonlinear_arith)
        requires
            0 <= pos_y + 7,
            width >= 1,
    ;
}

impl Tile {
    /// The pixel in column `x` of row `y`.
    pub fn get_pixel(&self, x: usize, y: usize) -> (pixel: Pixel)
        requires
            x < 8,
            y < 8,
        ensures
            pixel@ == tile_pixel(self.low@, self.high@, x as int, y as int),
    {
        // The leftmost pixel is in the highest bit.
        let shift: u8 = 7 - x as u8;
        let mask: u8 = 1u8 << shift;
        let low = self.low[y] & mask != 0;
        let high = self.high[y] & mask != 0;
        Pixel::from_bits(low, high)
    }

    /// Draw the tile into a frame with its top left pixel at (`pos_x`,
    /// `pos_y`). Nothing is asked of the width of the frame or of the
    /// position but that no pixel falls outside the frame.
    pub fn draw_at(
        &self,
        frame: &mut [u8],
        frame_width_px: usize,
        pos_x: usize,
        pos_y: usize,
        palette: Palette,
        colors: &[u8],
    )
        requires
            colors@.len() >= COLOR_TABLE_SIZE,
            tile_fits(
                old(frame)@.len() as int,
                frame_width_px as int,
                pos_x as int,
                pos_y as int,
            ),
        ensures
            final(frame)@ == drawn(
                old(frame)@,
                self.low@,
                self.high@,
                frame_width_px as int,
                pos_x as int,
                pos_y as int,
                palette,
                colors@,
                64,
            ),
            final(frame)@.len() == old(frame)@.len(),
    {
        let len = frame.len();
        let mut x: usize = 0;
        while x < 8
            invariant
                x <= 8,
                colors@.len() >= COLOR_TABLE_SIZE,
                len == frame@.len(),
                len == old(frame)@.len(),
                tile_fits(len as int, frame_width_px as int, pos_x as int, pos_y as int),
                frame@ == drawn(
                    old(frame)@,
                    self.low@,
                    self.high@,
                    frame_width_px as int,
                    pos_x as int,
                    pos_y as int,
                    palette,
                    colors@,
                    (8 * x) as nat,
                ),
            decreases 8 - x,
        {
            let mut y: usize = 0;
            while y < 8
                invariant
                    x < 8,
                    y <= 8,
                    colors@.len() >= COLOR_TABLE_SIZE,
                    len == frame@.len(),
                    len == old(frame)@.len(),
                    tile_fits(len as int, frame_width_px as int, pos_x as int, pos_y as int),
                    frame@ == drawn(
                        old(frame)@,
                        self.low@,
                        self.high@,
                        frame_width_px as int,
                        pos_x as int,
                        pos_y as int,
                        palette,
                        colors@,
                        (8 * x + y) as nat,
                    ),
                decreases 8 - y,
            {
                proof {
                    lemma_pixel_in_frame(
                        len as int,
                        frame_width_px as int,
                        pos_x as int,
                        pos_y as int,
                        x as int,
                        y as int,
                    );
                }
                let rgba = self.get_pixel(x, y).to_rgba(palette, colors);
                let row = (pos_y + y) * frame_width_px;
                let offset = (row + pos_x + x) * 4;
                frame[offset] = rgba[0];
                frame[offset + 1] = rgba[1];
                frame[offset + 2] = rgba[2];
                frame[offset + 3] = rgba[3];
                assert((8 * x + y + 1 - 1) / 8 == x && (8 * x + y + 1 - 1) % 8 == y);
                y += 1;
            }
            x += 1;
        }
    }

    /// Draw the tile into a frame of the size of the screen, at the place
    /// of the tile `pos` of the 960 on the screen.
    pub fn draw(&self, frame: &mut [u8], pos: usize, palette: Palette, colors: &[u8])
        requires
            colors@.len() >= COLOR_TABLE_SIZE,
            pos < TILES_PER_NAMETABLE,
            old(frame)@.len() >= FRAME_WIDTH * FRAME_HEIGHT * 4,
        ensures
            final(frame)@ == drawn(
                old(frame)@,
                self.low@,
                self.high@,
                FRAME_WIDTH as int,
                (pos % 32) * 8,
                (pos / 32) * 8,
                palette,
                colors@,
                64,
            ),
            final(frame)@.len() == old(frame)@.len(),
    {
        let pos_x = pos % (FRAME_WIDTH / 8) * 8;
        let pos_y = pos / (FRAME_WIDTH / 8) * 8;
        self.draw_at(frame, FRAME_WIDTH, pos_x, pos_y, palette, colors);
    }
}

/// The byte that a load from `addr` on the PPU's own bus returns, and the
/// PPU after it.
pub open spec fn mapper_read<M: PpuBus>(ppu: PpuState<M::V>, addr: u16) -> (u8, PpuState<M::V>) {
    (
        M::read(ppu.mapper, ppu.vram, ppu.palette, addr),
        PpuState { mapper: M::after_read(ppu.mapper, ppu.vram, ppu.palette, addr), ..ppu },
    )
}

/// The first `count` rows of the tile at `base`, low bits and high bits,
/// and the PPU after they were loaded: the low byte of a row is loaded
/// first and its high byte, which lies eight bytes further on, second.
pub open spec fn tile_rows<M: PpuBus>(ppu: PpuState<M::V>, base: u16, count: nat) -> (
    Seq<u8>,
    Seq<u8>,
    PpuState<M::V>,
)
    decreases count,
{
    if count == 0 {
        (Seq::empty(), Seq::empty(), ppu)
    } else {
        let (low, high, before) = tile_rows::<M>(ppu, base, (count - 1) as nat);
        let (low_byte, after_low) = mapper_read::<M>(before, wrap16(base + count - 1));
        let (high_byte, after_high) = mapper_read::<M>(after_low, wrap16(base + count - 1 + 8));
        (low.push(low_byte), high.push(high_byte), after_high)
    }
}

/// Where the tile `tile_num` of the pattern table at `table` starts: a
/// tile takes sixteen bytes.
pub open spec fn tile_address(table: u16, tile_num: u8) -> u16 {
    wrap16(table + 16 * tile_num)
}

/// Where the background palette, or the sprite palette, with the number
/// `palette_num` starts.
pub open spec fn palette_address(palette_num: u8, sprite: bool) -> u16 {
    if sprite {
        (0x3F11 + 4 * palette_num) as u16
    } else {
        (0x3F01 + 4 * palette_num) as u16
    }
}

/// The palette with the number `palette_num`, and the PPU after it was
/// loaded: its three colors first, the background color last.
pub open spec fn loaded_palette<M: PpuBus>(ppu: PpuState<M::V>, palette_num: u8, sprite: bool) -> (
    Palette,
    PpuState<M::V>,
) {
    let addr = palette_address(palette_num, sprite);
    let (color1, after1) = mapper_read::<M>(ppu, addr);
    let (color2, after2) = mapper_read::<M>(after1, wrap16(addr + 1));
    let (color3, after3) = mapper_read::<M>(after2, wrap16(addr + 2));
    let (background, after) = mapper_read::<M>(after3, BG_COLOR);
    (Palette { background, color1, color2, color3 }, after)
}

/// The attribute of the tile in column `tile_x` and row `tile_y`, as the
/// byte `byte` of the attribute table holds it. A byte holds the
/// attributes, of two bits each, of four blocks of two by two tiles.
pub open spec fn attribute_in(byte: u8, tile_x: int, tile_y: int) -> u8 {
    let quad_x = (tile_x / 2) % 2;
    let quad_y = (tile_y / 2) % 2;
    if quad_x == 0 {
        if quad_y == 0 {
            byte % 4
        } else {
            (byte / 4) % 4
        }
    } else {
        if quad_y == 0 {
            (byte / 16) % 4
        } else {
            (byte / 64) % 4
        }
    }
}

/// Where the attribute of the tile with the number `tile_num` is in the
/// attribute table at `table`: one byte serves four by four tiles.
pub open spec fn attribute_address(table: u16, tile_num: u8) -> u16 {
    wrap16(table + ((tile_num / 32) / 4) * 8 + (tile_num % 32) / 4)
}

/// The attribute of the tile with the number `tile_num`, a number from 0
/// to 3 that selects its palette, and the PPU after it was loaded.
pub open spec fn loaded_attribute<M: PpuBus>(ppu: PpuState<M::V>, table: u16, tile_num: u8) -> (
    u8,
    PpuState<M::V>,
) {
    let (byte, after) = mapper_read::<M>(ppu, attribute_address(table, tile_num));
    (attribute_in(byte, tile_num as int % 32, tile_num as int / 32), after)
}

/// The frame and the PPU after the first `count` tiles of the name table
/// at `table` were drawn. For each tile its number is loaded from the name
/// table, its rows from the first pattern table, its attribute from the
/// attribute table of the name table, and its palette, in this order.
pub open spec fn name_table_drawn<M: PpuBus>(
    ppu: PpuState<M::V>,
    frame: Seq<u8>,
    table: u16,
    colors: Seq<u8>,
    count: nat,
) -> (Seq<u8>, PpuState<M::V>)
    decreases count,
{
    if count == 0 {
        (frame, ppu)
    } else {
        let pos = count - 1;
        let (before, ppu0) = name_table_drawn::<M>(ppu, frame, table, colors, pos as nat);
        let (tile_num, ppu1) = mapper_read::<M>(ppu0, wrap16(table + pos));
        let (low, high, ppu2) = tile_rows::<M>(ppu1, tile_address(0, tile_num), 8);
        let (attribute, ppu3) = loaded_attribute::<M>(
            ppu2,
            wrap16(table + ATTRIBUTE_TABLE_OFFSET),
            tile_num,
        );
        let (palette, ppu4) = loaded_palette::<M>(ppu3, attribute, false);
        (
            drawn(before, low, high, 256, (pos % 32) * 8, (pos / 32) * 8, palette, colors, 64),
            ppu4,
        )
    }
}

/// The frame and the PPU after the first `count` tiles of the two pattern
/// tables were drawn in greys, the tables side by side and sixteen tiles
/// to a row in each.
pub open spec fn pattern_tables_drawn<M: PpuBus>(
    ppu: PpuState<M::V>,
    frame: Seq<u8>,
    colors: Seq<u8>,
    count: nat,
) -> (Seq<u8>, PpuState<M::V>)
    decreases count,
{
    if count == 0 {
        (frame, ppu)
    } else {
        let index = count - 1;
        let table = index / 256;
        let tile_num = index % 256;
        let (before, ppu0) = pattern_tables_drawn::<M>(ppu, frame, colors, index as nat);
        let (low, high, ppu1) = tile_rows::<M>(
            ppu0,
            tile_address((table * 0x1000) as u16, tile_num as u8),
            8,
        );
        (
            drawn(
                before,
                low,
                high,
                256,
                (tile_num % 16) * 8 + 128 * table,
                (tile_num / 16) * 8,
                greyscale(),
                colors,
                64,
            ),
            ppu1,
        )
    }
}

/// What a shift to the right by an even number of bits up to six leaves of
/// a byte in its two low bits.
proof fn lemma_attribute_bits(byte: u8)
    by (bit_vector)
    ensures
        (byte >> 0u8) & 3 == byte % 4,
        (byte >> 2u8) & 3 == (byte / 4) % 4,
        (byte >> 4u8) & 3 == (byte / 16) % 4,
        (byte >> 6u8) & 3 == (byte / 64) % 4,
{
}

impl<M: PpuBus> Ppu<M> {
    /// Draw the picture of the first name table into a frame.
    pub fn tick(&mut self, frame: &mut [u8], colors: &[u8])
        requires
            old(self).wf(),
            colors@.len() >= COLOR_TABLE_SIZE,
            old(frame)@.len() >= FRAME_WIDTH * FRAME_HEIGHT * 4,
        ensures
            final(self).wf(),
            (final(frame)@, final(self)@) == name_table_drawn::<M>(
                old(self)@,
                old(frame)@,
                NAMETABLE_START,
                colors@,
                960,
            ),
    {
        self.render_name_table(frame, Address(NAMETABLE_START), colors);
    }

    /// Draw the picture of the name table at `table` into a frame of the
    /// size of the screen.
    pub fn render_name_table(&mut self, frame: &mut [u8], table: Address, colors: &[u8])
        requires
            old(self).wf(),
            colors@.len() >= COLOR_TABLE_SIZE,
            old(frame)@.len() >= FRAME_WIDTH * FRAME_HEIGHT * 4,
        ensures
            final(self).wf(),
            (final(frame)@, final(self)@) == name_table_drawn::<M>(
                old(self)@,
                old(frame)@,
                table.0,
                colors@,
                960,
            ),
    {
        let mut pos: usize = 0;
        while pos < TILES_PER_NAMETABLE
            invariant
                self.wf(),
                pos <= TILES_PER_NAMETABLE,
                colors@.len() >= COLOR_TABLE_SIZE,
                frame@.len() == old(frame)@.len(),
                frame@.len() >= FRAME_WIDTH * FRAME_HEIGHT * 4,
                (frame@, self@) == name_table_drawn::<M>(
                    old(self)@,
                    old(frame)@,
                    table.0,
                    colors@,
                    pos as nat,
                ),
            decreases TILES_PER_NAMETABLE - pos,
        {
            let tile_num = self.mapper_load(table + pos);
            let tile = self.load_tile(Address(0), tile_num);
            let attr_table = table + ATTRIBUTE_TABLE_OFFSET;
            let attr = self.get_attribute(attr_table, tile_num);
            let palette = self.load_palette(attr, false);
            tile.draw(frame, pos, palette, colors);
            pos += 1;
        }
    }

    /// The number of the palette of the tile `tile_num`, from the
    /// attribute table at `table`.
    pub fn get_attribute(&mut self, table: Address, tile_num: u8) -> (attribute: u8)
        requires
            old(self).wf(),
        ensures
            final(self).wf(),
            (attribute, final(self)@) == loaded_attribute::<M>(old(self)@, table.0, tile_num),
            attribute < 4,
    {
        let (tile_x, tile_y) = tile_coords(tile_num);
        // An attribute has two bits and serves a block of two by two
        // tiles, so one byte of the table serves four by four tiles.
        let attr_x: u16 = (tile_x / 4) as u16;
        let attr_y: u16 = (tile_y / 4) as u16;
        let attr_num: u16 = attr_y * 8 + attr_x;
        let attr_byte = self.mapper_load(table + attr_num);
        let quad_x = (tile_x / 2) % 2;
        let quad_y = (tile_y / 2) % 2;
        proof {
            lemma_attribute_bits(attr_byte);
        }
        if quad_x == 0 {
            if quad_y == 0 {
                (attr_byte >> 0u8) & 3
            } else {
                (attr_byte >> 2u8) & 3
            }
        } else {
            if quad_y == 0 {
                (attr_byte >> 4u8) & 3
            } else {
                (attr_byte >> 6u8) & 3
            }
        }
    }

    /// Draw the two pattern tables as two grids of 128 by 128 pixels in
    /// greys, side by side, into a frame that is as wide as the screen and
    /// 128 pixels high.
    pub fn render_pattern_table(&mut self, frame: &mut [u8], colors: &[u8])
        requires
            old(self).wf(),
            colors@.len() >= COLOR_TABLE_SIZE,
            old(frame)@.len() >= FRAME_WIDTH * 128 * 4,
        ensures
            final(self).wf(),
            (final(frame)@, final(self)@) == pattern_tables_drawn::<M>(
                old(self)@,
                old(frame)@,
                colors@,
                512,
            ),
    {
        let mut table: usize = 0;
        while table < 2
            invariant
                self.wf(),
                table <= 2,
                colors@.len() >= COLOR_TABLE_SIZE,
                frame@.len() == old(frame)@.len(),
                frame@.len() >= FRAME_WIDTH * 128 * 4,
                (frame@, self@) == pattern_tables_drawn::<M>(
                    old(self)@,
                    old(frame)@,
                    colors@,
                    (256 * table) as nat,
                ),
            decreases 2 - table,
        {
            let table_addr = Address((table * 0x1000) as u16);
            let mut tile_num: usize = 0;
            while tile_num < 256
                invariant
                    self.wf(),
                    table < 2,
                    tile_num <= 256,
                    table_addr.0 == table * 0x1000,
                    colors@.len() >= COLOR_TABLE_SIZE,
                    frame@.len() == old(frame)@.len(),
                    frame@.len() >= FRAME_WIDTH * 128 * 4,
                    (frame@, self@) == pattern_tables_drawn::<M>(
                        old(self)@,
                        old(frame)@,
                        colors@,
                        (256 * table + tile_num) as nat,
                    ),
                decreases 256 - tile_num,
            {
                let tile_x = tile_num % 16;
                let tile_y = tile_num / 16;
                let x = tile_x * 8 + 128 * table;
                let y = tile_y * 8;
                let tile = self.load_tile(table_addr, tile_num as u8);
                tile.draw_at(frame, FRAME_WIDTH, x, y, greyscale_palette(), colors);
                assert((256 * table + tile_num + 1 - 1) / 256 == table && (256 * table + tile_num
                    + 1 - 1) % 256 == tile_num);
                tile_num += 1;
            }
            table += 1;
        }
    }

    /// Load the tile `tile_num` of the pattern table at `table`.
    pub fn load_tile(&mut self, table: Address, tile_num: u8) -> (tile: Tile)
        requires
            old(self).wf(),
        ensures
            final(self).wf(),
            (tile.low@, tile.high@, final(self)@) == tile_rows::<M>(
                old(self)@,
                tile_address(table.0, tile_num),
                8,
            ),
    {
        let mut low = [0u8; 8];
        let mut high = [0u8; 8];
        let base = table + (tile_num as u16 * 16);
        let mut i: usize = 0;
        while i < 8
            invariant
                self.wf(),
                i <= 8,
                base.0 == tile_address(table.0, tile_num),
                (low@.take(i as int), high@.take(i as int), self@) == tile_rows::<M>(
                    old(self)@,
                    base.0,
                    i as nat,
                ),
            decreases 8 - i,
        {
            let ghost low_before = low@;
            let ghost high_before = high@;
            let low_byte = self.mapper_load(base + i);
            let high_byte = self.mapper_load(base + (i + 8));
            low[i] = low_byte;
            high[i] = high_byte;
            assert(low@.take(i + 1) =~= low_before.take(i as int).push(low_byte));
            assert(high@.take(i + 1) =~= high_before.take(i as int).push(high_byte));
            i += 1;
        }
        assert(low@.take(8) =~= low@);
        assert(high@.take(8) =~= high@);
        Tile { low, high }
    }

    /// Load the background palette, or the sprite palette, with the number
    /// `palette_num`.
    pub fn load_palette(&mut self, palette_num: u8, sprite: bool) -> (palette: Palette)
        requires
            old(self).wf(),
            palette_num < 4,
        ensures
            final(self).wf(),
            (palette, final(self)@) == loaded_palette::<M>(old(self)@, palette_num, sprite),
    {
        let first: u16 = if sprite {
            0x3F11
        } else {
            0x3F01
        };
        let addr = Address(first + 4 * palette_num as u16);
        let color1 = self.mapper_load(addr);
        let color2 = self.mapper_load(addr + 1u16);
        let color3 = self.mapper_load(addr + 2u16);
        let background = self.mapper_load(Address(BG_COLOR));
        Palette { background, color1, color2, color3 }
    }
}

} // verus!
