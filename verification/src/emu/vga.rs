//! The display: a grid of tiles, each an eight by eight bitmap of four
//! planes drawn in a palette of sixteen colors.

use crate::emu::bus::Bw8Bus;
use crate::isa::{Address, Byte};
use vstd::prelude::*;
use vstd::std_specs::convert::FromSpecImpl;

verus! {

/// The number of pixels in a row.
pub const COLUMN_COUNT: usize = 640;

/// The number of rows.
pub const ROW_COUNT: usize = 480;

/// The number of pixels.
pub const PIXEL_COUNT: usize = 307200;

/// Where the tile map lies in the frame buffer: two bytes a tile, the
/// bitmap's number and the palette's, 256 bytes a row of tiles.
pub const TILEMAP_OFFSET: Address = 0x0000;

/// Where the bitmaps lie in the frame buffer: 32 bytes each, eight rows of
/// the first plane, then of the second, the third and the fourth.
pub const BITMAP_OFFSET: Address = 0x4000;

/// Where the palettes lie in the frame buffer: sixteen colors each.
pub const PALETTE_OFFSET: Address = 0x6000;

/// A color: red, green, blue and opacity.
#[derive(Clone, Copy, Debug)]
pub struct Color {
    pub channels: [Byte; 4],
}

impl View for Color {
    type V = Seq<Byte>;

    /// The four channels: red, green, blue, opacity.
    open spec fn view(&self) -> Seq<Byte> {
        self.channels@
    }
}

impl Color {
    /// The opaque color with the given red, green and blue.
    pub open spec fn rgb(red: Byte, green: Byte, blue: Byte) -> Color {
        Color { channels: [red, green, blue, u8::MAX] }
    }

    /// The color that a byte stands for: three bits of red, three of green
    /// and two of blue, from the top down, each scaled to a byte.
    pub open spec fn of_byte(value: u8) -> Color {
        Color::rgb(
            ((value / 32) * 32) as Byte,
            (((value / 4) % 8) * 32) as Byte,
            ((value % 4) * 64) as Byte,
        )
    }

    /// Opaque black.
    pub open spec fn black_spec() -> Color {
        Color::rgb(0, 0, 0)
    }

    /// The opaque color with the given red, green and blue.
    pub fn new(red: Byte, green: Byte, blue: Byte) -> (color: Color)
        ensures
            color == Color::rgb(red, green, blue),
    {
        Color { channels: [red, green, blue, u8::MAX] }
    }

    /// Opaque black.
    pub fn black() -> (color: Color)
        ensures
            color == Color::black_spec(),
    {
        Color::new(0, 0, 0)
    }
}

impl From<u8> for Color {
    /// The color that a byte stands for.
    fn from(value: u8) -> (color: Color) {
        let red = (value >> 5) & 0b111;
        let green = (value >> 2) & 0b111;
        let blue = value & 0b11;
        assert(red == value / 32 && green == (value / 4) % 8 && blue == value % 4) by (bit_vector)
            requires
                red == (value >> 5) & 0b111,
                green == (value >> 2) & 0b111,
                blue == value & 0b11,
        ;
        Color::new(red * 32, green * 32, blue * 64)
    }
}

impl FromSpecImpl<u8> for Color {
    open spec fn obeys_from_spec() -> bool {
        true
    }

    open spec fn from_spec(value: u8) -> Color {
        Color::of_byte(value)
    }
}

/// The bit of a plane's row that belongs to a column of the tile. The
/// leftmost column is the highest bit.
pub open spec fn plane_bit(plane: Byte, column: u16) -> Byte {
    (plane >> ((7 - column) as u8)) & 1
}

/// The place in its palette of the color at a column of a tile's row, from
/// the row's four planes: the first plane gives the lowest bit.
pub open spec fn palette_index_spec(planes: (Byte, Byte, Byte, Byte), column: u16) -> Byte {
    plane_bit(planes.0, column) | (plane_bit(planes.1, column) << 1) | (plane_bit(planes.2, column)
        << 2) | (plane_bit(planes.3, column) << 3)
}

/// The offset of a tile's entry in the tile map.
pub open spec fn map_address_spec(x: int, y: int) -> int {
    TILEMAP_OFFSET + 256 * (y / 8) + 2 * (x / 8)
}

/// The offset of a bitmap in the frame buffer. Only the low three bits of
/// its number count: the bitmaps lie within 256 bytes.
pub open spec fn bitmap_address_spec(bitmap: Byte) -> int {
    BITMAP_OFFSET + (32 * bitmap) % 256
}

/// The offset of a palette in the frame buffer. Only the low four bits of
/// its number count: the palettes lie within 256 bytes.
pub open spec fn palette_address_spec(palette: Byte) -> int {
    PALETTE_OFFSET + (16 * palette) % 256
}

/// The byte of the frame buffer that holds the color of a pixel: the tile
/// map names the tile's bitmap and palette, the bitmap's four planes give
/// the color's place in the palette.
pub open spec fn color_byte_spec(framebuffer: Seq<Byte>, x: int, y: int) -> Byte {
    let map = map_address_spec(x, y);
    let bitmap = bitmap_address_spec(framebuffer[map]);
    let row = y % 8;
    let planes = (
        framebuffer[bitmap + row],
        framebuffer[bitmap + row + 8],
        framebuffer[bitmap + row + 16],
        framebuffer[bitmap + row + 24],
    );
    framebuffer[palette_address_spec(framebuffer[map + 1]) + palette_index_spec(
        planes,
        (x % 8) as u16,
    )]
}

/// The place in its palette of the color at a column of a tile's row.
fn palette_index(planes: (Byte, Byte, Byte, Byte), column: u16) -> (index: Byte)
    requires
        column < 8,
    ensures
        index == palette_index_spec(planes, column),
        index < 16,
{
    let shift = (7 - column) as u8;
    let index = ((planes.0 >> shift) & 1) | (((planes.1 >> shift) & 1) << 1) | (((planes.2 >> shift)
        & 1) << 2) | (((planes.3 >> shift) & 1) << 3);
    let a = planes.0;
    let b = planes.1;
    let c = planes.2;
    let d = planes.3;
    assert(index < 16) by (bit_vector)
        requires
            index == ((a >> shift) & 1) | (((b >> shift) & 1) << 1) | (((c >> shift) & 1) << 2) | (((d
                >> shift) & 1) << 3),
    ;
    index
}

/// The picture on the display.
pub struct Vga {
    pub pixels: Vec<Color>,
}

impl Vga {
    /// The display has a color for every pixel.
    pub open spec fn wf(&self) -> bool {
        self.pixels.len() == PIXEL_COUNT
    }

    /// The color of the pixel at a column and a row.
    pub open spec fn pixel(&self, x: int, y: int) -> Color {
        self.pixels[x + y * COLUMN_COUNT]
    }

    /// Whether the display is black all over.
    pub open spec fn is_black(&self) -> bool {
        forall|i: int| 0 <= i < PIXEL_COUNT ==> self.pixels[i] == Color::black_spec()
    }

    /// Whether the display shows what the frame buffer holds.
    pub open spec fn shows(&self, framebuffer: Seq<Byte>) -> bool {
        forall|x: int, y: int|
            0 <= x < COLUMN_COUNT && 0 <= y < ROW_COUNT ==> #[trigger] self.pixel(x, y)
                == Color::of_byte(color_byte_spec(framebuffer, x, y))
    }

    /// A black display.
    pub fn new() -> (vga: Vga)
        ensures
            vga.wf(),
            vga.is_black(),
    {
        let mut pixels: Vec<Color> = Vec::new();
        let mut count: usize = 0;
        while count < PIXEL_COUNT
            invariant
                count <= PIXEL_COUNT,
                pixels.len() == count,
                forall|i: int| 0 <= i < count ==> pixels[i] == Color::black_spec(),
            decreases PIXEL_COUNT - count,
        {
            pixels.push(Color::black());
            count = count + 1;
        }
        Vga { pixels }
    }

    /// The picture as bytes: four for each pixel, row by row.
    pub fn pixel_data(&self) -> (data: Vec<u8>)
        requires
            self.wf(),
        ensures
            data.len() == 4 * PIXEL_COUNT,
            forall|i: int, channel: int|
                0 <= i < PIXEL_COUNT && 0 <= channel < 4 ==> data[4 * i + channel]
                    == self.pixels[i]@[channel],
    {
        let mut data: Vec<u8> = Vec::new();
        let mut count: usize = 0;
        while count < PIXEL_COUNT
            invariant
                self.wf(),
                count <= PIXEL_COUNT,
                data.len() == 4 * count,
                forall|i: int, channel: int|
                    0 <= i < count && 0 <= channel < 4 ==> data[4 * i + channel]
                        == self.pixels[i]@[channel],
            decreases PIXEL_COUNT - count,
        {
            let color = self.pixels[count];
            data.push(color.channels[0]);
            data.push(color.channels[1]);
            data.push(color.channels[2]);
            data.push(color.channels[3]);
            count = count + 1;
        }
        data
    }

    /// Blanks the display.
    pub fn reset(&mut self)
        ensures
            final(self).wf(),
            final(self).is_black(),
    {
        self.pixels = Vga::new().pixels;
    }

    /// Draws the frame buffer of the bus.
    pub fn clock(&mut self, bus: &Bw8Bus)
        requires
            old(self).wf(),
        ensures
            final(self).wf(),
            final(self).shows(bus.framebuffer@),
    {
        let ghost framebuffer = bus.framebuffer@;
        let mut x: u16 = 0;
        while x < 640
            invariant
                x <= 640,
                self.wf(),
                framebuffer == bus.framebuffer@,
                forall|i: int, j: int|
                    0 <= i < x && 0 <= j < ROW_COUNT ==> #[trigger] self.pixel(i, j)
                        == Color::of_byte(color_byte_spec(framebuffer, i, j)),
            decreases 640 - x,
        {
            let mut y: u16 = 0;
            while y < 480
                invariant
                    x < 640,
                    y <= 480,
                    self.wf(),
                    framebuffer == bus.framebuffer@,
                    forall|i: int, j: int|
                        0 <= i < x && 0 <= j < ROW_COUNT ==> #[trigger] self.pixel(i, j)
                            == Color::of_byte(color_byte_spec(framebuffer, i, j)),
                    forall|j: int|
                        0 <= j < y ==> #[trigger] self.pixel(x as int, j) == Color::of_byte(
                            color_byte_spec(framebuffer, x as int, j),
                        ),
                decreases 480 - y,
            {
                let color = Color::from(color_byte(bus, x, y));
                let place = (x as usize) + (y as usize) * COLUMN_COUNT;
                let ghost before = *self;
                self.pixels.set(place, color);
                proof {
                    assert forall|i: int, j: int|
                        0 <= i < x && 0 <= j < ROW_COUNT implies #[trigger] self.pixel(i, j)
                        == Color::of_byte(color_byte_spec(framebuffer, i, j)) by {
                        assert(self.pixel(i, j) == before.pixel(i, j));
                    }
                    assert forall|j: int| 0 <= j < y + 1 implies #[trigger] self.pixel(x as int, j)
                        == Color::of_byte(color_byte_spec(framebuffer, x as int, j)) by {
                        if j < y {
                            assert(self.pixel(x as int, j) == before.pixel(x as int, j));
                        }
                    }
                }
                y = y + 1;
            }
            x = x + 1;
        }
    }
}

/// The byte of the frame buffer that holds the color of a pixel.
fn color_byte(bus: &Bw8Bus, x: u16, y: u16) -> (color: Byte)
    requires
        x < COLUMN_COUNT,
        y < ROW_COUNT,
    ensures
        color == color_byte_spec(bus.framebuffer@, x as int, y as int),
{
    let tile_x = x / 8;
    let tile_y = y / 8;

    let map_address = TILEMAP_OFFSET + (256 * tile_y) + (2 * tile_x);
    let bitmap_id = bus.inspect_framebuffer(map_address);
    let palette_id = bus.inspect_framebuffer(map_address + 1);

    let bitmap_address = BITMAP_OFFSET + ((32 * (bitmap_id as u16)) % 256);
    let bitmap_col = x & 0b111;
    let bitmap_row = y & 0b111;
    assert(bitmap_col == x % 8 && bitmap_row == y % 8) by (bit_vector)
        requires
            bitmap_col == x & 0b111,
            bitmap_row == y & 0b111,
    ;

    let plane_0 = bus.inspect_framebuffer(bitmap_address + bitmap_row);
    let plane_1 = bus.inspect_framebuffer(bitmap_address + bitmap_row + 8);
    let plane_2 = bus.inspect_framebuffer(bitmap_address + bitmap_row + 16);
    let plane_3 = bus.inspect_framebuffer(bitmap_address + bitmap_row + 24);

    let index = palette_index((plane_0, plane_1, plane_2, plane_3), bitmap_col);

    let color_address = PALETTE_OFFSET + ((16 * (palette_id as u16)) % 256) + (index as u16);
    bus.inspect_framebuffer(color_address)
}

} // verus!
