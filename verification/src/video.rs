//! How the display reads the video RAM: one bit per pixel, the screen turned
//! by a quarter, and a fixed tint for each band of the screen.

use crate::bus::InvadersBus;
use crate::memory;
use vstd::prelude::*;

verus! {

/// Columns of pixels that the display shows.
pub const SCREEN_COLUMNS: u8 = 220;

/// Rows of pixels that the display shows.
pub const SCREEN_ROWS: u8 = 255;

/// The number of the bit that holds the pixel in column `x` and row `y`,
/// counted from bit 0 of the first byte of the video RAM. A column of the
/// screen is 256 bits of memory, read from its far end.
pub open spec fn pixel_position(x: u8, y: u8) -> int {
    x * 256 + (256 - y)
}

/// The address of the byte that holds the pixel in column `x` and row `y`.
pub open spec fn pixel_address(x: u8, y: u8) -> u16 {
    (memory::VIDEO_BASE + pixel_position(x, y) / 8) as u16
}

/// The bit within that byte, as a mask.
pub open spec fn pixel_mask(x: u8, y: u8) -> u8 {
    1u8 << ((pixel_position(x, y) % 8) as u8)
}

/// Whether the pixel in column `x` and row `y` is lit.
pub open spec fn pixel_lit(cells: Seq<u8>, x: u8, y: u8) -> bool {
    memory::read(cells, pixel_address(x, y)) & pixel_mask(x, y) != 0
}

/// The tints that the overlay of the screen gives to lit pixels.
#[derive(Clone, Copy, Debug, PartialEq, Eq, Structural)]
pub enum Tint {
    /// The plain colour of the screen.
    White,
    /// The band of the score line.
    Gray,
    /// The two red bands.
    Red,
    /// The green band, and the green strip at the foot of the screen.
    Green,
}

/// The tint of the pixel in column `x` and row `y`.
pub open spec fn tint_of(x: u8, y: u8) -> Tint {
    if 10 <= y <= 34 {
        Tint::Gray
    } else if 35 <= y <= 50 {
        Tint::Red
    } else if 193 <= y <= 224 {
        Tint::Green
    } else if 225 <= y <= 239 {
        Tint::Red
    } else if 241 <= y && 15 < x < 110 {
        Tint::Green
    } else {
        Tint::White
    }
}

impl Tint {
    /// The red, green and blue parts of the tint.
    pub open spec fn rgb_of(self) -> (u8, u8, u8) {
        match self {
            Tint::White => (225, 225, 255),
            Tint::Gray => (210, 210, 230),
            Tint::Red => (245, 100, 100),
            Tint::Green => (100, 200, 100),
        }
    }

    /// The red, green and blue parts of the tint.
    pub fn rgb(self) -> (parts: (u8, u8, u8))
        ensures
            parts == self.rgb_of(),
    {
        match self {
            Tint::White => (225, 225, 255),
            Tint::Gray => (210, 210, 230),
            Tint::Red => (245, 100, 100),
            Tint::Green => (100, 200, 100),
        }
    }
}

/// The tint of the pixel in column `x` and row `y`.
pub fn tint(x: u8, y: u8) -> (t: Tint)
    ensures
        t == tint_of(x, y),
{
    if 10 <= y && y <= 34 {
        Tint::Gray
    } else if 35 <= y && y <= 50 {
        Tint::Red
    } else if 193 <= y && y <= 224 {
        Tint::Green
    } else if 225 <= y && y <= 239 {
        Tint::Red
    } else if 241 <= y && 15 < x && x < 110 {
        Tint::Green
    } else {
        Tint::White
    }
}

/// Whether the pixel in column `x` and row `y` is lit on `bus`.
pub fn pixel_is_lit(bus: &InvadersBus, x: u8, y: u8) -> (lit: bool)
    ensures
        lit == pixel_lit(bus@.cells, x, y),
{
    let position: u32 = x as u32 * 256 + (256 - y as u32);
    let addr: u16 = (memory::VIDEO_BASE as u32 + position / 8) as u16;
    let mask: u8 = 1u8 << ((position % 8) as u8);
    (bus.read_b(addr) & mask) != 0
}

/// Every pixel that the display shows is held in the video RAM.
pub proof fn lemma_screen_is_in_video_ram(x: u8, y: u8)
    requires
        x < SCREEN_COLUMNS,
        y < SCREEN_ROWS,
    ensures
        memory::region_of(pixel_address(x, y)) == memory::Region::Video,
        memory::cell_of(pixel_address(x, y)) == memory::VIDEO_BASE + pixel_position(x, y) / 8,
{
}

} // verus!
