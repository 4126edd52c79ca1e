//! Scaling the logical display up into a host window buffer.
//!
//! The window buffer holds one 32-bit colour per host pixel, row by row, 512
//! to a row. Each logical pixel becomes a block of 8x8 host pixels.

use vstd::prelude::*;
use crate::display::{lit, Display, HEIGHT, WIDTH};

verus! {

/// Host pixels per logical pixel, in each direction.
pub const BUFFER_SCALE: usize = 8;

pub const WINDOW_WIDTH: usize = 512;

pub const WINDOW_HEIGHT: usize = 256;

/// Colour of a lit pixel.
pub const LIT_COLOR: u32 = 0xFF00FFFF;

/// Colour of a dark pixel.
pub const DARK_COLOR: u32 = 0;

/// The logical column that the host pixel at `offset` belongs to.
pub open spec fn dot_column(offset: int) -> int {
    (offset % 512) / 8
}

/// The logical row that the host pixel at `offset` belongs to.
pub open spec fn dot_row(offset: int) -> int {
    (offset / 512) / 8
}

/// Whether the host pixel at `offset` lies in the block of logical pixel `(x, y)`.
pub open spec fn in_dot(offset: int, x: int, y: int) -> bool {
    dot_column(offset) == x && dot_row(offset) == y
}

/// The colour that shows a pixel.
pub open spec fn pixel_color(on: bool) -> u32 {
    if on {
        LIT_COLOR
    } else {
        DARK_COLOR
    }
}

/// Whether logical pixel `(x, y)` comes before `(to_x, to_y)` in row-major order.
pub open spec fn dot_before(x: int, y: int, to_x: int, to_y: int) -> bool {
    y < to_y || (y == to_y && x < to_x)
}

/// Fills the 8x8 block of logical pixel `(x, y)` with `color` and leaves the
/// rest of the buffer alone.
pub fn draw_dot(window_buffer: &mut Vec<u32>, x: usize, y: usize, color: u32)
    requires
        x < WIDTH,
        (8 * y + 8) * 512 <= old(window_buffer)@.len(),
    ensures
        final(window_buffer)@.len() == old(window_buffer)@.len(),
        forall|o: int|
            0 <= o < old(window_buffer)@.len() ==> #[trigger] final(window_buffer)@[o] == if in_dot(
                o,
                x as int,
                y as int,
            ) {
                color
            } else {
                old(window_buffer)@[o]
            },
{
    let mut dy: usize = 0;
    while dy < BUFFER_SCALE
        invariant
            dy <= 8,
            x < 64,
            (8 * y + 8) * 512 <= window_buffer@.len(),
            window_buffer@.len() == old(window_buffer)@.len(),
            forall|o: int|
                0 <= o < window_buffer@.len() ==> #[trigger] window_buffer@[o] == if in_dot(
                    o,
                    x as int,
                    y as int,
                ) && (o / 512) % 8 < dy {
                    color
                } else {
                    old(window_buffer)@[o]
                },
        decreases 8 - dy,
    {
        let mut dx: usize = 0;
        while dx < BUFFER_SCALE
            invariant
                dx <= 8,
                dy < 8,
                x < 64,
                (8 * y + 8) * 512 <= window_buffer@.len(),
                window_buffer@.len() == old(window_buffer)@.len(),
                forall|o: int|
                    0 <= o < window_buffer@.len() ==> #[trigger] window_buffer@[o] == if in_dot(
                        o,
                        x as int,
                        y as int,
                    ) && ((o / 512) % 8 < dy || ((o / 512) % 8 == dy && (o % 512) % 8 < dx)) {
                        color
                    } else {
                        old(window_buffer)@[o]
                    },
            decreases 8 - dx,
        {
            assert(window_buffer.len() == window_buffer@.len());
            let offset: usize = (y * BUFFER_SCALE + dy) * WINDOW_WIDTH + (x * BUFFER_SCALE + dx);
            assert(offset as int / 512 == y * 8 + dy && offset as int % 512 == x * 8 + dx);
            window_buffer[offset] = color;
            dx += 1;
        }
        dy += 1;
    }
}

/// Paints the whole display into the window buffer: every host pixel of the
/// first 512x256 takes the colour of the logical pixel it belongs to.
pub fn draw_frame(display: &Display, window_buffer: &mut Vec<u32>)
    requires
        old(window_buffer)@.len() >= 512 * 256,
    ensures
        final(window_buffer)@.len() == old(window_buffer)@.len(),
        forall|o: int|
            0 <= o < old(window_buffer)@.len() ==> #[trigger] final(window_buffer)@[o] == if o < 512
                * 256 {
                pixel_color(lit(display@, dot_column(o), dot_row(o)))
            } else {
                old(window_buffer)@[o]
            },
{
    let mut y: usize = 0;
    while y < HEIGHT
        invariant
            y <= 32,
            window_buffer@.len() == old(window_buffer)@.len(),
            window_buffer@.len() >= 512 * 256,
            forall|o: int|
                0 <= o < window_buffer@.len() ==> #[trigger] window_buffer@[o] == if o < 512 * 256
                    && dot_before(dot_column(o), dot_row(o), 0, y as int) {
                    pixel_color(lit(display@, dot_column(o), dot_row(o)))
                } else {
                    old(window_buffer)@[o]
                },
        decreases 32 - y,
    {
        let mut x: usize = 0;
        while x < WIDTH
            invariant
                x <= 64,
                y < 32,
                window_buffer@.len() == old(window_buffer)@.len(),
                window_buffer@.len() >= 512 * 256,
                forall|o: int|
                    0 <= o < window_buffer@.len() ==> #[trigger] window_buffer@[o] == if o < 512
                        * 256 && dot_before(dot_column(o), dot_row(o), x as int, y as int) {
                        pixel_color(lit(display@, dot_column(o), dot_row(o)))
                    } else {
                        old(window_buffer)@[o]
                    },
            decreases 64 - x,
        {
            let color: u32 = if display.get_pixel(x, y) {
                LIT_COLOR
            } else {
                DARK_COLOR
            };
            draw_dot(window_buffer, x, y, color);
            x += 1;
        }
        y += 1;
    }
}

} // verus!
