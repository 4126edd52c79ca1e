//! The 64x32 monochrome display buffer.
//!
//! The buffer holds one byte per pixel, row by row; a pixel is lit exactly
//! when its byte is 1. Sprites are drawn one eight-pixel row at a time by
//! toggling the pixels under the row's set bits, and positions wrap around
//! both screen edges.

use vstd::prelude::*;

verus! {

pub const WIDTH: usize = 64;

pub const HEIGHT: usize = 32;

/// Number of pixels in the buffer.
pub const PIXELS: usize = 2048;

pub struct Display {
    pub memory: [u8; 2048],
}

/// Whether the pixel at column `x` of row `y` is lit.
pub open spec fn lit(cells: Seq<u8>, x: int, y: int) -> bool {
    cells[y * 64 + x] == 1
}

/// Whether the pixel `dx` places from the left of a sprite row is set
/// (place 0 is the most significant bit).
pub open spec fn sprite_bit(sprite: u8, dx: int) -> bool {
    0 <= dx < 8 && (sprite >> ((7 - dx) as u8)) & 1u8 == 1u8
}

/// How many columns to the right of the sprite's (wrapped) origin column
/// `cx` lies, going round the screen edge.
pub open spec fn column_offset(x: int, cx: int) -> int {
    (cx - x) % 64
}

/// Whether a sprite row drawn at `(x, y)` toggles the pixel at `(cx, cy)`.
pub open spec fn sprite_covers(x: int, y: int, sprite: u8, cx: int, cy: int) -> bool {
    cy == y % 32 && sprite_bit(sprite, column_offset(x, cx))
}

/// A pixel byte after it was toggled: lit becomes 0, anything else becomes 1.
pub open spec fn toggled(cell: u8) -> u8 {
    if cell == 1 {
        0
    } else {
        1
    }
}

/// The buffer after one sprite row was drawn at `(x, y)`.
pub open spec fn row_drawn(cells: Seq<u8>, x: int, y: int, sprite: u8) -> Seq<u8> {
    Seq::new(
        2048,
        |i: int|
            if sprite_covers(x, y, sprite, i % 64, i / 64) {
                toggled(cells[i])
            } else {
                cells[i]
            },
    )
}

/// Whether the sprite row at `(x, y)` toggles the lit pixel in column `cx`.
pub open spec fn erases(cells: Seq<u8>, x: int, y: int, sprite: u8, cx: int) -> bool {
    sprite_covers(x, y, sprite, cx, y % 32) && lit(cells, cx, y % 32)
}

/// Whether drawing one sprite row at `(x, y)` turns any lit pixel off.
pub open spec fn row_collides(cells: Seq<u8>, x: int, y: int, sprite: u8) -> bool {
    exists|cx: int| 0 <= cx < 64 && #[trigger] erases(cells, x, y, sprite, cx)
}

/// Every pixel is off.
pub open spec fn blank(cells: Seq<u8>) -> bool {
    cells.len() == 2048 && forall|i: int| 0 <= i < 2048 ==> cells[i] == 0
}

impl View for Display {
    type V = Seq<u8>;

    open spec fn view(&self) -> Seq<u8> {
        self.memory@
    }
}

impl Display {
    /// A display with every pixel off.
    pub fn new() -> (d: Self)
        ensures
            blank(d@),
    {
        Display { memory: [0; 2048] }
    }

    /// Turns every pixel off.
    pub fn clear(&mut self)
        ensures
            blank(final(self)@),
    {
        self.memory = [0; 2048];
    }

    /// Stores `on` as the byte of the pixel at `(x, y)`; 1 lights it.
    pub fn set_pixel(&mut self, x: usize, y: usize, on: u8)
        requires
            x < WIDTH,
            y < HEIGHT,
        ensures
            final(self)@ == old(self)@.update(y * 64 + x, on),
    {
        self.memory[y * WIDTH + x] = on;
    }

    /// Whether the pixel at `(x, y)` is lit.
    pub fn get_pixel(&self, x: usize, y: usize) -> (on: bool)
        requires
            x < WIDTH,
            y < HEIGHT,
        ensures
            on == lit(self@, x as int, y as int),
    {
        self.memory[y * WIDTH + x] == 1
    }

    /// Draws one eight-pixel sprite row with its leftmost pixel at `(x, y)`,
    /// both taken modulo the screen size. Each set bit toggles the pixel
    /// under it. Returns whether any lit pixel was turned off.
    pub fn draw_sprite(&mut self, x: usize, y: usize, sprite: u8) -> (collision: bool)
        ensures
            final(self)@ == row_drawn(old(self)@, x as int, y as int, sprite),
            collision == row_collides(old(self)@, x as int, y as int, sprite),
    {
        let row: usize = y % HEIGHT;
        let origin: usize = x % WIDTH;
        let mut collision = false;
        let mut dx: u8 = 0;
        while dx < 8
            invariant
                dx <= 8,
                row == y % 32,
                origin == x % 64,
                self@.len() == 2048,
                forall|i: int|
                    0 <= i < 2048 ==> #[trigger] self@[i] == if sprite_covers(
                        x as int,
                        y as int,
                        sprite,
                        i % 64,
                        i / 64,
                    ) && column_offset(x as int, i % 64) < dx {
                        toggled(old(self)@[i])
                    } else {
                        old(self)@[i]
                    },
                collision <==> exists|cx: int|
                    0 <= cx < 64 && #[trigger] erases(old(self)@, x as int, y as int, sprite, cx)
                        && column_offset(x as int, cx) < dx,
            decreases 8 - dx,
        {
            let col: usize = (origin + dx as usize) % WIDTH;
            let at: usize = row * WIDTH + col;
            assert(column_offset(x as int, col as int) == dx);
            assert(at as int % 64 == col && at as int / 64 == row);
            if (sprite >> (7 - dx)) & 1 == 1 {
                assert(sprite_bit(sprite, dx as int));
                if self.memory[at] == 1 {
                    assert(erases(old(self)@, x as int, y as int, sprite, col as int));
                    collision = true;
                    self.memory[at] = 0;
                } else {
                    self.memory[at] = 1;
                }
            }
            dx += 1;
        }
        assert(final(self)@ =~= row_drawn(old(self)@, x as int, y as int, sprite));
        collision
    }

    /// One row of the display as text: `#` for a lit pixel, `.` for a dark one.
    pub fn row_text(&self, y: usize) -> (text: Vec<char>)
        requires
            y < HEIGHT,
        ensures
            text@.len() == 64,
            forall|x: int|
                0 <= x < 64 ==> #[trigger] text@[x] == if lit(self@, x, y as int) {
                    '#'
                } else {
                    '.'
                },
    {
        let mut text: Vec<char> = Vec::new();
        let mut x: usize = 0;
        while x < WIDTH
            invariant
                x <= 64,
                y < 32,
                text@.len() == x,
                forall|c: int|
                    0 <= c < x ==> #[trigger] text@[c] == if lit(self@, c, y as int) {
                        '#'
                    } else {
                        '.'
                    },
            decreases 64 - x,
        {
            if self.get_pixel(x, y) {
                text.push('#');
            } else {
                text.push('.');
            }
            x += 1;
        }
        text
    }
}

} // verus!
