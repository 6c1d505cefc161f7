//! Painting a game into a pixel buffer.
//!
//! A buffer holds one 32-bit colour per pixel, row after row, each row
//! [`VIEW_WIDTH`] pixels wide. The cell in column `c` of row `r` is entry
//! `r * VIEW_WIDTH + c`. A rectangle is painted where it lies over cells of
//! the buffer; the parts of it to the left of the first column, to the right
//! of the last one, above the first row or beyond the end of the buffer are
//! left out.

use vstd::prelude::*;
use crate::body::Body;
use crate::game::Game;
use crate::units::{to_pixels, whole_pixels};

verus! {

/// Pixels in one row of the viewport.
pub const VIEW_WIDTH: usize = 800;

/// Rows of the viewport.
pub const VIEW_HEIGHT: usize = 600;

/// Colour of the empty field: black.
pub const BACKGROUND: u32 = 0;

/// Colour of the ball and the paddle: opaque white.
pub const FOREGROUND: u32 = 0xFFFF_FFFF;

/// A rectangle of whole pixels: the cells in columns `x .. x + width` of rows
/// `y .. y + height`. It may lie partly or wholly outside the viewport.
#[derive(Clone, Copy, Debug, PartialEq, Eq, Structural)]
pub struct Rect {
    pub x: i64,
    pub y: i64,
    pub width: i64,
    pub height: i64,
}

/// The column of the cell that buffer entry `index` holds.
pub open spec fn column_of(index: int) -> int {
    index % 800
}

/// The row of the cell that buffer entry `index` holds.
pub open spec fn row_of(index: int) -> int {
    index / 800
}

impl Rect {
    /// The cell in column `column` of row `row` lies in the rectangle.
    pub open spec fn holds(self, column: int, row: int) -> bool {
        &&& self.x <= column < self.x + self.width
        &&& self.y <= row < self.y + self.height
    }

    /// The cell that buffer entry `index` holds lies in the rectangle.
    pub open spec fn covers(self, index: int) -> bool {
        self.holds(column_of(index), row_of(index))
    }
}

/// A buffer of `len` background pixels.
pub open spec fn blank(len: nat) -> Seq<u32> {
    Seq::new(len, |i: int| BACKGROUND)
}

/// The buffer `canvas` with every cell that lies in `rect` set to the
/// foreground colour and every other cell as it was.
pub open spec fn painted(canvas: Seq<u32>, rect: Rect) -> Seq<u32> {
    Seq::new(
        canvas.len(),
        |i: int|
            if rect.covers(i) {
                FOREGROUND
            } else {
                canvas[i]
            },
    )
}

impl Body {
    /// The pixels that the body occupies: position and extent cut down to
    /// whole pixels.
    pub open spec fn footprint(self) -> Rect {
        Rect {
            x: whole_pixels(self.x),
            y: whole_pixels(self.y),
            width: whole_pixels(self.width),
            height: whole_pixels(self.height),
        }
    }

    /// Computes the pixels that the body occupies.
    pub fn pixels(&self) -> (rect: Rect)
        ensures
            rect == self.footprint(),
    {
        Rect {
            x: to_pixels(self.x),
            y: to_pixels(self.y),
            width: to_pixels(self.width),
            height: to_pixels(self.height),
        }
    }
}

impl Game {
    /// The frame that shows the game in a buffer of `len` pixels: the cells
    /// of the ball and of the paddle in the foreground colour, every other
    /// cell in the background colour.
    pub open spec fn picture(self, len: nat) -> Seq<u32> {
        painted(painted(blank(len), self.ball.footprint()), self.paddle.footprint())
    }

    /// Paints the game into `buffer`, whatever the buffer held before.
    pub fn render(&self, buffer: &mut [u32])
        ensures
            final(buffer)@ == self.picture(old(buffer)@.len()),
    {
        clear(buffer);
        fill_rect(buffer, &self.ball.pixels());
        fill_rect(buffer, &self.paddle.pixels());
    }
}

/// A buffer for the whole viewport, all background.
pub fn blank_buffer() -> (buffer: Vec<u32>)
    ensures
        buffer@ == blank((VIEW_WIDTH * VIEW_HEIGHT) as nat),
{
    let buffer = vec![BACKGROUND; 480_000];
    assert(buffer@ =~= blank(480_000));
    buffer
}

/// Sets every pixel of `buffer` to the background colour.
pub fn clear(buffer: &mut [u32])
    ensures
        final(buffer)@ == blank(old(buffer)@.len()),
{
    let len = buffer.len();
    let mut i: usize = 0;
    while i < len
        invariant
            len == buffer@.len(),
            buffer@.len() == old(buffer)@.len(),
            i <= len,
            forall|k: int| 0 <= k < i ==> buffer@[k] == BACKGROUND,
        decreases len - i,
    {
        buffer[i] = BACKGROUND;
        i += 1;
    }
}

/// Sets every cell of `buffer` that lies in `rect` to the foreground colour
/// and leaves the others as they are. Only the columns of the rectangle that
/// the viewport has are visited, and a row is given up at its first cell
/// beyond the end of the buffer, as is the rectangle at its first such row.
pub fn fill_rect(buffer: &mut [u32], rect: &Rect)
    ensures
        final(buffer)@ == painted(old(buffer)@, *rect),
{
    let len = buffer.len();
    let right: i128 = rect.x as i128 + rect.width as i128;
    let first_column: i128 = if rect.x > 0 {
        rect.x as i128
    } else {
        0
    };
    let end_column: i128 = if right < 800 {
        right
    } else {
        800
    };
    if first_column >= end_column {
        assert(buffer@ =~= painted(old(buffer)@, *rect));
        return;
    }
    let end_row: i128 = rect.y as i128 + rect.height as i128;
    let mut row: i128 = if rect.y > 0 {
        rect.y as i128
    } else {
        0
    };
    while row < end_row
        invariant_except_break
            forall|i: int|
                0 <= i < len ==> buffer@[i] == (if rect.covers(i) && row_of(i) < row {
                    FOREGROUND
                } else {
                    old(buffer)@[i]
                }),
        invariant
            len == buffer@.len(),
            buffer@.len() == old(buffer)@.len(),
            0 <= row,
            rect.y <= row,
            row <= 0x1_0000_0000_0000_0000,
            end_row == rect.y + rect.height,
            0 <= first_column < end_column <= 800,
            first_column == (if rect.x > 0 {
                rect.x as int
            } else {
                0
            }),
            end_column == (if rect.x + rect.width < 800 {
                rect.x + rect.width
            } else {
                800
            }),
        ensures
            forall|i: int|
                0 <= i < len ==> buffer@[i] == (if rect.covers(i) {
                    FOREGROUND
                } else {
                    old(buffer)@[i]
                }),
        decreases end_row - row,
    {
        let row_start: i128 = row * 800;
        if row_start + first_column >= len as i128 {
            break;
        }
        assert forall|i: int| 0 <= i < len && rect.covers(i) implies column_of(i)
            >= first_column by {
            assert(column_of(i) >= 0);
        }
        let mut column: i128 = first_column;
        while column < end_column
            invariant_except_break
                forall|i: int|
                    0 <= i < len ==> buffer@[i] == (if rect.covers(i) && (row_of(i) < row || (row_of(
                        i,
                    ) == row && column_of(i) < column)) {
                        FOREGROUND
                    } else {
                        old(buffer)@[i]
                    }),
            invariant
                len == buffer@.len(),
                buffer@.len() == old(buffer)@.len(),
                0 <= row < end_row,
                rect.y <= row,
                end_row == rect.y + rect.height,
                row_start == row * 800,
                0 <= first_column <= column,
                column <= end_column <= 800,
                first_column == (if rect.x > 0 {
                    rect.x as int
                } else {
                    0
                }),
                end_column == (if rect.x + rect.width < 800 {
                    rect.x + rect.width
                } else {
                    800
                }),
            ensures
                forall|i: int|
                    0 <= i < len ==> buffer@[i] == (if rect.covers(i) && row_of(i) < row + 1 {
                        FOREGROUND
                    } else {
                        old(buffer)@[i]
                    }),
            decreases end_column - column,
        {
            let index: i128 = row_start + column;
            if index >= len as i128 {
                break;
            }
            buffer[index as usize] = FOREGROUND;
            column += 1;
        }
        row += 1;
    }
    assert(buffer@ =~= painted(old(buffer)@, *rect));
}

} // verus!
