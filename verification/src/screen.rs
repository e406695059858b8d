//! The mathematical model of the display: what is on the grid, where the
//! cursor stands, and how each byte written changes both.
//!
//! The driver in [`crate::vga`] is specified against this model: every
//! executable operation states which of the functions below it computes.

use vstd::prelude::*;

verus! {

/// Number of columns of the text-mode grid.
pub const WIDTH: usize = 80;

/// Number of rows of the text-mode grid.
pub const HEIGHT: usize = 25;

/// Index of the bottom row, the only row that is ever written to.
pub const LAST_ROW: usize = 24;

/// The line-break byte: it scrolls the display and is never shown.
pub const NEWLINE: u8 = 0x0a;

/// The glyph that fills a cleared cell.
pub const SPACE: u8 = 0x20;

/// The glyph shown in place of a byte that has no printable form.
pub const PLACEHOLDER: u8 = 0xfe;

/// Whether `byte` is printable ASCII, `0x20` (space) to `0x7e` (tilde).
pub open spec fn is_printable(byte: u8) -> bool {
    0x20 <= byte <= 0x7e
}

/// The glyph that a byte other than the line break is shown as: itself when
/// printable, the placeholder otherwise.
pub open spec fn glyph_of(byte: u8) -> u8 {
    if is_printable(byte) {
        byte
    } else {
        PLACEHOLDER
    }
}

/// Whether `glyph` can stand in a cell: a printable byte or the placeholder.
pub open spec fn is_glyph(glyph: u8) -> bool {
    is_printable(glyph) || glyph == PLACEHOLDER
}

/// Whether every byte of `bytes` is printable ASCII.
pub open spec fn all_printable(bytes: Seq<u8>) -> bool {
    forall|i: int| 0 <= i < bytes.len() ==> is_printable(#[trigger] bytes[i])
}

/// One character cell: the glyph shown and the packed color attribute it is
/// shown in.
pub struct Cell {
    pub glyph: u8,
    pub attr: u8,
}

/// The whole display state: the grid row by row from the top, the cursor
/// column, and the attribute that the next write will use.
pub struct Screen {
    pub rows: Seq<Seq<Cell>>,
    pub column: int,
    pub attr: u8,
}

/// A row of spaces in the given attribute.
pub open spec fn blank_row(attr: u8) -> Seq<Cell> {
    Seq::new(WIDTH as nat, |c: int| Cell { glyph: SPACE, attr })
}

impl Screen {
    /// A cleared display: every cell a space in `attr`, cursor at column 0.
    pub open spec fn blank(attr: u8) -> Screen {
        Screen { rows: Seq::new(HEIGHT as nat, |r: int| blank_row(attr)), column: 0, attr }
    }

    /// The grid is 80 by 25, every cell holds a glyph, and the cursor column
    /// lies in `0..=80`, where 80 marks a wrap that the next write resolves.
    pub open spec fn wf(self) -> bool {
        &&& self.rows.len() == HEIGHT
        &&& forall|r: int| 0 <= r < HEIGHT ==> (#[trigger] self.rows[r]).len() == WIDTH
        &&& forall|r: int, c: int|
            0 <= r < HEIGHT && 0 <= c < WIDTH ==> is_glyph((#[trigger] self.rows[r][c]).glyph)
        &&& 0 <= self.column <= WIDTH
    }

    /// The bottom row.
    pub open spec fn bottom(self) -> Seq<Cell> {
        self.rows[LAST_ROW as int]
    }

    /// The display with another active attribute; no cell changes.
    pub open spec fn recolor(self, attr: u8) -> Screen {
        Screen { attr, ..self }
    }

    /// The display with row `line` cleared to spaces in the active attribute
    /// and the cursor back at column 0.
    pub open spec fn clear_line(self, line: int) -> Screen {
        Screen { rows: self.rows.update(line, blank_row(self.attr)), column: 0, ..self }
    }

    /// The display advanced by one line: every row moves up by one, the top
    /// row is lost, the bottom row is cleared in the active attribute and the
    /// cursor returns to column 0.
    pub open spec fn scroll(self) -> Screen {
        Screen {
            rows: Seq::new(
                HEIGHT as nat,
                |r: int|
                    if r < LAST_ROW {
                        self.rows[r + 1]
                    } else {
                        blank_row(self.attr)
                    },
            ),
            column: 0,
            ..self
        }
    }

    /// The display with a pending wrap resolved: a cursor at column 80 scrolls
    /// first, any other cursor leaves the display as it is.
    pub open spec fn settle(self) -> Screen {
        if self.column == WIDTH {
            self.scroll()
        } else {
            self
        }
    }

    /// The display with `glyph` placed at the cursor in the bottom row, in the
    /// active attribute, and the cursor moved one column on.
    pub open spec fn put(self, glyph: u8) -> Screen {
        Screen {
            rows: self.rows.update(
                LAST_ROW as int,
                self.bottom().update(self.column, Cell { glyph, attr: self.attr }),
            ),
            column: self.column + 1,
            ..self
        }
    }

    /// The display after one byte is written: a pending wrap is resolved
    /// first; then a line break scrolls, and any other byte is placed at the
    /// cursor as its glyph.
    pub open spec fn write_byte(self, byte: u8) -> Screen {
        if byte == NEWLINE {
            self.settle().scroll()
        } else {
            self.settle().put(glyph_of(byte))
        }
    }

    /// The display after the bytes of `bytes` are written in order.
    pub open spec fn write_bytes(self, bytes: Seq<u8>) -> Screen
        decreases bytes.len(),
    {
        if bytes.len() == 0 {
            self
        } else {
            self.write_bytes(bytes.drop_last()).write_byte(bytes.last())
        }
    }

    /// The display after `line` is written and followed by a line break.
    pub open spec fn write_line(self, line: Seq<u8>) -> Screen {
        self.write_bytes(line).write_byte(NEWLINE)
    }

    /// The display after each of `lines` is written in order, every one
    /// followed by a line break.
    pub open spec fn write_lines(self, lines: Seq<Seq<u8>>) -> Screen
        decreases lines.len(),
    {
        if lines.len() == 0 {
            self
        } else {
            self.write_lines(lines.drop_last()).write_line(lines.last())
        }
    }
}

} // verus!
