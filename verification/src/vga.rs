//! The 80x25 text-mode display: colors, cells, and the driver that writes them.

use crate::screen::{Cell, Screen, HEIGHT, LAST_ROW, NEWLINE, PLACEHOLDER, SPACE, WIDTH, is_glyph};
use vstd::prelude::*;
use vstd::string::StringSliceAdditionalSpecFns;

verus! {

/// One of the sixteen palette entries of the text-mode display.
#[derive(Debug, Clone, Copy, PartialEq, Eq, Structural)]
pub enum Color {
    Black,
    Blue,
    Green,
    Cyan,
    Red,
    Magenta,
    Brown,
    LightGray,
    DarkGray,
    LightBlue,
    LightGreen,
    LightCyan,
    LightRed,
    Pink,
    Yellow,
    White,
}

impl Color {
    /// The palette index of this color, `0` for black up to `15` for white.
    pub open spec fn index(self) -> u8 {
        match self {
            Color::Black => 0,
            Color::Blue => 1,
            Color::Green => 2,
            Color::Cyan => 3,
            Color::Red => 4,
            Color::Magenta => 5,
            Color::Brown => 6,
            Color::LightGray => 7,
            Color::DarkGray => 8,
            Color::LightBlue => 9,
            Color::LightGreen => 10,
            Color::LightCyan => 11,
            Color::LightRed => 12,
            Color::Pink => 13,
            Color::Yellow => 14,
            Color::White => 15,
        }
    }

    /// Computes the palette index of this color.
    pub fn code(self) -> (n: u8)
        ensures
            n == self.index(),
            n < 16,
    {
        match self {
            Color::Black => 0,
            Color::Blue => 1,
            Color::Green => 2,
            Color::Cyan => 3,
            Color::Red => 4,
            Color::Magenta => 5,
            Color::Brown => 6,
            Color::LightGray => 7,
            Color::DarkGray => 8,
            Color::LightBlue => 9,
            Color::LightGreen => 10,
            Color::LightCyan => 11,
            Color::LightRed => 12,
            Color::Pink => 13,
            Color::Yellow => 14,
            Color::White => 15,
        }
    }
}

/// The packed attribute byte for a foreground and a background palette index:
/// the foreground in the low nibble, the background in the high nibble.
pub open spec fn pack(foreground: u8, background: u8) -> u8 {
    (background << 4) | foreground
}

/// A color attribute: a foreground and a background color packed into one
/// byte.
#[derive(Debug, Clone, Copy)]
pub struct VGAColor {
    color: u8,
}

impl View for VGAColor {
    type V = u8;

    /// The packed attribute byte.
    closed spec fn view(&self) -> u8 {
        self.color
    }
}

impl VGAColor {
    /// Packs two colors into one attribute, the foreground into the low
    /// nibble and the background into the high nibble.
    pub fn from_colors(foreground: Color, background: Color) -> (attr: VGAColor)
        ensures
            attr@ == pack(foreground.index(), background.index()),
            attr@ & 0x0f == foreground.index(),
            attr@ >> 4 == background.index(),
            attr@ == 16 * background.index() + foreground.index(),
    {
        let fg: u8 = foreground.code();
        let bg: u8 = background.code();
        proof {
            lemma_pack_nibbles(foreground, background);
        }
        VGAColor { color: (bg << 4) | fg }
    }

    /// The packed attribute byte.
    pub fn bits(self) -> (b: u8)
        ensures
            b == self@,
    {
        self.color
    }
}

/// One cell of the grid as it is stored: the glyph and its attribute.
#[derive(Debug, Clone, Copy)]
struct VGAChar {
    char: u8,
    color: VGAColor,
}

impl View for VGAChar {
    type V = Cell;

    closed spec fn view(&self) -> Cell {
        Cell { glyph: self.char, attr: self.color@ }
    }
}

/// The grid as it is stored: 25 rows of 80 cells.
struct VGABuffer {
    chars: [[VGAChar; 80]; 25],
}

/// The display driver: the grid, the cursor column and the active attribute.
pub struct VGADriver {
    buf: VGABuffer,
    color: VGAColor,
    pos: usize,
}

impl View for VGADriver {
    type V = Screen;

    closed spec fn view(&self) -> Screen {
        Screen {
            rows: Seq::new(
                HEIGHT as nat,
                |r: int| Seq::new(WIDTH as nat, |c: int| self.buf.chars[r][c]@),
            ),
            column: self.pos as int,
            attr: self.color@,
        }
    }
}

impl VGADriver {
    #[verifier::type_invariant]
    spec fn inv(self) -> bool {
        &&& self.pos <= WIDTH
        &&& forall|r: int, c: int|
            0 <= r < HEIGHT && 0 <= c < WIDTH ==> is_glyph((#[trigger] self.buf.chars[r][c]).char)
    }

    /// A driver over a cleared display: every cell a space in `color`, the
    /// cursor at column 0, and `color` the active attribute.
    pub fn new(color: VGAColor) -> (driver: VGADriver)
        ensures
            driver@ == Screen::blank(color@),
            driver@.wf(),
    {
        let blank = VGAChar { char: SPACE, color };
        let driver = VGADriver { buf: VGABuffer { chars: [[blank;80];25] }, color, pos: 0 };
        assert(driver@.rows =~~= Screen::blank(color@).rows);
        driver
    }

    /// The cursor column, `0..=80`; 80 marks a wrap that the next write
    /// resolves.
    pub fn column(&self) -> (pos: usize)
        ensures
            pos == self@.column,
            pos <= WIDTH,
            self@.wf(),
    {
        proof {
            use_type_invariant(self);
        }
        self.pos
    }

    /// The attribute that the next write will use.
    pub fn color(&self) -> (color: VGAColor)
        ensures
            color@ == self@.attr,
            self@.wf(),
    {
        proof {
            use_type_invariant(self);
        }
        self.color
    }

    /// The glyph shown at `row`, `col`.
    pub fn glyph_at(&self, row: usize, col: usize) -> (glyph: u8)
        requires
            row < HEIGHT,
            col < WIDTH,
        ensures
            glyph == self@.rows[row as int][col as int].glyph,
            is_glyph(glyph),
            self@.wf(),
    {
        proof {
            use_type_invariant(self);
        }
        self.buf.chars[row][col].char
    }

    /// The attribute of the cell at `row`, `col`.
    pub fn color_at(&self, row: usize, col: usize) -> (color: VGAColor)
        requires
            row < HEIGHT,
            col < WIDTH,
        ensures
            color@ == self@.rows[row as int][col as int].attr,
            self@.wf(),
    {
        proof {
            use_type_invariant(self);
        }
        self.buf.chars[row][col].color
    }

    /// Writes the bytes of `s` in order, each as [`VGADriver::write_byte`]
    /// writes it.
    pub fn write_string(&mut self, s: &str)
        ensures
            final(self)@ == old(self)@.write_bytes(s.spec_bytes()),
            final(self)@.attr == old(self)@.attr,
            old(self)@.wf(),
            final(self)@.wf(),
    {
        let bytes = s.as_bytes();
        let n: usize = bytes.len();
        proof {
            use_type_invariant(&*self);
        }
        let mut i: usize = 0;
        while i < n
            invariant
                0 <= i <= n,
                n == bytes@.len(),
                self@ == old(self)@.write_bytes(bytes@.take(i as int)),
                self@.attr == old(self)@.attr,
                self@.wf(),
            decreases n - i,
        {
            self.write_byte(bytes[i]);
            proof {
                let done = bytes@.take(i + 1);
                assert(done.drop_last() =~= bytes@.take(i as int));
            }
            i += 1;
        }
        assert(bytes@.take(n as int) =~= bytes@);
    }

    /// Makes `c` the attribute of all later writes; no cell changes.
    pub fn switch_color(&mut self, c: VGAColor)
        ensures
            final(self)@ == old(self)@.recolor(c@),
            final(self)@.rows == old(self)@.rows,
            final(self)@.column == old(self)@.column,
            final(self)@.attr == c@,
            old(self)@.wf(),
            final(self)@.wf(),
    {
        proof {
            use_type_invariant(&*self);
        }
        self.color = c;
    }

    /// Writes one byte at the cursor.
    ///
    /// A cursor at column 80 scrolls first. Then a line break scrolls and
    /// takes no cell; a printable byte goes to the bottom row at the cursor,
    /// in the active attribute; any other byte goes there as the placeholder
    /// glyph.
    pub fn write_byte(&mut self, byte: u8)
        ensures
            final(self)@ == old(self)@.write_byte(byte),
            old(self)@.wf(),
            final(self)@.wf(),
            byte == NEWLINE ==> final(self)@.column == 0,
            byte != NEWLINE ==> final(self)@.column == old(self)@.settle().column + 1,
            final(self)@.attr == old(self)@.attr,
    {
        proof {
            use_type_invariant(&*self);
        }
        if self.pos == WIDTH {
            self.new_line();
        }
        if byte == NEWLINE {
            self.new_line();
        } else {
            let glyph: u8 = if 0x20 <= byte && byte <= 0x7e {
                byte
            } else {
                PLACEHOLDER
            };
            proof {
                use_type_invariant(&*self);
            }
            let ghost settled = self@;
            self.buf.chars[LAST_ROW][self.pos] = VGAChar { char: glyph, color: self.color };
            self.pos += 1;
            assert(self@.rows =~~= settled.put(glyph).rows);
        }
    }

    /// Advances the display by one line: rows 1 to 24 move up by one, the
    /// bottom row is cleared in the active attribute, and the cursor returns
    /// to column 0.
    pub fn new_line(&mut self)
        ensures
            final(self)@ == old(self)@.scroll(),
            final(self)@.attr == old(self)@.attr,
            old(self)@.wf(),
            final(self)@.wf(),
    {
        proof {
            use_type_invariant(&*self);
        }
        let ghost before = *self;
        let mut i: usize = 1;
        while i < HEIGHT
            invariant
                1 <= i <= HEIGHT,
                self.pos == before.pos,
                self.color == before.color,
                forall|r: int| 0 <= r < i - 1 ==> self.buf.chars[r] == before.buf.chars[r + 1],
                forall|r: int| i - 1 <= r < HEIGHT ==> self.buf.chars[r] == before.buf.chars[r],
            decreases HEIGHT - i,
        {
            proof {
                use_type_invariant(&*self);
            }
            self.buf.chars[i - 1] = self.buf.chars[i];
            i += 1;
        }
        self.clear_line(LAST_ROW);
        assert(self@.rows =~~= before@.scroll().rows);
    }

    /// Clears row `line` to spaces in the active attribute and returns the
    /// cursor to column 0.
    fn clear_line(&mut self, line: usize)
        requires
            line < HEIGHT,
        ensures
            final(self)@ == old(self)@.clear_line(line as int),
            final(self)@.wf(),
    {
        proof {
            use_type_invariant(&*self);
        }
        let blank = VGAChar { char: SPACE, color: self.color };
        self.buf.chars[line] = [blank;80];
        self.pos = 0;
        assert(self@.rows =~~= old(self)@.clear_line(line as int).rows);
    }
}

/// The attribute byte holds the foreground in its low nibble and the
/// background in its high nibble, for every pair of colors.
pub proof fn lemma_pack_nibbles(foreground: Color, background: Color)
    ensures
        pack(foreground.index(), background.index()) & 0x0f == foreground.index(),
        pack(foreground.index(), background.index()) >> 4 == background.index(),
        pack(foreground.index(), background.index()) == 16 * background.index()
            + foreground.index(),
{
    let fg = foreground.index();
    let bg = background.index();
    assert(((bg << 4) | fg) & 0x0f == fg && ((bg << 4) | fg) >> 4 == bg && ((bg << 4) | fg) == 16
        * bg + fg) by (bit_vector)
        requires
            fg < 16,
            bg < 16,
    ;
}

/// Two pairs of colors pack to the same attribute byte only if they are the
/// same pair.
pub proof fn lemma_pack_injective(fg1: Color, bg1: Color, fg2: Color, bg2: Color)
    requires
        pack(fg1.index(), bg1.index()) == pack(fg2.index(), bg2.index()),
    ensures
        fg1 == fg2,
        bg1 == bg2,
{
    lemma_pack_nibbles(fg1, bg1);
    lemma_pack_nibbles(fg2, bg2);
}

} // verus!
