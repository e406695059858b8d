//! What holds of the display model whatever is written: the facts that
//! callers of the driver may rely on, each proved from the definitions in
//! [`crate::screen`].

use crate::screen::{
    all_printable, blank_row, glyph_of, is_glyph, is_printable, Cell, Screen, HEIGHT, LAST_ROW,
    NEWLINE, PLACEHOLDER, WIDTH,
};
use vstd::prelude::*;

verus! {

/// A row with the glyphs of `bytes` laid over it from column `at` on, in the
/// attribute `attr`; the cells outside that window are those of `row`.
pub open spec fn overlay(row: Seq<Cell>, at: int, bytes: Seq<u8>, attr: u8) -> Seq<Cell> {
    Seq::new(
        row.len(),
        |c: int|
            if at <= c < at + bytes.len() {
                Cell { glyph: glyph_of(bytes[c - at]), attr }
            } else {
                row[c]
            },
    )
}

/// Whether `bytes` holds no line break.
pub open spec fn no_newline(bytes: Seq<u8>) -> bool {
    forall|i: int| 0 <= i < bytes.len() ==> #[trigger] bytes[i] != NEWLINE
}

/// Scrolling keeps the display well formed.
pub proof fn lemma_scroll_wf(s: Screen)
    requires
        s.wf(),
    ensures
        s.scroll().wf(),
        s.settle().wf(),
        s.settle().column < WIDTH,
{
    let t = s.scroll();
    assert forall|r: int| 0 <= r < HEIGHT implies (#[trigger] t.rows[r]).len() == WIDTH by {
        if r < LAST_ROW {
            assert(t.rows[r] == s.rows[r + 1]);
        }
    }
    assert forall|r: int, c: int| 0 <= r < HEIGHT && 0 <= c < WIDTH implies is_glyph(
        (#[trigger] t.rows[r][c]).glyph,
    ) by {
        if r < LAST_ROW {
            assert(t.rows[r][c] == s.rows[r + 1][c]);
        }
    }
}

/// Writing one byte keeps the display well formed, whatever the byte.
pub proof fn lemma_write_byte_wf(s: Screen, byte: u8)
    requires
        s.wf(),
    ensures
        s.write_byte(byte).wf(),
{
    lemma_scroll_wf(s);
    let m = s.settle();
    if byte == NEWLINE {
        lemma_scroll_wf(m);
    } else {
        let t = m.put(glyph_of(byte));
        assert forall|r: int| 0 <= r < HEIGHT implies (#[trigger] t.rows[r]).len() == WIDTH by {
            if r != LAST_ROW {
                assert(t.rows[r] == m.rows[r]);
            }
        }
        assert forall|r: int, c: int| 0 <= r < HEIGHT && 0 <= c < WIDTH implies is_glyph(
            (#[trigger] t.rows[r][c]).glyph,
        ) by {
            if r != LAST_ROW || c != m.column {
                assert(t.rows[r][c] == m.rows[r][c]);
            }
        }
    }
}

/// Writing any bytes keeps the display well formed.
pub proof fn lemma_write_bytes_wf(s: Screen, bytes: Seq<u8>)
    requires
        s.wf(),
    ensures
        s.write_bytes(bytes).wf(),
    decreases bytes.len(),
{
    if bytes.len() > 0 {
        lemma_write_bytes_wf(s, bytes.drop_last());
        lemma_write_byte_wf(s.write_bytes(bytes.drop_last()), bytes.last());
    }
}

/// Writing never changes the active attribute, whatever is written.
pub proof fn lemma_write_bytes_keeps_attr(s: Screen, bytes: Seq<u8>)
    ensures
        s.write_bytes(bytes).attr == s.attr,
    decreases bytes.len(),
{
    if bytes.len() > 0 {
        lemma_write_bytes_keeps_attr(s, bytes.drop_last());
    }
}

/// Writing two byte sequences one after the other is writing their
/// concatenation.
pub proof fn lemma_write_bytes_concat(s: Screen, first: Seq<u8>, second: Seq<u8>)
    ensures
        s.write_bytes(first + second) == s.write_bytes(first).write_bytes(second),
    decreases second.len(),
{
    if second.len() == 0 {
        assert(first + second =~= first);
    } else {
        lemma_write_bytes_concat(s, first, second.drop_last());
        assert((first + second).drop_last() =~= first + second.drop_last());
        assert((first + second).last() == second.last());
    }
}

/// Text without a line break that fits on the current line lands in the bottom
/// row, from the cursor on, in the active attribute; the cursor moves on by
/// its length and nothing else on the display changes. A wrap that was
/// pending is resolved before the first byte.
pub proof fn lemma_write_on_line(s: Screen, bytes: Seq<u8>)
    requires
        s.wf(),
        no_newline(bytes),
        bytes.len() >= 1,
        s.settle().column + bytes.len() <= WIDTH,
    ensures
        s.write_bytes(bytes) == (Screen {
            rows: s.settle().rows.update(
                LAST_ROW as int,
                overlay(s.settle().bottom(), s.settle().column, bytes, s.attr),
            ),
            column: s.settle().column + bytes.len(),
            attr: s.attr,
        }),
    decreases bytes.len(),
{
    lemma_scroll_wf(s);
    let m = s.settle();
    let init = bytes.drop_last();
    let last = bytes.last();
    let t = s.write_bytes(bytes);
    let want = Screen {
        rows: m.rows.update(LAST_ROW as int, overlay(m.bottom(), m.column, bytes, s.attr)),
        column: m.column + bytes.len(),
        attr: s.attr,
    };
    assert(last != NEWLINE);
    if init.len() == 0 {
        assert(s.write_bytes(init) == s);
        assert(t == m.put(glyph_of(last)));
        assert(t.rows =~~= want.rows);
    } else {
        assert(no_newline(init)) by {
            assert forall|i: int| 0 <= i < init.len() implies #[trigger] init[i] != NEWLINE by {
                assert(init[i] == bytes[i]);
            }
        }
        lemma_write_on_line(s, init);
        let mid = s.write_bytes(init);
        assert(mid.settle() == mid);
        assert(t == mid.put(glyph_of(last)));
        assert(t.rows =~~= want.rows);
    }
}

/// Printable text shorter than a line, written from the start of a line,
/// stands at the start of the bottom row: cell `i` shows byte `i` in the
/// attribute that was active, and the cursor stands right behind the text.
///
/// The cursor is at the start of a line when its column is 0, or 80 with the
/// wrap still pending.
pub proof fn lemma_line_start_text(s: Screen, bytes: Seq<u8>)
    requires
        s.wf(),
        all_printable(bytes),
        bytes.len() < WIDTH,
        s.column == 0 || s.column == WIDTH,
    ensures
        forall|i: int|
            0 <= i < bytes.len() ==> #[trigger] s.write_bytes(bytes).bottom()[i] == (Cell {
                glyph: bytes[i],
                attr: s.attr,
            }),
        bytes.len() >= 1 ==> s.write_bytes(bytes).column == bytes.len(),
{
    if bytes.len() >= 1 {
        lemma_printable_no_newline(bytes);
        lemma_scroll_wf(s);
        lemma_write_on_line(s, bytes);
    }
}

/// Printable bytes hold no line break.
pub proof fn lemma_printable_no_newline(bytes: Seq<u8>)
    requires
        all_printable(bytes),
    ensures
        no_newline(bytes),
{
    assert forall|i: int| 0 <= i < bytes.len() implies #[trigger] bytes[i] != NEWLINE by {
        assert(is_printable(bytes[i]));
    }
}

/// A full line of 80 printable bytes written from the start of a line fills
/// the bottom row and leaves the cursor at column 80, the wrap pending. The
/// next write then begins on a freshly scrolled row: whatever byte comes, the
/// full line stands untouched one row up before that byte is handled, and a
/// byte that is shown becomes the only glyph of the bottom row, at column 0.
pub proof fn lemma_full_line_wraps(s: Screen, bytes: Seq<u8>, next: u8)
    requires
        s.wf(),
        all_printable(bytes),
        bytes.len() == WIDTH,
        s.column == 0 || s.column == WIDTH,
    ensures
        s.write_bytes(bytes).column == WIDTH,
        s.write_bytes(bytes).bottom() == overlay(blank_row(s.attr), 0, bytes, s.attr),
        s.write_bytes(bytes).write_byte(next) == s.write_bytes(bytes).scroll().write_byte(next),
        s.write_bytes(bytes).scroll().column == 0,
        s.write_bytes(bytes).scroll().bottom() == blank_row(s.attr),
        s.write_bytes(bytes).scroll().rows[LAST_ROW - 1] == s.write_bytes(bytes).bottom(),
        next != NEWLINE ==> {
            &&& s.write_bytes(bytes).write_byte(next).column == 1
            &&& s.write_bytes(bytes).write_byte(next).rows[LAST_ROW - 1] == s.write_bytes(
                bytes,
            ).bottom()
            &&& s.write_bytes(bytes).write_byte(next).bottom() == blank_row(s.attr).update(
                0,
                Cell { glyph: glyph_of(next), attr: s.attr },
            )
        },
{
    lemma_printable_no_newline(bytes);
    lemma_scroll_wf(s);
    lemma_write_on_line(s, bytes);
    let t = s.write_bytes(bytes);
    assert(t.bottom() =~= overlay(blank_row(s.attr), 0, bytes, s.attr));
    lemma_write_bytes_wf(s, bytes);
    lemma_scroll_wf(t);
    assert(t.scroll().settle() == t.scroll());
    if next != NEWLINE {
        let u = t.write_byte(next);
        assert(u == t.scroll().put(glyph_of(next)));
        assert(u.bottom() =~= blank_row(s.attr).update(
            0,
            Cell { glyph: glyph_of(next), attr: s.attr },
        ));
    }
}

/// A line break always returns the cursor to column 0 and never occupies a
/// cell: no cell of the display holds it afterwards, and every row above the
/// bottom one is a row that was on the display before, the bottom row
/// being blank.
pub proof fn lemma_newline_takes_no_cell(s: Screen)
    requires
        s.wf(),
    ensures
        s.write_byte(NEWLINE).column == 0,
        s.write_byte(NEWLINE).bottom() == blank_row(s.attr),
        forall|r: int|
            0 <= r < LAST_ROW ==> #[trigger] s.write_byte(NEWLINE).rows[r] == s.settle().rows[r
                + 1],
        forall|r: int, c: int|
            0 <= r < HEIGHT && 0 <= c < WIDTH ==> (#[trigger] s.write_byte(NEWLINE).rows[r][c]).glyph
                != NEWLINE,
{
    lemma_write_byte_wf(s, NEWLINE);
    let t = s.write_byte(NEWLINE);
    assert forall|r: int, c: int| 0 <= r < HEIGHT && 0 <= c < WIDTH implies (
    #[trigger] t.rows[r][c]).glyph != NEWLINE by {
        assert(is_glyph(t.rows[r][c].glyph));
    }
}

/// Every byte that is neither printable nor the line break is shown as the
/// placeholder glyph: writing it is writing the placeholder, and the cell
/// under the cursor then holds the placeholder in the active attribute.
pub proof fn lemma_unprintable_shows_placeholder(s: Screen, byte: u8)
    requires
        s.wf(),
        !is_printable(byte),
        byte != NEWLINE,
    ensures
        s.write_byte(byte) == s.write_byte(PLACEHOLDER),
        s.write_byte(byte).bottom()[s.settle().column] == (Cell {
            glyph: PLACEHOLDER,
            attr: s.attr,
        }),
        s.write_byte(byte).column == s.settle().column + 1,
{
    lemma_scroll_wf(s);
}

/// Writing a line is writing its bytes with the line break appended.
pub proof fn lemma_write_line_is_write_bytes(s: Screen, line: Seq<u8>)
    ensures
        s.write_line(line) == s.write_bytes(line.push(NEWLINE)),
{
    assert(line.push(NEWLINE).drop_last() =~= line);
}

/// A line that ends before the last column, once broken off, stands in the
/// row above the bottom one; every older row has moved up by one, the top
/// row is gone, and the bottom row is blank with the cursor at its start.
pub proof fn lemma_write_line(s: Screen, line: Seq<u8>)
    requires
        s.wf(),
        no_newline(line),
        s.column + line.len() < WIDTH,
    ensures
        s.write_line(line).wf(),
        s.write_line(line).column == 0,
        s.write_line(line).attr == s.attr,
        s.write_line(line).bottom() == blank_row(s.attr),
        s.write_line(line).rows[LAST_ROW - 1] == overlay(s.bottom(), s.column, line, s.attr),
        forall|r: int|
            0 <= r < LAST_ROW - 1 ==> #[trigger] s.write_line(line).rows[r] == s.rows[r + 1],
{
    lemma_write_bytes_wf(s, line);
    lemma_write_byte_wf(s.write_bytes(line), NEWLINE);
    if line.len() >= 1 {
        lemma_write_on_line(s, line);
    } else {
        assert(s.bottom() =~= overlay(s.bottom(), s.column, line, s.attr));
    }
}

/// The row `r` of the display after `lines` were written from the start of a
/// line, counted from the lines themselves: the bottom row is blank, each row
/// above it shows the line written that many lines ago, and only rows that no
/// line has reached yet still show what `s` showed, moved up.
pub open spec fn row_after_lines(s: Screen, lines: Seq<Seq<u8>>, r: int) -> Seq<Cell> {
    let k = lines.len() - LAST_ROW + r;
    if r == LAST_ROW {
        blank_row(s.attr)
    } else if k >= 1 {
        overlay(blank_row(s.attr), 0, lines[k], s.attr)
    } else if k == 0 {
        overlay(s.bottom(), 0, lines[0], s.attr)
    } else {
        s.rows[r + lines.len()]
    }
}

/// Whether every line of `lines` is free of line breaks and ends before the
/// last column.
pub open spec fn short_lines(lines: Seq<Seq<u8>>) -> bool {
    forall|k: int|
        0 <= k < lines.len() ==> no_newline(#[trigger] lines[k]) && lines[k].len() < WIDTH
}

/// After any number of short lines written from column 0, the display shows
/// the most recent lines and nothing else: the bottom row is blank, the row
/// above it shows the last line, the one above that the line before, and so
/// on upwards, each padded with blanks.
pub proof fn lemma_write_lines(s: Screen, lines: Seq<Seq<u8>>)
    requires
        s.wf(),
        s.column == 0,
        short_lines(lines),
        lines.len() >= 1,
    ensures
        s.write_lines(lines).wf(),
        s.write_lines(lines).column == 0,
        s.write_lines(lines).attr == s.attr,
        forall|r: int|
            0 <= r < HEIGHT ==> #[trigger] s.write_lines(lines).rows[r] == row_after_lines(
                s,
                lines,
                r,
            ),
    decreases lines.len(),
{
    let init = lines.drop_last();
    let last = lines.last();
    let t = s.write_lines(lines);
    if init.len() == 0 {
        assert(s.write_lines(init) == s);
        lemma_write_line(s, last);
        assert forall|r: int| 0 <= r < HEIGHT implies #[trigger] t.rows[r] == row_after_lines(
            s,
            lines,
            r,
        ) by {
            if r < LAST_ROW - 1 {
                assert(t.rows[r] == s.rows[r + 1]);
            }
        }
    } else {
        assert(short_lines(init)) by {
            assert forall|k: int| 0 <= k < init.len() implies no_newline(#[trigger] init[k])
                && init[k].len() < WIDTH by {
                assert(init[k] == lines[k]);
            }
        }
        lemma_write_lines(s, init);
        let mid = s.write_lines(init);
        assert(mid.bottom() == row_after_lines(s, init, LAST_ROW as int));
        lemma_write_line(mid, last);
        assert forall|r: int| 0 <= r < HEIGHT implies #[trigger] t.rows[r] == row_after_lines(
            s,
            lines,
            r,
        ) by {
            if r < LAST_ROW - 1 {
                assert(t.rows[r] == mid.rows[r + 1]);
                assert(mid.rows[r + 1] == row_after_lines(s, init, r + 1));
                let k = lines.len() - LAST_ROW + r;
                if k >= 0 {
                    assert(init[k] == lines[k]);
                }
            }
        }
    }
}

/// Once 25 short lines or more were written from column 0, nothing that the
/// display showed before is left on it: every row above the blank bottom row
/// shows one of the last 24 lines, whatever the display held at the start.
pub proof fn lemma_old_rows_scroll_away(s: Screen, lines: Seq<Seq<u8>>)
    requires
        s.wf(),
        s.column == 0,
        short_lines(lines),
        lines.len() >= HEIGHT,
    ensures
        s.write_lines(lines).bottom() == blank_row(s.attr),
        forall|r: int|
            0 <= r < LAST_ROW ==> #[trigger] s.write_lines(lines).rows[r] == overlay(
                blank_row(s.attr),
                0,
                lines[lines.len() - LAST_ROW + r],
                s.attr,
            ),
{
    lemma_write_lines(s, lines);
    let t = s.write_lines(lines);
    assert(t.rows[LAST_ROW as int] == row_after_lines(s, lines, LAST_ROW as int));
    assert forall|r: int| 0 <= r < LAST_ROW implies #[trigger] t.rows[r] == overlay(
        blank_row(s.attr),
        0,
        lines[lines.len() - LAST_ROW + r],
        s.attr,
    ) by {
        assert(t.rows[r] == row_after_lines(s, lines, r));
    }
}

} // verus!
