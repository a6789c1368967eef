use crate::buffer::{ScreenChar, BUFFER_HEIGHT, BUFFER_WIDTH};
use crate::color::ColorCode;
use crate::writer::{
    blank_cell, clear_row_spec, last_row_start, printable, row_start, sanitize_spec, scroll_spec,
    write_byte_spec, write_string_spec, WriterView, NEWLINE, UNPRINTABLE,
};
use vstd::prelude::*;

verus! {

/// A non-newline byte written through the string sink lands at the
/// cursor on the last row: a printable byte unchanged, every other
/// byte as the unprintable glyph.
pub proof fn lemma_byte_placed(v: WriterView, byte: u8)
    requires
        v.wf(),
        v.column < BUFFER_WIDTH,
        byte != NEWLINE,
    ensures
        ({
            let w = write_string_spec(v, seq![byte]);
            &&& printable(byte) ==> w.grid[last_row_start() + v.column] == (ScreenChar {
                ascii_char: byte,
                color_code: v.style,
            })
            &&& !printable(byte) ==> w.grid[last_row_start() + v.column] == (ScreenChar {
                ascii_char: UNPRINTABLE,
                color_code: v.style,
            })
        }),
{
    let s = seq![byte];
    assert(s.last() == byte);
    assert(write_string_spec(v, s.drop_last()) == v);
    assert(write_string_spec(v, s) == write_byte_spec(v, sanitize_spec(byte)));
}

/// Writing a line of at most eighty non-newline bytes from column zero
/// moves the cursor by the line's length, fills the last row from
/// column zero with the sanitized bytes, and leaves every other cell
/// unchanged.
pub proof fn lemma_write_line(v: WriterView, s: Seq<u8>)
    requires
        v.wf(),
        v.column == 0,
        s.len() <= BUFFER_WIDTH,
        forall|i: int| 0 <= i < s.len() ==> s[i] != NEWLINE,
    ensures
        ({
            let w = write_string_spec(v, s);
            &&& w.wf()
            &&& w.column == s.len()
            &&& w.style == v.style
            &&& w.grid.len() == v.grid.len()
            &&& forall|i: int|
                0 <= i < s.len() ==> w.grid[last_row_start() + i] == (ScreenChar {
                    ascii_char: sanitize_spec(s[i]),
                    color_code: v.style,
                })
            &&& forall|j: int|
                0 <= j < v.grid.len() && !(last_row_start() <= j < last_row_start() + s.len())
                    ==> w.grid[j] == v.grid[j]
        }),
    decreases s.len(),
{
    if s.len() == 0 {
    } else {
        let s0 = s.drop_last();
        lemma_write_line(v, s0);
        let w0 = write_string_spec(v, s0);
        let b = sanitize_spec(s.last());
        let w = write_string_spec(v, s);
        assert(b != NEWLINE);
        assert(w == write_byte_spec(w0, b));
        assert(w0.column < BUFFER_WIDTH);
        assert forall|i: int|
            0 <= i < s.len() implies w.grid[last_row_start() + i] == (ScreenChar {
            ascii_char: sanitize_spec(s[i]),
            color_code: v.style,
        }) by {
            if i < s.len() - 1 {
                assert(s0[i] == s[i]);
                assert(last_row_start() + i != last_row_start() + w0.column);
            } else {
                assert(s[i] == s.last());
            }
        }
    }
}

/// Writing eighty-one non-newline bytes from column zero scrolls
/// exactly once: the first eighty bytes, which filled the last row,
/// move up one row, the eighty-first byte lands at the start of the
/// last row, and the rest of the last row is blank.
pub proof fn lemma_wrap_scrolls_once(v: WriterView, s: Seq<u8>)
    requires
        v.wf(),
        v.column == 0,
        s.len() == BUFFER_WIDTH + 1,
        forall|i: int| 0 <= i < s.len() ==> s[i] != NEWLINE,
    ensures
        ({
            let w = write_string_spec(v, s);
            &&& w.wf()
            &&& w.column == 1
            &&& w.style == v.style
            &&& w.grid[last_row_start()] == (ScreenChar {
                ascii_char: sanitize_spec(s[BUFFER_WIDTH as int]),
                color_code: v.style,
            })
            &&& forall|c: int|
                0 <= c < BUFFER_WIDTH ==> w.grid[row_start(BUFFER_HEIGHT - 2) + c] == (ScreenChar {
                    ascii_char: sanitize_spec(s[c]),
                    color_code: v.style,
                })
            &&& forall|j: int|
                last_row_start() < j < w.grid.len() ==> w.grid[j] == blank_cell(v.style)
        }),
{
    let s0 = s.drop_last();
    lemma_write_line(v, s0);
    let w0 = write_string_spec(v, s0);
    let b = sanitize_spec(s.last());
    let w = write_string_spec(v, s);
    assert(b != NEWLINE);
    assert(w == write_byte_spec(w0, b));
    assert(w0.column == BUFFER_WIDTH);
    assert forall|c: int|
        0 <= c < BUFFER_WIDTH implies w.grid[row_start(BUFFER_HEIGHT - 2) + c] == (ScreenChar {
        ascii_char: sanitize_spec(s[c]),
        color_code: v.style,
    }) by {
        assert(row_start(BUFFER_HEIGHT - 2) + c + BUFFER_WIDTH == last_row_start() + c);
        assert(s0[c] == s[c]);
        assert(w0.grid[last_row_start() + c] == (ScreenChar {
            ascii_char: sanitize_spec(s[c]),
            color_code: v.style,
        }));
    }
}

/// A newline always resets the cursor to column zero and scrolls once,
/// whatever the current column.
pub proof fn lemma_newline_resets(v: WriterView)
    ensures
        write_byte_spec(v, NEWLINE) == (WriterView {
            column: 0,
            style: v.style,
            grid: scroll_spec(v.grid, v.style),
        }),
{
}

/// A scroll moves every row but the top one place up and clears the
/// last row to spaces in the current style, so the relative order of
/// the surviving rows is kept.
pub proof fn lemma_scroll_preserves_row_order(
    grid: Seq<ScreenChar>,
    style: ColorCode,
    r: int,
    c: int,
)
    requires
        grid.len() == BUFFER_HEIGHT * BUFFER_WIDTH,
        1 <= r < BUFFER_HEIGHT,
        0 <= c < BUFFER_WIDTH,
    ensures
        scroll_spec(grid, style)[row_start(r - 1) + c] == grid[row_start(r) + c],
        scroll_spec(grid, style)[last_row_start() + c] == blank_cell(style),
{
    assert(row_start(r - 1) + c + BUFFER_WIDTH == row_start(r) + c);
}

/// Clearing a row twice in a row gives the same grid as clearing it
/// once.
pub proof fn lemma_clear_row_idempotent(grid: Seq<ScreenChar>, row: int, style: ColorCode)
    ensures
        clear_row_spec(clear_row_spec(grid, row, style), row, style) == clear_row_spec(
            grid,
            row,
            style,
        ),
{
    assert(clear_row_spec(clear_row_spec(grid, row, style), row, style) =~= clear_row_spec(
        grid,
        row,
        style,
    ));
}

} // verus!
