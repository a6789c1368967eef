use crate::buffer::{get_buffer_index, Buffer, ScreenChar, BUFFER_HEIGHT, BUFFER_WIDTH};
use crate::color::ColorCode;
use vstd::prelude::*;
use vstd::string::StringSliceAdditionalSpecFns;

verus! {

/// The byte that starts a new line.
pub const NEWLINE: u8 = 0x0a;

/// The glyph substituted for a byte outside the printable range.
pub const UNPRINTABLE: u8 = 0xfe;

/// First byte above the printable range.
pub const UNPRINTABLE_BOUND: u8 = 0x7e;

/// The character byte of a blank cell.
pub const SPACE: u8 = 0x20;

/// Abstract state of a writer: cursor column, current style, and the
/// grid contents in row-major order.
#[verifier::ext_equal]
pub ghost struct WriterView {
    pub column: nat,
    pub style: ColorCode,
    pub grid: Seq<ScreenChar>,
}

impl WriterView {
    /// A writer state is well formed when the cursor is at or before
    /// the line end and the grid holds one cell per position.
    pub open spec fn wf(self) -> bool {
        self.column <= BUFFER_WIDTH && self.grid.len() == BUFFER_HEIGHT * BUFFER_WIDTH
    }
}

/// Flat index where row `row` begins.
pub open spec fn row_start(row: int) -> int {
    row * BUFFER_WIDTH
}

/// Flat index where the last row -- the row new text is composed on --
/// begins.
pub open spec fn last_row_start() -> int {
    row_start(BUFFER_HEIGHT - 1)
}

/// A space cell in the given style.
pub open spec fn blank_cell(style: ColorCode) -> ScreenChar {
    ScreenChar { ascii_char: SPACE, color_code: style }
}

/// The grid after a scroll: every row moves up one place, the top row
/// is discarded, and the last row is cleared to spaces in `style`.
pub open spec fn scroll_spec(grid: Seq<ScreenChar>, style: ColorCode) -> Seq<ScreenChar> {
    Seq::new(
        grid.len(),
        |i: int|
            if i + BUFFER_WIDTH < grid.len() {
                grid[i + BUFFER_WIDTH]
            } else {
                blank_cell(style)
            },
    )
}

/// The grid after row `row` is cleared to spaces in `style`.
pub open spec fn clear_row_spec(grid: Seq<ScreenChar>, row: int, style: ColorCode) -> Seq<
    ScreenChar,
> {
    Seq::new(
        grid.len(),
        |i: int|
            if row_start(row) <= i < row_start(row) + BUFFER_WIDTH {
                blank_cell(style)
            } else {
                grid[i]
            },
    )
}

/// One byte forwarded to the writer: a newline scrolls and resets the
/// cursor; any other byte is placed on the last row at the cursor,
/// after a scroll when the line is already full.
pub open spec fn write_byte_spec(v: WriterView, byte: u8) -> WriterView {
    if byte == NEWLINE {
        WriterView { column: 0, style: v.style, grid: scroll_spec(v.grid, v.style) }
    } else if v.column >= BUFFER_WIDTH {
        WriterView {
            column: 1,
            style: v.style,
            grid: scroll_spec(v.grid, v.style).update(
                last_row_start(),
                ScreenChar { ascii_char: byte, color_code: v.style },
            ),
        }
    } else {
        WriterView {
            column: (v.column + 1) as nat,
            style: v.style,
            grid: v.grid.update(
                last_row_start() + v.column,
                ScreenChar { ascii_char: byte, color_code: v.style },
            ),
        }
    }
}

/// Whether the hardware renders `byte` as itself.
pub open spec fn printable(byte: u8) -> bool {
    SPACE <= byte < UNPRINTABLE_BOUND
}

/// What a string write forwards for `byte`: printable bytes and
/// newlines pass unchanged, everything else becomes the unprintable
/// glyph.
pub open spec fn sanitize_spec(byte: u8) -> u8 {
    if printable(byte) || byte == NEWLINE {
        byte
    } else {
        UNPRINTABLE
    }
}

/// The writer state after the byte sequence `s` is written through
/// `write_string`: each byte sanitized and forwarded in order.
pub open spec fn write_string_spec(v: WriterView, s: Seq<u8>) -> WriterView
    decreases s.len(),
{
    if s.len() == 0 {
        v
    } else {
        write_byte_spec(write_string_spec(v, s.drop_last()), sanitize_spec(s.last()))
    }
}

/// The frame-buffer writer: the cell grid, the cursor column on the
/// last row, and the current style.
pub struct Writer {
    column_position: usize,
    color_code: ColorCode,
    buffer: Buffer,
}

impl View for Writer {
    type V = WriterView;

    closed spec fn view(&self) -> WriterView {
        WriterView {
            column: self.column_position as nat,
            style: self.color_code,
            grid: self.buffer@,
        }
    }
}

impl Writer {
    /// A writer is well formed when its abstract state is.
    pub open spec fn wf(&self) -> bool {
        self@.wf()
    }

    /// A writer over a blank grid in the given style, cursor at column
    /// zero.
    pub fn new(color_code: ColorCode) -> (r: Writer)
        ensures
            r.wf(),
            r@.column == 0,
            r@.style == color_code,
            r@.grid =~= Seq::new(
                (BUFFER_HEIGHT * BUFFER_WIDTH) as nat,
                |i: int| blank_cell(color_code),
            ),
    {
        Writer {
            column_position: 0,
            color_code,
            buffer: Buffer::new(ScreenChar { ascii_char: SPACE, color_code }),
        }
    }

    /// The current cursor column.
    pub fn column(&self) -> (r: usize)
        ensures
            r == self@.column,
    {
        self.column_position
    }

    /// The cell at `(row, column)` of the grid.
    pub fn cell_at(&self, row: usize, column: usize) -> (r: ScreenChar)
        requires
            self.wf(),
            row < BUFFER_HEIGHT,
            column < BUFFER_WIDTH,
        ensures
            r == self@.grid[row_start(row as int) + column],
    {
        self.buffer.read(row, column)
    }

    /// Clears row `row` to spaces in the current style.
    pub fn clear_row(&mut self, row: usize)
        requires
            old(self).wf(),
            row < BUFFER_HEIGHT,
        ensures
            final(self).wf(),
            final(self)@.grid == clear_row_spec(old(self)@.grid, row as int, old(self)@.style),
            final(self)@.column == old(self)@.column,
            final(self)@.style == old(self)@.style,
    {
        let ghost g0: Seq<ScreenChar> = self.buffer@;
        let ghost style: ColorCode = self.color_code;
        for column in 0..BUFFER_WIDTH
            invariant
                self.wf(),
                row < BUFFER_HEIGHT,
                self.color_code == style,
                self.column_position == old(self).column_position,
                self.buffer@.len() == g0.len(),
                forall|i: int|
                    row_start(row as int) <= i < row_start(row as int) + column
                        ==> self.buffer@[i] == blank_cell(style),
                forall|i: int|
                    0 <= i < g0.len() && !(row_start(row as int) <= i < row_start(row as int)
                        + column) ==> self.buffer@[i] == g0[i],
        {
            let cell = ScreenChar { ascii_char: SPACE, color_code: self.color_code };
            self.buffer.write(row, column, cell);
        }
        proof {
            assert(self.buffer@ =~= clear_row_spec(g0, row as int, style));
        }
    }

    /// Scrolls the grid one row up, clears the last row, and resets the
    /// cursor to column zero.
    pub fn newline(&mut self)
        requires
            old(self).wf(),
        ensures
            final(self).wf(),
            final(self)@.column == 0,
            final(self)@.style == old(self)@.style,
            final(self)@.grid == scroll_spec(old(self)@.grid, old(self)@.style),
    {
        let ghost g0: Seq<ScreenChar> = self.buffer@;
        let ghost style: ColorCode = self.color_code;
        for row in 1..BUFFER_HEIGHT
            invariant
                self.wf(),
                self.color_code == style,
                self.buffer@.len() == g0.len(),
                g0.len() == BUFFER_HEIGHT * BUFFER_WIDTH,
                forall|i: int|
                    0 <= i < row_start(row - 1) ==> self.buffer@[i] == g0[i + BUFFER_WIDTH],
                forall|i: int|
                    row_start(row - 1) <= i < g0.len() ==> self.buffer@[i] == g0[i],
        {
            for column in 0..BUFFER_WIDTH
                invariant
                    1 <= row < BUFFER_HEIGHT,
                    self.wf(),
                    self.color_code == style,
                    self.buffer@.len() == g0.len(),
                    g0.len() == BUFFER_HEIGHT * BUFFER_WIDTH,
                    forall|i: int|
                        0 <= i < row_start(row - 1) + column ==> self.buffer@[i] == g0[i
                            + BUFFER_WIDTH],
                    forall|i: int|
                        row_start(row - 1) + column <= i < g0.len() ==> self.buffer@[i] == g0[i],
            {
                let ch = self.buffer.read(row, column);
                proof {
                    assert(row * BUFFER_WIDTH + column == row_start(row - 1) + column
                        + BUFFER_WIDTH);
                }
                self.buffer.write(row - 1, column, ch);
            }
        }
        self.clear_row(BUFFER_HEIGHT - 1);
        self.column_position = 0;
        proof {
            assert(self.buffer@ =~= scroll_spec(g0, style));
        }
    }

    /// Writes one byte: a newline scrolls; any other byte is placed at
    /// the cursor on the last row, after a scroll when the line is
    /// already full.
    pub fn write_byte(&mut self, byte: u8)
        requires
            old(self).wf(),
        ensures
            final(self).wf(),
            final(self)@ == write_byte_spec(old(self)@, byte),
    {
        if byte == NEWLINE {
            self.newline();
            proof {
                assert(self@ =~= write_byte_spec(old(self)@, byte));
            }
        } else {
            if self.column_position >= BUFFER_WIDTH {
                self.newline();
            }
            let last_row = BUFFER_HEIGHT - 1;
            let cell = ScreenChar { ascii_char: byte, color_code: self.color_code };
            self.buffer.write(last_row, self.column_position, cell);
            self.column_position = self.column_position + 1;
            proof {
                assert(self@ =~= write_byte_spec(old(self)@, byte));
            }
        }
    }

    /// Writes every byte of `bytes` in order, sanitized: printable
    /// bytes and newlines go through unchanged, every other byte as
    /// the unprintable glyph.
    pub fn write_bytes(&mut self, bytes: &[u8])
        requires
            old(self).wf(),
        ensures
            final(self).wf(),
            final(self)@ == write_string_spec(old(self)@, bytes@),
    {
        let ghost v0: WriterView = self@;
        let n = bytes.len();
        for k in 0..n
            invariant
                self.wf(),
                n == bytes@.len(),
                self@ == write_string_spec(v0, bytes@.subrange(0, k as int)),
        {
            let b = bytes[k];
            let ghost prefix: Seq<u8> = bytes@.subrange(0, k as int);
            let ghost step: Seq<u8> = bytes@.subrange(0, k + 1);
            proof {
                assert(step.drop_last() =~= prefix);
                assert(step.last() == b);
            }
            if (SPACE <= b && b < UNPRINTABLE_BOUND) || b == NEWLINE {
                self.write_byte(b);
            } else {
                self.write_byte(UNPRINTABLE);
            }
        }
        proof {
            assert(bytes@.subrange(0, n as int) =~= bytes@);
        }
    }

    /// Writes a string: its UTF-8 bytes in order, each sanitized as in
    /// `write_bytes`.
    pub fn write_string(&mut self, string: &str)
        requires
            old(self).wf(),
        ensures
            final(self).wf(),
            final(self)@ == write_string_spec(old(self)@, string.spec_bytes()),
    {
        self.write_bytes(string.as_bytes());
    }
}

/// Writes the fixed greeting used to show the driver is alive.
pub fn print_something(writer: &mut Writer)
    requires
        old(writer).wf(),
    ensures
        final(writer).wf(),
        final(writer)@ == write_string_spec(
            old(writer)@,
            "Hello, world!\n\nHello Sailor!".spec_bytes(),
        ),
{
    writer.write_string("Hello, world!\n\nHello Sailor!");
}

} // verus!
