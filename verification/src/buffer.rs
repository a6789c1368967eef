use crate::color::ColorCode;
use vstd::prelude::*;

verus! {

/// Number of rows of the text grid.
pub const BUFFER_HEIGHT: usize = 25;

/// Number of columns of the text grid.
pub const BUFFER_WIDTH: usize = 80;

/// One cell of display memory: a character byte and its style byte.
#[derive(Debug, Clone, Copy, PartialEq, Eq, Structural)]
pub struct ScreenChar {
    pub ascii_char: u8,
    pub color_code: ColorCode,
}

/// Flat index of the cell at `(row, column)`: the grid is stored row by
/// row, `BUFFER_WIDTH` cells per row.
pub fn get_buffer_index(row: usize, column: usize) -> (r: usize)
    requires
        row < BUFFER_HEIGHT,
        column < BUFFER_WIDTH,
    ensures
        r == row * BUFFER_WIDTH + column,
        r < BUFFER_HEIGHT * BUFFER_WIDTH,
{
    row * BUFFER_WIDTH + column
}

/// The 80x25 cell grid. Abstractly it is the sequence of its cells in
/// row-major order.
///
/// On real hardware this grid is a view onto a fixed memory-mapped
/// device region; the front end that owns such a mapping mirrors this
/// grid into it. The driver logic itself only ever goes through
/// `read` and `write`.
pub struct Buffer {
    chars: Vec<ScreenChar>,
}

impl View for Buffer {
    type V = Seq<ScreenChar>;

    closed spec fn view(&self) -> Seq<ScreenChar> {
        self.chars@
    }
}

impl Buffer {
    /// A buffer is well formed when it holds exactly one cell per grid
    /// position.
    pub open spec fn wf(&self) -> bool {
        self@.len() == BUFFER_HEIGHT * BUFFER_WIDTH
    }

    /// A fresh grid with every cell equal to `fill`.
    pub fn new(fill: ScreenChar) -> (r: Buffer)
        ensures
            r.wf(),
            r@ =~= Seq::new((BUFFER_HEIGHT * BUFFER_WIDTH) as nat, |i: int| fill),
    {
        let mut chars: Vec<ScreenChar> = Vec::new();
        let n = BUFFER_HEIGHT * BUFFER_WIDTH;
        for k in 0..n
            invariant
                chars@.len() == k,
                forall|i: int| 0 <= i < k ==> chars@[i] == fill,
        {
            chars.push(fill);
        }
        Buffer { chars }
    }

    /// Reads the cell at `(row, column)`.
    pub fn read(&self, row: usize, column: usize) -> (r: ScreenChar)
        requires
            self.wf(),
            row < BUFFER_HEIGHT,
            column < BUFFER_WIDTH,
        ensures
            r == self@[row * BUFFER_WIDTH + column],
    {
        let i = get_buffer_index(row, column);
        self.chars[i]
    }

    /// Writes `cell` at `(row, column)`.
    pub fn write(&mut self, row: usize, column: usize, cell: ScreenChar)
        requires
            old(self).wf(),
            row < BUFFER_HEIGHT,
            column < BUFFER_WIDTH,
        ensures
            final(self).wf(),
            final(self)@ == old(self)@.update(row * BUFFER_WIDTH + column, cell),
    {
        let i = get_buffer_index(row, column);
        self.chars[i] = cell;
    }
}

} // verus!
