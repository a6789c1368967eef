//! A text-mode display driver core: an 80x25 grid of two-byte character
//! cells, a cursor that appends on the last row, byte sanitizing,
//! line wrap and scroll-on-overflow.

mod buffer;
mod color;
mod laws;
mod writer;

pub use buffer::get_buffer_index;
pub use buffer::Buffer;
pub use buffer::ScreenChar;
pub use buffer::BUFFER_HEIGHT;
pub use buffer::BUFFER_WIDTH;
pub use color::Color;
pub use color::ColorCode;
pub use laws::lemma_byte_placed;
pub use laws::lemma_clear_row_idempotent;
pub use laws::lemma_newline_resets;
pub use laws::lemma_scroll_preserves_row_order;
pub use laws::lemma_wrap_scrolls_once;
pub use laws::lemma_write_line;
pub use writer::blank_cell;
pub use writer::clear_row_spec;
pub use writer::last_row_start;
pub use writer::print_something;
pub use writer::printable;
pub use writer::row_start;
pub use writer::sanitize_spec;
pub use writer::scroll_spec;
pub use writer::write_byte_spec;
pub use writer::write_string_spec;
pub use writer::Writer;
pub use writer::WriterView;
pub use writer::NEWLINE;
pub use writer::SPACE;
pub use writer::UNPRINTABLE;
pub use writer::UNPRINTABLE_BOUND;
