use vga_buffer::{
    get_buffer_index, print_something, Color, ColorCode, ScreenChar, Writer, BUFFER_HEIGHT,
    BUFFER_WIDTH,
};

fn default_style() -> ColorCode {
    ColorCode::new(Color::Yellow, Color::Black)
}

fn fresh_writer() -> Writer {
    Writer::new(default_style())
}

fn row_bytes(w: &Writer, row: usize) -> Vec<u8> {
    let mut out: Vec<u8> = Vec::new();
    for column in 0..BUFFER_WIDTH {
        out.push(w.cell_at(row, column).ascii_char);
    }
    out
}

fn grid_cells(w: &Writer) -> Vec<ScreenChar> {
    let mut out: Vec<ScreenChar> = Vec::new();
    for row in 0..BUFFER_HEIGHT {
        for column in 0..BUFFER_WIDTH {
            out.push(w.cell_at(row, column));
        }
    }
    out
}

fn blank_row() -> Vec<u8> {
    let mut out: Vec<u8> = Vec::new();
    for _ in 0..BUFFER_WIDTH {
        out.push(b' ');
    }
    out
}

#[test]
fn color_code_packs_nibbles() {
    assert_eq!(ColorCode::new(Color::Yellow, Color::Black).0, 0x0e);
    assert_eq!(ColorCode::new(Color::White, Color::Blue).0, 0x1f);
    assert_eq!(ColorCode::new(Color::Black, Color::Black).0, 0x00);
    assert_eq!(ColorCode::new(Color::LightGray, Color::Red).0, 0x47);
}

#[test]
fn buffer_index_is_row_major() {
    assert_eq!(get_buffer_index(0, 0), 0);
    assert_eq!(get_buffer_index(0, 79), 79);
    assert_eq!(get_buffer_index(1, 0), 80);
    assert_eq!(get_buffer_index(24, 79), 1999);
}

#[test]
fn new_writer_is_blank() {
    let style = default_style();
    let w = Writer::new(style);
    assert_eq!(w.column(), 0);
    for row in 0..BUFFER_HEIGHT {
        for column in 0..BUFFER_WIDTH {
            let cell = w.cell_at(row, column);
            assert_eq!(cell.ascii_char, b' ');
            assert_eq!(cell.color_code, style);
        }
    }
}

#[test]
fn printable_bytes_pass_unchanged() {
    let style = default_style();
    let mut w = fresh_writer();
    w.write_bytes(&[0x20, b'A', 0x7d]);
    assert_eq!(w.cell_at(24, 0).ascii_char, 0x20);
    assert_eq!(w.cell_at(24, 1).ascii_char, b'A');
    assert_eq!(w.cell_at(24, 2).ascii_char, 0x7d);
    assert_eq!(w.cell_at(24, 1).color_code, style);
}

#[test]
fn unprintable_bytes_become_placeholder() {
    let mut w = fresh_writer();
    w.write_bytes(&[0x1f, 0x7e, 0x00, 0xff]);
    for column in 0..4 {
        assert_eq!(w.cell_at(24, column).ascii_char, 0xfe);
    }
    assert_eq!(w.column(), 4);
}

#[test]
fn control_byte_in_string_becomes_placeholder() {
    let style = default_style();
    let mut w = fresh_writer();
    w.write_string("a\u{1}b");
    assert_eq!(w.cell_at(24, 0).ascii_char, b'a');
    assert_eq!(w.cell_at(24, 1).ascii_char, 0xfe);
    assert_eq!(w.cell_at(24, 1).color_code, style);
    assert_eq!(w.cell_at(24, 2).ascii_char, b'b');
}

#[test]
fn short_line_moves_cursor_by_length() {
    let mut w = fresh_writer();
    w.write_string("hello");
    assert_eq!(w.column(), 5);
    let row = row_bytes(&w, 24);
    assert_eq!(&row[0..5], b"hello");
    for column in 5..BUFFER_WIDTH {
        assert_eq!(row[column], b' ');
    }
    for r in 0..24 {
        assert_eq!(row_bytes(&w, r), blank_row());
    }
}

#[test]
fn eighty_first_byte_scrolls_once() {
    let mut w = fresh_writer();
    let line = "x".repeat(80);
    w.write_string(&line);
    assert_eq!(w.column(), 80);
    w.write_string("y");
    assert_eq!(w.column(), 1);
    assert_eq!(w.cell_at(24, 0).ascii_char, b'y');
    for column in 1..BUFFER_WIDTH {
        assert_eq!(w.cell_at(24, column).ascii_char, b' ');
    }
    for column in 0..BUFFER_WIDTH {
        assert_eq!(w.cell_at(23, column).ascii_char, b'x');
    }
}

#[test]
fn newline_resets_column_and_scrolls() {
    let mut w = fresh_writer();
    w.write_string("abc");
    assert_eq!(w.column(), 3);
    w.write_byte(b'\n');
    assert_eq!(w.column(), 0);
    let moved = row_bytes(&w, 23);
    assert_eq!(&moved[0..3], b"abc");
    assert_eq!(row_bytes(&w, 24), blank_row());
}

#[test]
fn newline_on_full_line_scrolls_once() {
    let mut w = fresh_writer();
    let line = "x".repeat(80);
    w.write_string(&line);
    w.write_byte(b'\n');
    assert_eq!(w.column(), 0);
    for column in 0..BUFFER_WIDTH {
        assert_eq!(w.cell_at(23, column).ascii_char, b'x');
        assert_eq!(w.cell_at(24, column).ascii_char, b' ');
        assert_eq!(w.cell_at(22, column).ascii_char, b' ');
    }
}

#[test]
fn scroll_keeps_row_order() {
    let mut w = fresh_writer();
    w.write_string("A\nB\n");
    assert_eq!(w.cell_at(22, 0).ascii_char, b'A');
    assert_eq!(w.cell_at(23, 0).ascii_char, b'B');
    assert_eq!(row_bytes(&w, 24), blank_row());
}

#[test]
fn clear_row_is_idempotent() {
    let mut w = fresh_writer();
    w.write_string("some text\nmore text\n");
    w.clear_row(23);
    let once = grid_cells(&w);
    w.clear_row(23);
    let twice = grid_cells(&w);
    assert_eq!(once, twice);
    for column in 0..BUFFER_WIDTH {
        assert_eq!(w.cell_at(23, column).ascii_char, b' ');
    }
}

#[test]
fn hi_then_newline_scenario() {
    let style = default_style();
    let mut w = Writer::new(style);
    w.write_string("Hi\n");
    assert_eq!(w.column(), 0);
    assert_eq!(row_bytes(&w, 24), blank_row());
    let row = row_bytes(&w, 23);
    assert_eq!(&row[0..2], b"Hi");
    for column in 2..BUFFER_WIDTH {
        assert_eq!(row[column], b' ');
    }
    for column in 0..BUFFER_WIDTH {
        assert_eq!(w.cell_at(23, column).color_code, style);
    }
}

#[test]
fn print_something_writes_greeting() {
    let mut w = fresh_writer();
    print_something(&mut w);
    assert_eq!(w.column(), 13);
    let top = row_bytes(&w, 22);
    assert_eq!(&top[0..13], b"Hello, world!");
    assert_eq!(row_bytes(&w, 23), blank_row());
    let bottom = row_bytes(&w, 24);
    assert_eq!(&bottom[0..13], b"Hello Sailor!");
    for column in 13..BUFFER_WIDTH {
        assert_eq!(top[column], b' ');
        assert_eq!(bottom[column], b' ');
    }
}

#[test]
fn write_byte_places_raw_byte() {
    let style = default_style();
    let mut w = fresh_writer();
    w.write_byte(0x01);
    assert_eq!(w.cell_at(24, 0), ScreenChar { ascii_char: 0x01, color_code: style });
    assert_eq!(w.column(), 1);
}
