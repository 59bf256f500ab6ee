use vga_buffer::cell::Buffer;
use vga_buffer::cell::ScreenChar;
use vga_buffer::cell::BUFFER_HEIGHT;
use vga_buffer::cell::BUFFER_WIDTH;
use vga_buffer::colour::ColourCode;
use vga_buffer::colour::ConsoleColour;
use vga_buffer::writer::Writer;
use volatile::Volatile;

const BOTTOM: usize = BUFFER_HEIGHT - 1;
const WHITE_ON_BLACK: ColourCode = ColourCode(0x0f);

/// A grid in ordinary memory whose every cell holds the given two bytes.
fn grid_filled_with(bytes: [u8; 2]) -> &'static mut Buffer {
    let grid: Buffer = core::array::from_fn(|_| core::array::from_fn(|_| Volatile::new(bytes)));
    Box::leak(Box::new(grid))
}

/// A white-on-black writer over a grid of 'x' cells in attribute 0x70.
fn writer_over_marked_grid() -> Writer {
    Writer::new(ConsoleColour::White, ConsoleColour::Black, grid_filled_with([b'x', 0x70]))
}

fn white_on_black(glyph: u8) -> ScreenChar {
    ScreenChar { char: glyph, colour_code: WHITE_ON_BLACK }
}

fn marked() -> ScreenChar {
    ScreenChar { char: b'x', colour_code: ColourCode(0x70) }
}

fn glyph_at(writer: &Writer, row: usize, column: usize) -> u8 {
    writer.cell(row, column).unwrap().char
}

fn attribute_at(writer: &Writer, row: usize, column: usize) -> u8 {
    writer.cell(row, column).unwrap().colour_code.0
}

fn row_text(writer: &Writer, row: usize) -> Vec<u8> {
    (0..BUFFER_WIDTH).map(|column| glyph_at(writer, row, column)).collect()
}

#[test]
fn grid_is_80_by_25() {
    assert_eq!(BUFFER_WIDTH, 80);
    assert_eq!(BUFFER_HEIGHT, 25);
    assert_eq!(core::mem::size_of::<Buffer>(), 80 * 25 * 2);
}

#[test]
fn new_writer_starts_at_column_0_and_leaves_the_grid_alone() {
    let writer = writer_over_marked_grid();
    assert_eq!(writer.column(), 0);
    assert_eq!(writer.colour_code(), WHITE_ON_BLACK);
    for row in 0..BUFFER_HEIGHT {
        for column in 0..BUFFER_WIDTH {
            assert_eq!(writer.cell(row, column), Some(marked()));
        }
    }
}

#[test]
fn new_writer_packs_its_colours() {
    let writer = Writer::new(ConsoleColour::Yellow, ConsoleColour::Blue, grid_filled_with([0, 0]));
    assert_eq!(writer.colour_code(), ColourCode(0x1e));
}

#[test]
fn cells_are_read_as_glyph_then_attribute() {
    let writer =
        Writer::new(ConsoleColour::White, ConsoleColour::Black, grid_filled_with([b'Z', 0x4e]));
    assert_eq!(
        writer.cell(3, 7),
        Some(ScreenChar { char: b'Z', colour_code: ColourCode(0x4e) })
    );
}

#[test]
fn cells_outside_the_grid_are_none() {
    let writer = writer_over_marked_grid();
    assert_eq!(writer.cell(BUFFER_HEIGHT, 0), None);
    assert_eq!(writer.cell(0, BUFFER_WIDTH), None);
    assert_eq!(writer.cell(usize::MAX, usize::MAX), None);
    assert!(writer.cell(BOTTOM, BUFFER_WIDTH - 1).is_some());
}

#[test]
fn hello_world_lands_on_the_bottom_row() {
    let mut writer = writer_over_marked_grid();
    writer.write_string("Hello World!");
    assert_eq!(writer.column(), 12);
    let text = b"Hello World!";
    for (column, byte) in text.iter().enumerate() {
        assert_eq!(
            writer.cell(BOTTOM, column),
            Some(ScreenChar { char: *byte, colour_code: ColourCode(0x0f) })
        );
    }
    assert_eq!(writer.cell(BOTTOM, 12), Some(marked()));
    for row in 0..BOTTOM {
        for column in 0..BUFFER_WIDTH {
            assert_eq!(writer.cell(row, column), Some(marked()));
        }
    }
}

#[test]
fn non_ascii_byte_becomes_the_placeholder() {
    let mut writer = writer_over_marked_grid();
    writer.write_bytes(&[b'a', 200, b'b']);
    assert_eq!(writer.column(), 3);
    assert_eq!(writer.cell(BOTTOM, 0), Some(white_on_black(b'a')));
    assert_eq!(writer.cell(BOTTOM, 1), Some(white_on_black(0xfe)));
    assert_eq!(writer.cell(BOTTOM, 2), Some(white_on_black(b'b')));
    assert_eq!(writer.cell(BOTTOM, 3), Some(marked()));
    assert_eq!(writer.cell(BOTTOM - 1, 1), Some(marked()));
}

#[test]
fn non_ascii_character_gives_one_placeholder_per_encoded_byte() {
    let mut writer = writer_over_marked_grid();
    writer.write_string("a\u{c8}b\u{20ac}");
    assert_eq!(writer.column(), 7);
    assert_eq!(&row_text(&writer, BOTTOM)[..8], &[b'a', 0xfe, 0xfe, b'b', 0xfe, 0xfe, 0xfe, b'x']);
}

#[test]
fn every_unprintable_byte_is_written_as_0xfe() {
    for byte in 0..=255u8 {
        let mut writer =
            Writer::new(ConsoleColour::LightGreen, ConsoleColour::Red, grid_filled_with([0, 0]));
        writer.write_bytes(&[byte]);
        if byte == b'\n' {
            assert_eq!(writer.column(), 0);
            assert_eq!(
                writer.cell(BOTTOM, 0),
                Some(ScreenChar { char: b' ', colour_code: ColourCode(0x4a) })
            );
        } else {
            let expected = if (0x20..=0x7e).contains(&byte) { byte } else { 0xfe };
            assert_eq!(writer.column(), 1);
            assert_eq!(
                writer.cell(BOTTOM, 0),
                Some(ScreenChar { char: expected, colour_code: ColourCode(0x4a) })
            );
        }
    }
}

#[test]
fn printable_range_ends_are_kept() {
    let mut writer = writer_over_marked_grid();
    writer.write_bytes(&[0x1f, 0x20, 0x7e, 0x7f]);
    assert_eq!(&row_text(&writer, BOTTOM)[..4], &[0xfe, 0x20, 0x7e, 0xfe]);
}

#[test]
fn write_byte_does_not_sanitise() {
    let mut writer = writer_over_marked_grid();
    writer.write_byte(0x01);
    writer.write_byte(200);
    writer.write_byte(0xfe);
    assert_eq!(writer.column(), 3);
    assert_eq!(&row_text(&writer, BOTTOM)[..3], &[0x01, 200, 0xfe]);
    assert_eq!(attribute_at(&writer, BOTTOM, 1), 0x0f);
}

#[test]
fn seventy_nine_printable_bytes_stay_on_one_line() {
    let mut writer = writer_over_marked_grid();
    let text: Vec<u8> = (0..79u8).map(|i| 0x20 + i).collect();
    writer.write_bytes(&text);
    assert_eq!(writer.column(), 79);
    for (column, byte) in text.iter().enumerate() {
        assert_eq!(
            writer.cell(BOTTOM, column),
            Some(ScreenChar { char: *byte, colour_code: WHITE_ON_BLACK })
        );
    }
    assert_eq!(writer.cell(BOTTOM, 79), Some(marked()));
    assert_eq!(writer.cell(BOTTOM - 1, 0), Some(marked()));
}

#[test]
fn empty_text_changes_nothing() {
    let mut writer = writer_over_marked_grid();
    writer.write_string("");
    writer.write_bytes(&[]);
    assert_eq!(writer.column(), 0);
    assert_eq!(writer.cell(BOTTOM, 0), Some(marked()));
}

#[test]
fn full_line_does_not_scroll_until_the_next_byte() {
    let mut writer = writer_over_marked_grid();
    writer.write_bytes(&[b'a'; 80]);
    assert_eq!(writer.column(), 80);
    assert_eq!(row_text(&writer, BOTTOM), vec![b'a'; 80]);
    assert_eq!(row_text(&writer, BOTTOM - 1), vec![b'x'; 80]);
}

#[test]
fn eighty_first_byte_wraps_to_a_new_line() {
    let mut writer = writer_over_marked_grid();
    let mut text: Vec<u8> = (0..80u8).map(|i| b'!' + i).collect();
    text.push(b'Z');
    writer.write_bytes(&text);
    assert_eq!(writer.column(), 1);
    assert_eq!(row_text(&writer, BOTTOM - 1), text[..80].to_vec());
    assert_eq!(glyph_at(&writer, BOTTOM - 1, 79), b'!' + 79);
    assert_eq!(writer.cell(BOTTOM, 0), Some(white_on_black(b'Z')));
    for column in 1..BUFFER_WIDTH {
        assert_eq!(
            writer.cell(BOTTOM, column),
            Some(ScreenChar { char: b' ', colour_code: WHITE_ON_BLACK })
        );
    }
    // exactly one scroll: the marked rows moved up by one and no further
    assert_eq!(row_text(&writer, BOTTOM - 2), vec![b'x'; 80]);
    assert_eq!(attribute_at(&writer, BOTTOM - 2, 0), 0x70);
    assert_eq!(attribute_at(&writer, BOTTOM - 1, 0), 0x0f);
}

#[test]
fn newline_after_a_full_line_scrolls_once() {
    let mut writer = writer_over_marked_grid();
    writer.write_bytes(&[b'a'; 80]);
    writer.write_byte(b'\n');
    assert_eq!(writer.column(), 0);
    assert_eq!(row_text(&writer, BOTTOM - 1), vec![b'a'; 80]);
    assert_eq!(row_text(&writer, BOTTOM), vec![b' '; 80]);
    assert_eq!(row_text(&writer, BOTTOM - 2), vec![b'x'; 80]);
}

#[test]
fn newline_scrolls_a_line_that_is_not_full() {
    let mut writer = writer_over_marked_grid();
    writer.write_string("ab");
    assert_eq!(writer.column(), 2);
    writer.write_string("\n");
    assert_eq!(writer.column(), 0);
    assert_eq!(glyph_at(&writer, BOTTOM - 1, 0), b'a');
    assert_eq!(glyph_at(&writer, BOTTOM - 1, 1), b'b');
    assert_eq!(writer.cell(BOTTOM - 1, 2), Some(marked()));
    for column in 0..BUFFER_WIDTH {
        assert_eq!(
            writer.cell(BOTTOM, column),
            Some(ScreenChar { char: b' ', colour_code: WHITE_ON_BLACK })
        );
    }
}

#[test]
fn newline_byte_scrolls_through_write_byte_too() {
    let mut writer = writer_over_marked_grid();
    writer.write_byte(b'q');
    writer.write_byte(0x0a);
    assert_eq!(writer.column(), 0);
    assert_eq!(glyph_at(&writer, BOTTOM - 1, 0), b'q');
    assert_eq!(row_text(&writer, BOTTOM), vec![b' '; 80]);
}

#[test]
fn lines_stack_upward() {
    let mut writer = writer_over_marked_grid();
    writer.write_string("one\ntwo\nthree");
    assert_eq!(writer.column(), 5);
    assert_eq!(&row_text(&writer, BOTTOM - 2)[..4], b"onex");
    assert_eq!(&row_text(&writer, BOTTOM - 1)[..4], b"two ");
    assert_eq!(&row_text(&writer, BOTTOM)[..6], b"three ");
}

#[test]
fn blank_cells_take_the_active_colours() {
    let mut writer =
        Writer::new(ConsoleColour::Yellow, ConsoleColour::Blue, grid_filled_with([b'x', 0x70]));
    writer.new_line();
    for column in 0..BUFFER_WIDTH {
        assert_eq!(
            writer.cell(BOTTOM, column),
            Some(ScreenChar { char: 0x20, colour_code: ColourCode(0x1e) })
        );
    }
    assert_eq!(writer.cell(BOTTOM - 1, 0), Some(marked()));
}

#[test]
fn clear_row_empties_one_row_only() {
    let mut writer = writer_over_marked_grid();
    writer.write_string("abc");
    writer.clear_row(5);
    assert_eq!(writer.column(), 3);
    for column in 0..BUFFER_WIDTH {
        assert_eq!(
            writer.cell(5, column),
            Some(ScreenChar { char: b' ', colour_code: WHITE_ON_BLACK })
        );
    }
    assert_eq!(writer.cell(4, 0), Some(marked()));
    assert_eq!(writer.cell(6, 79), Some(marked()));
    assert_eq!(&row_text(&writer, BOTTOM)[..4], b"abcx");
    writer.clear_row(0);
    writer.clear_row(BOTTOM);
    assert_eq!(row_text(&writer, 0), vec![b' '; 80]);
    assert_eq!(row_text(&writer, BOTTOM), vec![b' '; 80]);
    assert_eq!(writer.column(), 3);
}

#[test]
fn write_str_of_the_formatting_trait_writes_and_succeeds() {
    let mut writer = writer_over_marked_grid();
    let result = core::fmt::Write::write_str(&mut writer, "ok\u{7f}");
    assert_eq!(result, Ok(()));
    assert_eq!(writer.column(), 3);
    assert_eq!(&row_text(&writer, BOTTOM)[..4], &[b'o', b'k', 0xfe, b'x']);
}

#[test]
fn formatted_text_reaches_the_screen() {
    let mut writer = writer_over_marked_grid();
    let result = core::fmt::Write::write_str(&mut writer, &format!("{}+{}={}", 2, 3, 2 + 3));
    assert_eq!(result, Ok(()));
    assert_eq!(writer.column(), 5);
    assert_eq!(&row_text(&writer, BOTTOM)[..5], b"2+3=5");
}
