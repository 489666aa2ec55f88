//! The text-mode output sink model.

use operating_system::vga_buffer::{Color, ColorCode, Writer, TEXT_BUFFER_WIDTH};

fn row_text(writer: &Writer, row: usize) -> String {
    writer.buffer.chars[row]
        .iter()
        .map(|c| c.ascii_character as char)
        .collect::<String>()
        .trim_end()
        .to_string()
}

#[test]
fn color_code_packs_background_into_high_nibble() {
    assert_eq!(ColorCode::new(Color::Yellow, Color::Black).0, 0x0e);
    assert_eq!(ColorCode::new(Color::White, Color::Blue).0, 0x1f);
    assert_eq!(ColorCode::new(Color::Black, Color::Black).0, 0x00);
    assert_eq!(ColorCode::new(Color::LightGray, Color::Red).0, 0x47);
}

#[test]
fn fresh_writer_is_blank() {
    let writer = Writer::new(ColorCode::new(Color::Yellow, Color::Black));
    assert_eq!(writer.column_position, 0);
    for row in 0..25 {
        for col in 0..80 {
            assert_eq!(writer.buffer.chars[row][col].ascii_character, b' ');
        }
    }
}

#[test]
fn write_byte_lands_on_the_bottom_row() {
    let mut writer = Writer::new(ColorCode::new(Color::Yellow, Color::Black));
    writer.write_byte(b'a');
    assert_eq!(writer.buffer.chars[24][0].ascii_character, b'a');
    assert_eq!(writer.column_position, 1);
}

#[test]
fn newline_shifts_rows_up_and_blanks_the_bottom() {
    let mut writer = Writer::new(ColorCode::new(Color::Yellow, Color::Black));
    writer.write_byte(b'a');
    writer.write_byte(b'\n');
    assert_eq!(writer.buffer.chars[23][0].ascii_character, b'a');
    assert_eq!(writer.buffer.chars[24][0].ascii_character, b' ');
    assert_eq!(writer.column_position, 0);
}

#[test]
fn full_row_wraps_before_the_next_byte() {
    let mut writer = Writer::new(ColorCode::new(Color::Yellow, Color::Black));
    for _ in 0..TEXT_BUFFER_WIDTH {
        writer.write_byte(b'x');
    }
    assert_eq!(writer.column_position, 80);
    writer.write_byte(b'y');
    assert_eq!(writer.column_position, 1);
    assert_eq!(writer.buffer.chars[23][79].ascii_character, b'x');
    assert_eq!(writer.buffer.chars[24][0].ascii_character, b'y');
}

#[test]
fn write_string_prints_printable_text() {
    let mut writer = Writer::new(ColorCode::new(Color::Yellow, Color::Black));
    writer.write_string("Hello, World");
    assert_eq!(row_text(&writer, 24), "Hello, World");
    assert_eq!(writer.column_position, 12);
}

#[test]
fn write_string_replaces_unprintable_bytes() {
    let mut writer = Writer::new(ColorCode::new(Color::Yellow, Color::Black));
    writer.write_string("a\tb");
    assert_eq!(writer.buffer.chars[24][0].ascii_character, b'a');
    assert_eq!(writer.buffer.chars[24][1].ascii_character, 0xfe);
    assert_eq!(writer.buffer.chars[24][2].ascii_character, b'b');
}

#[test]
fn write_string_keeps_the_color_attribute() {
    let code = ColorCode::new(Color::LightGreen, Color::Blue);
    let mut writer = Writer::new(code);
    writer.write_string("ok");
    assert_eq!(writer.buffer.chars[24][0].color_code, code);
    assert_eq!(writer.buffer.chars[24][1].color_code, code);
}

#[test]
fn clear_row_blanks_exactly_one_row() {
    let mut writer = Writer::new(ColorCode::new(Color::Yellow, Color::Black));
    writer.write_string("one\ntwo");
    assert_eq!(row_text(&writer, 23), "one");
    writer.clear_row(23);
    assert_eq!(row_text(&writer, 23), "");
    assert_eq!(row_text(&writer, 24), "two");
}

#[test]
fn write_hex_prints_the_full_width_form() {
    let mut writer = Writer::new(ColorCode::new(Color::Yellow, Color::Black));
    writer.write_hex(0x1234);
    assert_eq!(row_text(&writer, 24), "0x0000000000001234");

    let mut writer = Writer::new(ColorCode::new(Color::Yellow, Color::Black));
    writer.write_hex(0xdeadbeef01020304);
    assert_eq!(row_text(&writer, 24), "0xdeadbeef01020304");
}

#[test]
fn many_short_lines_scroll_safely() {
    let mut writer = Writer::new(ColorCode::new(Color::Yellow, Color::Black));
    for _ in 0..200 {
        writer.write_string("short line output\n");
    }
    assert_eq!(row_text(&writer, 24), "");
    for row in 0..24 {
        assert_eq!(row_text(&writer, row), "short line output");
    }
}

#[test]
fn single_line_lands_above_the_writable_row() {
    let mut writer = Writer::new(ColorCode::new(Color::Yellow, Color::Black));
    let s = "some test string that fits on a single line";
    writer.write_string("\n");
    writer.write_string(s);
    writer.write_string("\n");
    for (i, c) in s.chars().enumerate() {
        assert_eq!(writer.buffer.chars[23][i].ascii_character as char, c);
    }
}

#[test]
fn long_input_overflows_across_rows() {
    let mut writer = Writer::new(ColorCode::new(Color::Yellow, Color::Black));
    let input = "x".repeat(100);
    writer.write_string(&input);
    writer.write_string("\n");
    assert_eq!(row_text(&writer, 22), "x".repeat(80));
    assert_eq!(row_text(&writer, 23), "x".repeat(20));
    assert_eq!(row_text(&writer, 24), "");
}

#[test]
fn write_char_replaces_non_ascii_with_one_glyph_per_byte() {
    let mut writer = Writer::new(ColorCode::new(Color::Yellow, Color::Black));
    writer.write_char('A');
    writer.write_char('\u{e9}');
    assert_eq!(writer.buffer.chars[24][0].ascii_character, b'A');
    assert_eq!(writer.buffer.chars[24][1].ascii_character, 0xfe);
    assert_eq!(writer.buffer.chars[24][2].ascii_character, 0xfe);
    assert_eq!(writer.column_position, 3);
}
