use shushos_console::color::{Color, ColorCode};
use shushos_console::vga_buffer::{
    Writer, ASCII_UNKNOWN, BUFFER_ALL_HEIGHT, BUFFER_HEIGHT, BUFFER_WIDTH,
};

fn row_text(w: &Writer, row: usize, len: usize) -> String {
    (0..len)
        .map(|c| w.char_at(row, c).ascii_character as char)
        .collect()
}

fn screen_matches_window(w: &Writer) -> bool {
    (0..BUFFER_HEIGHT).all(|r| {
        (0..BUFFER_WIDTH).all(|c| w.screen_char_at(r, c) == w.char_at(w.row_start() + r, c))
    })
}

#[test]
fn two_lines_land_in_place() {
    let mut w = Writer::new();
    w.write_string("AB\nC");
    assert_eq!(w.char_at(0, 0).ascii_character, b'A');
    assert_eq!(w.char_at(0, 1).ascii_character, b'B');
    assert_eq!(w.char_at(0, 2).ascii_character, b' ');
    assert_eq!(w.char_at(1, 0).ascii_character, b'C');
    assert_eq!(w.row_position(), 1);
    assert_eq!(w.column_position(), 1);
}

#[test]
fn written_cells_carry_the_default_attribute() {
    let mut w = Writer::new();
    w.write_string("x");
    assert_eq!(w.char_at(0, 0).color_code, ColorCode::new(Color::LightGreen, Color::Black));
    assert_eq!(w.color_code().0, 0x0a);
}

#[test]
fn full_screen_of_lines_scrolls_window_by_one() {
    let mut w = Writer::new();
    for i in 0..25 {
        w.write_string(&format!("line {}\n", i));
    }
    assert_eq!(w.row_start(), 1);
    assert_eq!(w.row_position(), 25);
    for r in 0..BUFFER_HEIGHT - 1 {
        let expected = format!("line {}", r + 1);
        let shown: String = (0..expected.len())
            .map(|c| w.screen_char_at(r, c).ascii_character as char)
            .collect();
        assert_eq!(shown, expected);
    }
    for c in 0..BUFFER_WIDTH {
        assert_eq!(w.screen_char_at(BUFFER_HEIGHT - 1, c).ascii_character, b' ');
    }
}

#[test]
fn window_up_at_top_changes_nothing() {
    let mut w = Writer::new();
    w.write_string("hello\nworld");
    let before: Vec<_> = (0..BUFFER_HEIGHT)
        .flat_map(|r| (0..BUFFER_WIDTH).map(move |c| (r, c)))
        .map(|(r, c)| w.screen_char_at(r, c))
        .collect();
    assert_eq!(w.row_start(), 0);
    w.move_window_up();
    assert_eq!(w.row_start(), 0);
    assert_eq!(w.row_position(), 1);
    assert_eq!(w.column_position(), 5);
    let after: Vec<_> = (0..BUFFER_HEIGHT)
        .flat_map(|r| (0..BUFFER_WIDTH).map(move |c| (r, c)))
        .map(|(r, c)| w.screen_char_at(r, c))
        .collect();
    assert_eq!(before, after);
}

#[test]
fn window_down_stops_at_bottom() {
    let mut w = Writer::new();
    for _ in 0..BUFFER_ALL_HEIGHT {
        w.move_window_down();
        assert!(w.row_start() <= BUFFER_ALL_HEIGHT - BUFFER_HEIGHT);
    }
    assert_eq!(w.row_start(), BUFFER_ALL_HEIGHT - BUFFER_HEIGHT);
    w.move_window_down();
    assert_eq!(w.row_start(), BUFFER_ALL_HEIGHT - BUFFER_HEIGHT);
    w.move_window_up();
    assert_eq!(w.row_start(), BUFFER_ALL_HEIGHT - BUFFER_HEIGHT - 1);
    assert!(screen_matches_window(&w));
}

#[test]
fn moving_window_leaves_store_and_cursor() {
    let mut w = Writer::new();
    for i in 0..30 {
        w.write_string(&format!("{}\n", i));
    }
    assert_eq!(w.row_start(), 6);
    w.move_window_up();
    w.move_window_up();
    assert_eq!(w.row_start(), 4);
    assert_eq!(w.row_position(), 30);
    assert_eq!(row_text(&w, 29, 2), "29");
    assert_eq!(w.screen_char_at(0, 0).ascii_character, b'4');
    assert!(screen_matches_window(&w));
}

#[test]
fn render_shows_window_rows() {
    let mut w = Writer::new();
    for i in 0..60 {
        w.write_string(&format!("row {}\n", i));
    }
    assert!(screen_matches_window(&w));
    w.move_window_up();
    assert!(screen_matches_window(&w));
}

#[test]
fn full_row_wraps_before_next_byte() {
    let mut w = Writer::new();
    let line: String = std::iter::repeat('a').take(BUFFER_WIDTH).collect();
    w.write_string(&line);
    assert_eq!(w.row_position(), 0);
    assert_eq!(w.column_position(), BUFFER_WIDTH);
    w.write_byte(b'X');
    assert_eq!(w.row_position(), 1);
    assert_eq!(w.column_position(), 1);
    assert_eq!(w.char_at(1, 0).ascii_character, b'X');
    assert_eq!(w.char_at(0, BUFFER_WIDTH - 1).ascii_character, b'a');
}

#[test]
fn long_text_keeps_column_in_bounds() {
    let mut w = Writer::new();
    let text: String = (0..1000).map(|i| (b'a' + (i % 26) as u8) as char).collect();
    for chunk in text.as_bytes().chunks(7) {
        w.write_string(std::str::from_utf8(chunk).unwrap());
        assert!(w.column_position() <= BUFFER_WIDTH);
    }
    assert_eq!(w.row_position(), 12);
    assert_eq!(w.column_position(), 40);
    assert_eq!(w.char_at(12, 39).ascii_character, text.as_bytes()[999]);
}

#[test]
fn printable_text_is_stored_as_given() {
    let mut w = Writer::new();
    let text = "Hello, World! ~{}[]";
    w.write_string(text);
    assert_eq!(row_text(&w, 0, text.len()), text);
    assert_eq!(w.column_position(), text.len());
}

#[test]
fn unprintable_bytes_become_placeholder() {
    let mut w = Writer::new();
    w.write_string("a\tb\u{7f}é");
    assert_eq!(w.char_at(0, 0).ascii_character, b'a');
    assert_eq!(w.char_at(0, 1).ascii_character, ASCII_UNKNOWN);
    assert_eq!(w.char_at(0, 2).ascii_character, b'b');
    assert_eq!(w.char_at(0, 3).ascii_character, ASCII_UNKNOWN);
    assert_eq!(w.char_at(0, 4).ascii_character, ASCII_UNKNOWN);
    assert_eq!(w.char_at(0, 5).ascii_character, ASCII_UNKNOWN);
    assert_eq!(w.column_position(), 6);
}

#[test]
fn filling_the_store_shifts_rows_up() {
    let mut w = Writer::new();
    for i in 0..BUFFER_ALL_HEIGHT - 1 {
        w.write_string(&format!("L{}\n", i));
    }
    assert_eq!(w.row_position(), BUFFER_ALL_HEIGHT - 1);
    assert_eq!(row_text(&w, 0, 2), "L0");
    w.write_string("last\n");
    assert_eq!(w.row_position(), BUFFER_ALL_HEIGHT - 1);
    assert_eq!(w.column_position(), 0);
    assert_eq!(w.row_start(), BUFFER_ALL_HEIGHT - BUFFER_HEIGHT);
    assert_eq!(row_text(&w, 0, 2), "L1");
    assert_eq!(row_text(&w, 397, 4), "L398");
    assert_eq!(row_text(&w, 398, 4), "last");
    for c in 0..BUFFER_WIDTH {
        assert_eq!(w.char_at(BUFFER_ALL_HEIGHT - 1, c).ascii_character, b' ');
    }
    assert!(screen_matches_window(&w));
}

#[test]
fn text_after_shift_goes_to_last_row() {
    let mut w = Writer::new();
    for _ in 0..BUFFER_ALL_HEIGHT {
        w.write_byte(b'\n');
    }
    w.write_string("tail");
    assert_eq!(w.row_position(), BUFFER_ALL_HEIGHT - 1);
    assert_eq!(row_text(&w, BUFFER_ALL_HEIGHT - 1, 4), "tail");
}

#[test]
fn write_at_relative_restores_cursor() {
    let mut w = Writer::new();
    for i in 0..30 {
        w.write_string(&format!("{}\n", i));
    }
    w.write_string("ab");
    assert_eq!(w.row_start(), 6);
    w.write_at(false, 2, 10, "status");
    assert_eq!(row_text(&w, 8, 16), "8         status");
    assert_eq!(w.row_position(), 30);
    assert_eq!(w.column_position(), 2);
    assert_eq!(w.screen_char_at(2, 10).ascii_character, b's');
}

#[test]
fn write_at_absolute_writes_store_row() {
    let mut w = Writer::new();
    w.write_string("abc");
    w.write_at(true, 100, 0, "far");
    assert_eq!(row_text(&w, 100, 3), "far");
    assert_eq!(w.row_position(), 0);
    assert_eq!(w.column_position(), 3);
}

#[test]
fn write_at_past_row_end_wraps_first() {
    let mut w = Writer::new();
    w.write_at(true, 3, 500, "z");
    assert_eq!(w.char_at(4, 0).ascii_character, b'z');
    assert_eq!(w.row_position(), 0);
    assert_eq!(w.column_position(), 0);
}

#[test]
fn color_numbers_and_codes() {
    assert_eq!(Color::Black.number(), 0);
    assert_eq!(Color::LightGreen.number(), 10);
    assert_eq!(Color::White.number(), 15);
    assert_eq!(ColorCode::new(Color::Yellow, Color::Blue).0, 0x1e);
}

#[test]
fn test_println_simple() {
    let mut w = Writer::new();
    w.write_string("test_println_simple output\n");
    assert_eq!(row_text(&w, 0, 26), "test_println_simple output");
    assert_eq!(w.row_position(), 1);
    assert_eq!(w.column_position(), 0);
}

#[test]
fn test_println_many() {
    let mut w = Writer::new();
    for _ in 0..200 {
        w.write_string("test_println_many output\n");
    }
    assert_eq!(w.row_position(), 200);
    assert_eq!(w.row_start(), 176);
    assert!(screen_matches_window(&w));
}

#[test]
fn test_println_output() {
    let mut w = Writer::new();
    for _ in 0..200 {
        w.write_string("test_println_many output\n");
    }
    let s = "Some test string that fits on a single line";
    w.write_string(&format!("\n{}\n", s));
    for (i, c) in s.chars().enumerate() {
        let screen_char = w.screen_char_at(BUFFER_HEIGHT - 2, i);
        assert_eq!(char::from(screen_char.ascii_character), c);
    }
}
