use hecto::{die, ScreenPosition, Size, Terminal};

#[test]
fn window_is_two_rows_shorter_than_the_device() {
    let terminal = Terminal::default((80, 24));
    assert_eq!(*terminal.size(), Size { width: 80, height: 22 });
}

#[test]
fn window_height_saturates_at_zero() {
    assert_eq!(Terminal::default((80, 2)).size().height, 0);
    assert_eq!(Terminal::default((80, 1)).size().height, 0);
    assert_eq!(Terminal::default((80, 0)).size().height, 0);
    assert_eq!(Terminal::default((80, 3)).size().height, 1);
}

#[test]
fn window_of_the_largest_device() {
    let terminal = Terminal::default((u16::MAX, u16::MAX));
    assert_eq!(*terminal.size(), Size { width: 65535, height: 65533 });
}

#[test]
fn clear_screen_sequence() {
    assert_eq!(Terminal::clear_screen(), "\x1b[2J");
}

#[test]
fn clear_current_line_sequence() {
    assert_eq!(Terminal::clear_current_line(), "\x1b[2K");
}

#[test]
fn cursor_hide_sequence() {
    assert_eq!(Terminal::cursor_hide(), "\x1b[?25l");
}

#[test]
fn cursor_show_sequence() {
    assert_eq!(Terminal::cursor_show(), "\x1b[?25h");
}

#[test]
fn cursor_position_counts_from_one() {
    assert_eq!(Terminal::cursor_position(&ScreenPosition { x: 0, y: 0 }), "\x1b[1;1H");
}

#[test]
fn cursor_position_writes_the_row_first() {
    assert_eq!(Terminal::cursor_position(&ScreenPosition { x: 4, y: 2 }), "\x1b[3;5H");
    assert_eq!(Terminal::cursor_position(&ScreenPosition { x: 11, y: 122 }), "\x1b[123;12H");
}

#[test]
fn cursor_position_writes_plain_decimals() {
    assert_eq!(Terminal::cursor_position(&ScreenPosition { x: 9, y: 99 }), "\x1b[100;10H");
    assert_eq!(
        Terminal::cursor_position(&ScreenPosition { x: 1000, y: 20479 }),
        "\x1b[20480;1001H"
    );
}

#[test]
fn cursor_position_stops_at_the_largest_coordinate() {
    assert_eq!(
        Terminal::cursor_position(&ScreenPosition { x: 65533, y: 65534 }),
        "\x1b[65535;65534H"
    );
    assert_eq!(Terminal::cursor_position(&ScreenPosition { x: 65535, y: 0 }), "\x1b[1;65535H");
    assert_eq!(
        Terminal::cursor_position(&ScreenPosition { x: 70000, y: usize::MAX }),
        "\x1b[65535;65535H"
    );
}

#[test]
fn default_screen_position_is_the_top_left_cell() {
    assert_eq!(ScreenPosition::default(), ScreenPosition { x: 0, y: 0 });
    assert_eq!(Terminal::cursor_position(&ScreenPosition::default()), "\x1b[1;1H");
}

#[test]
fn die_clears_the_screen_and_names_the_error() {
    let fatal = die("Os { code: 5, kind: Uncategorized }");
    assert_eq!(fatal.cleanup, "\x1b[2J");
    assert_eq!(fatal.message, "Error: Os { code: 5, kind: Uncategorized }\r");
}

#[test]
fn die_with_an_empty_description() {
    let fatal = die("");
    assert_eq!(fatal.cleanup, "\x1b[2J");
    assert_eq!(fatal.message, "Error: \r");
}
