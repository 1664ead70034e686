use termtabs::tab::{Pos, Size};
use termtabs::terminal::Frame;

#[test]
fn new_frame_is_empty() {
    let frame = Frame::new(Size { width: 80, height: 24 });
    assert_eq!(frame.origin, Pos { x: 0, y: 0 });
    assert_eq!(frame.bounds, Size { width: 80, height: 24 });
    assert_eq!(frame.output, "");
}

#[test]
fn print_at_moves_then_prints() {
    let mut frame = Frame::new(Size { width: 80, height: 24 });
    frame.print_at(0, 0, "hello");
    assert_eq!(frame.output, "\x1b[1;1Hhello");
    frame.print_at(7, 9, "world");
    assert_eq!(frame.output, "\x1b[1;1Hhello\x1b[10;8Hworld");
}

#[test]
fn print_at_adds_the_origin() {
    let mut frame = Frame::new(Size { width: 300, height: 300 });
    frame.origin = Pos { x: 99, y: 198 };
    frame.print_at(0, 1, "x");
    assert_eq!(frame.output, "\x1b[200;100Hx");
}

#[test]
fn print_at_writes_large_coordinates_in_decimal() {
    let mut frame = Frame::new(Size { width: 65535, height: 65535 });
    frame.print_at(65534, 65534, "");
    assert_eq!(frame.output, "\x1b[65535;65535H");
    let mut frame = Frame::new(Size { width: 65535, height: 65535 });
    frame.origin = Pos { x: 12344, y: 0 };
    frame.print_at(0, 9, "");
    assert_eq!(frame.output, "\x1b[10;12345H");
}

#[test]
fn print_at_drops_what_is_off_screen() {
    let mut frame = Frame::new(Size { width: 80, height: 24 });
    frame.print_at(80, 0, "right of the screen");
    frame.print_at(0, 24, "below the screen");
    assert_eq!(frame.output, "");
    frame.origin = Pos { x: 70, y: 20 };
    frame.print_at(10, 0, "right of the screen");
    frame.print_at(0, 4, "below the screen");
    assert_eq!(frame.output, "");
    frame.print_at(9, 3, "last cell");
    assert_eq!(frame.output, "\x1b[24;80Hlast cell");
}

#[test]
fn print_at_does_not_overflow() {
    let mut frame = Frame::new(Size { width: 65535, height: 65535 });
    frame.origin = Pos { x: 65535, y: 65535 };
    frame.print_at(65535, 65535, "far away");
    assert_eq!(frame.output, "");
    let mut frame = Frame::new(Size { width: 0, height: 0 });
    frame.print_at(0, 0, "nowhere");
    assert_eq!(frame.output, "");
}

#[test]
fn shows_tells_what_is_on_screen() {
    let mut frame = Frame::new(Size { width: 80, height: 24 });
    assert!(frame.shows(0, 0));
    assert!(frame.shows(79, 23));
    assert!(!frame.shows(80, 23));
    assert!(!frame.shows(79, 24));
    frame.origin = Pos { x: 1, y: 1 };
    assert!(!frame.shows(79, 0));
    assert!(!frame.shows(0, 23));
    assert!(frame.shows(78, 22));
}

#[test]
fn show_cursor_moves_and_shows() {
    let mut frame = Frame::new(Size { width: 80, height: 24 });
    frame.origin = Pos { x: 2, y: 3 };
    frame.show_cursor(4, 5);
    assert_eq!(frame.output, "\x1b[9;7H\x1b[?25h");
}

#[test]
fn show_cursor_off_screen_hides() {
    let mut frame = Frame::new(Size { width: 80, height: 24 });
    frame.show_cursor(80, 0);
    assert_eq!(frame.output, "\x1b[?25l");
}

#[test]
fn hide_cursor_queues_the_hide_command() {
    let mut frame = Frame::new(Size { width: 80, height: 24 });
    frame.print_at(0, 0, "a");
    frame.hide_cursor();
    assert_eq!(frame.output, "\x1b[1;1Ha\x1b[?25l");
}

#[test]
fn print_at_keeps_text_as_it_is() {
    let mut frame = Frame::new(Size { width: 80, height: 24 });
    frame.print_at(0, 0, "{} \u{e7a8} \x1b[0m %d");
    assert_eq!(frame.output, "\x1b[1;1H{} \u{e7a8} \x1b[0m %d");
}
