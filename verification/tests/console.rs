use min_os::console::{_print, print_guarded, try_print, write_held};
use min_os::screen::{LAST_ROW, WIDTH};
use min_os::vga::{Color, VGAColor, VGADriver};
use spin::Mutex;

fn writer() -> Mutex<VGADriver> {
    Mutex::new(VGADriver::new(VGAColor::from_colors(Color::Yellow, Color::Black)))
}

fn driver_row(driver: &VGADriver, row: usize) -> String {
    let mut text = String::new();
    for col in 0..WIDTH {
        text.push(char::from(driver.glyph_at(row, col)));
    }
    text
}

fn row_text(writer: &Mutex<VGADriver>, row: usize) -> String {
    driver_row(&writer.lock(), row)
}

fn padded(text: &str) -> String {
    let mut line = String::from(text);
    while line.len() < WIDTH {
        line.push(' ');
    }
    line
}

#[test]
fn test_println_simple() {
    let writer = writer();
    assert!(_print(&writer, "test_println_simple output\n", 1).is_some());
    assert_eq!(row_text(&writer, LAST_ROW - 1), padded("test_println_simple output"));
}

#[test]
fn test_println_many() {
    let writer = writer();
    for _ in 0..200 {
        assert!(_print(&writer, "test_println_many output\n", 1).is_some());
    }
    for row in 0..LAST_ROW {
        assert_eq!(row_text(&writer, row), padded("test_println_many output"));
    }
    assert_eq!(row_text(&writer, LAST_ROW), padded(""));
    assert_eq!(writer.lock().column(), 0);
}

#[test]
fn test_println_output() {
    let writer = writer();
    let s = "Some test string that fits on a single line";
    assert!(_print(&writer, &format!("{}\n", s), 1).is_some());
    for (i, c) in s.chars().enumerate() {
        let screen_char = writer.lock().glyph_at(25 - 2, i);
        assert_eq!(char::from(screen_char), c);
    }
}

#[test]
fn test_println() {
    let writer = writer();
    assert!(_print(&writer, "test_println output\n", 1).is_some());
    assert_eq!(row_text(&writer, LAST_ROW - 1), padded("test_println output"));
    assert_eq!(row_text(&writer, LAST_ROW), padded(""));
}

#[test]
fn print_without_line_break_stays_on_the_bottom_row() {
    let writer = writer();
    let text = "test_println_output";
    assert!(_print(&writer, text, 1).is_some());
    assert_eq!(row_text(&writer, LAST_ROW), padded(text));
    assert_eq!(writer.lock().column(), text.len());
}

#[test]
fn line_writer_moves_text_one_row_up() {
    let writer = writer();
    let text = "test_println_output";
    assert!(_print(&writer, &format!("{}\n", text), 1).is_some());
    assert_eq!(row_text(&writer, LAST_ROW - 1), padded(text));
    assert_eq!(row_text(&writer, LAST_ROW), padded(""));
    assert_eq!(writer.lock().column(), 0);
}

#[test]
fn print_formats_interpolated_values() {
    let writer = writer();
    assert!(_print(&writer, &format!("Hello World{}", "!"), 1).is_some());
    assert_eq!(row_text(&writer, LAST_ROW), padded("Hello World!"));
}

#[test]
fn print_hands_back_the_guard_with_the_text_written() {
    let writer = writer();
    let guard = _print(&writer, "shown", 1);
    assert!(writer.is_locked());
    match guard {
        Some(guard) => {
            assert_eq!(driver_row(&guard, LAST_ROW), padded("shown"));
            assert_eq!(guard.column(), 5);
        },
        None => panic!("the lock was free"),
    }
    assert!(!writer.is_locked());
}

#[test]
fn print_while_locked_writes_nothing() {
    let writer = writer();
    assert!(_print(&writer, "before", 1).is_some());
    {
        let held = writer.lock();
        assert!(_print(&writer, " lost", 5).is_none());
        assert!(try_print(&writer, " lost").is_none());
        assert_eq!(driver_row(&held, LAST_ROW), padded("before"));
    }
    assert_eq!(row_text(&writer, LAST_ROW), padded("before"));
    assert!(_print(&writer, " after", 1).is_some());
    assert_eq!(row_text(&writer, LAST_ROW), padded("before after"));
}

#[test]
fn print_releases_the_lock_when_the_guard_is_dropped() {
    let writer = writer();
    assert!(_print(&writer, "a", 1).is_some());
    assert!(!writer.is_locked());
    assert!(writer.try_lock().is_some());
}

#[test]
fn print_guarded_writes_through_a_guard() {
    let writer = writer();
    let after = print_guarded(writer.try_lock(), "guarded");
    match after {
        Some(guard) => assert_eq!(driver_row(&guard, LAST_ROW), padded("guarded")),
        None => panic!("a guard was handed in"),
    }
    assert!(!writer.is_locked());
    assert_eq!(row_text(&writer, LAST_ROW), padded("guarded"));
}

#[test]
fn print_guarded_without_a_guard_hands_none_back() {
    assert!(print_guarded(None, "nothing").is_none());
}

#[test]
fn print_with_no_attempt_writes_nothing() {
    let writer = writer();
    assert!(_print(&writer, "never", 0).is_none());
    assert!(!writer.is_locked());
    assert_eq!(row_text(&writer, LAST_ROW), padded(""));
}

#[test]
fn print_writes_once_however_many_attempts_are_allowed() {
    let writer = writer();
    let guard = _print(&writer, "once\n", 1000);
    match guard {
        Some(guard) => {
            assert_eq!(driver_row(&guard, LAST_ROW - 1), padded("once"));
            assert_eq!(driver_row(&guard, LAST_ROW - 2), padded(""));
            assert_eq!(driver_row(&guard, LAST_ROW), padded(""));
            assert_eq!(guard.column(), 0);
        },
        None => panic!("the lock was free"),
    }
    assert!(!writer.is_locked());
}

#[test]
fn print_continues_what_an_earlier_print_left() {
    let writer = writer();
    assert!(_print(&writer, "one ", 1).is_some());
    assert!(try_print(&writer, "two").is_some());
    assert_eq!(row_text(&writer, LAST_ROW), padded("one two"));
}

#[test]
fn try_print_hands_back_the_guard_with_the_text_written() {
    let writer = writer();
    let guard = try_print(&writer, "tried");
    assert!(writer.is_locked());
    match guard {
        Some(guard) => assert_eq!(driver_row(&guard, LAST_ROW), padded("tried")),
        None => panic!("the lock was free"),
    }
    assert!(!writer.is_locked());
}

#[test]
fn printing_keeps_the_active_attribute() {
    let writer = writer();
    let guard = _print(&writer, "text\nmore", 1);
    match guard {
        Some(guard) => {
            assert_eq!(guard.color().bits(), 0x0e);
            assert_eq!(guard.color_at(LAST_ROW, 0).bits(), 0x0e);
        },
        None => panic!("the lock was free"),
    }
}

#[test]
fn write_held_writes_piece_by_piece_under_one_lock() {
    let writer = writer();
    let mut guard = writer.lock();
    assert_eq!(guard.column(), 0);
    write_held(&mut guard, "Hello World");
    write_held(&mut guard, "!");
    write_held(&mut guard, "\n");
    assert!(writer.is_locked());
    assert_eq!(driver_row(&guard, LAST_ROW - 1), padded("Hello World!"));
    assert_eq!(guard.column(), 0);
    drop(guard);
    assert_eq!(row_text(&writer, LAST_ROW - 1), padded("Hello World!"));
}

#[test]
fn two_hundred_lines_under_one_lock_leave_the_last_24() {
    let writer = writer();
    let mut guard = writer.lock();
    for i in 0..200 {
        write_held(&mut guard, &format!("line {}\n", i));
    }
    for row in 0..LAST_ROW {
        assert_eq!(driver_row(&guard, row), padded(&format!("line {}", 176 + row)));
    }
    assert_eq!(driver_row(&guard, LAST_ROW), padded(""));
    assert_eq!(guard.column(), 0);
}
