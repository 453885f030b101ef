//! The deduplicating command printer.

use wipe::color::Color;
use wipe::printer::PrinterImpl;
use wipe::surface::Command;

#[test]
fn show_cursor() {
    let mut printer = PrinterImpl::new((0, 0));

    printer.show_cursor();

    assert_eq!(vec![Command::ShowCursor], printer.flush());
}

#[test]
fn show_cursor_twice_queues_once() {
    let mut printer = PrinterImpl::new((0, 0));

    printer.show_cursor();
    printer.show_cursor();

    assert_eq!(vec![Command::ShowCursor], printer.flush());
}

#[test]
fn show_cursor_after_hiding_queues_show() {
    let mut printer = PrinterImpl::new((0, 0));

    printer.hide_cursor();
    printer.show_cursor();

    assert_eq!(
        vec![Command::HideCursor, Command::ShowCursor],
        printer.flush()
    );
}

#[test]
fn hide_cursor() {
    let mut printer = PrinterImpl::new((0, 0));

    printer.hide_cursor();

    assert_eq!(vec![Command::HideCursor], printer.flush());
}

#[test]
fn hide_cursor_twice_queues_once() {
    let mut printer = PrinterImpl::new((0, 0));

    printer.hide_cursor();
    printer.hide_cursor();

    assert_eq!(vec![Command::HideCursor], printer.flush());
}

#[test]
fn hide_cursor_after_showing_queues_hide() {
    let mut printer = PrinterImpl::new((0, 0));

    printer.show_cursor();
    printer.hide_cursor();

    assert_eq!(
        vec![Command::ShowCursor, Command::HideCursor],
        printer.flush()
    );
}

#[test]
fn set_foreground() {
    let mut printer = PrinterImpl::new((0, 0));

    printer.set_foreground(Color::Blue);

    assert_eq!(vec![Command::SetForeground(Color::Blue)], printer.flush());
}

#[test]
fn set_foreground_twice_queues_once() {
    let mut printer = PrinterImpl::new((0, 0));

    printer.set_foreground(Color::Red);
    printer.set_foreground(Color::Red);

    assert_eq!(vec![Command::SetForeground(Color::Red)], printer.flush());
}

#[test]
fn set_foreground_different_color_queues() {
    let mut printer = PrinterImpl::new((0, 0));

    printer.set_foreground(Color::Red);
    printer.set_foreground(Color::Blue);
    printer.set_foreground(Color::Red);

    assert_eq!(
        vec![
            Command::SetForeground(Color::Red),
            Command::SetForeground(Color::Blue),
            Command::SetForeground(Color::Red),
        ],
        printer.flush()
    );
}

#[test]
fn print() {
    let mut printer = PrinterImpl::new((0, 0));

    printer.print('R').unwrap();

    assert_eq!(vec![Command::Print('R')], printer.flush());
}

#[test]
fn print_moves_cursor() {
    let mut printer = PrinterImpl::new((2, 4));

    printer.print('A').unwrap();
    printer.print('B').unwrap();
    printer.print('C').unwrap();
    printer.move_to(5, 4);

    assert_eq!(
        vec![Command::Print('A'), Command::Print('B'), Command::Print('C')],
        printer.flush()
    );
}

#[test]
fn print_special_char_fails() {
    let mut printer = PrinterImpl::new((2, 4));

    assert!(printer.print('\u{0}').is_err());
    assert!(printer.print('\u{1F}').is_err());
    assert!(printer.print('\u{7F}').is_err());
}

#[test]
fn move_to_different_position_queues() {
    let mut printer = PrinterImpl::new((7, 2));

    printer.move_to(5, 4);

    assert_eq!(vec![Command::MoveTo(5, 4)], printer.flush());
}

#[test]
fn move_to_same_position_does_not_queue() {
    let mut printer = PrinterImpl::new((3, 13));

    printer.move_to(3, 13);

    assert_eq!(Vec::<Command>::new(), printer.flush());
}

#[test]
fn clear() {
    let mut printer = PrinterImpl::new((0, 0));

    printer.clear();

    assert_eq!(vec![Command::Purge], printer.flush());
}

#[test]
fn flush() {
    let mut printer = PrinterImpl::new((0, 0));

    assert_eq!(Vec::<Command>::new(), printer.flush());
}
