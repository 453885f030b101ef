//! The diffing surface: minimal command streams and the terminal
//! lifecycle commands.

use wipe::color::Color;
use wipe::surface::{startup_commands, teardown_commands, Command, Surface};

#[test]
fn surface_width() {
    let surface = Surface::new(10, 2);

    assert_eq!(10, surface.width());
}

#[test]
fn surface_height() {
    let surface = Surface::new(5, 8);

    assert_eq!(8, surface.height());
}

#[test]
fn surface_present() {
    let mut surface = Surface::new(3, 2);

    surface.draw(0, 0, 'A', Color::Green);
    surface.draw(1, 0, 'x', Color::Green);
    surface.clear(1, 1);

    assert_eq!(
        vec![
            Command::MoveTo(0, 0),
            Command::SetForeground(Color::Green),
            Command::Print('A'),
            Command::Print('x'),
            Command::MoveTo(1, 1),
            Command::SetForeground(Color::Reset),
            Command::Print(' '),
        ],
        surface.present()
    );
}

#[test]
fn adjacent_same_color_run_is_minimal() {
    // Two horizontally adjacent cells with the same glyph and color emit
    // exactly one move, one color command and two glyphs.
    let mut surface = Surface::new(4, 1);

    surface.draw(1, 0, 'A', Color::Green);
    surface.draw(2, 0, 'A', Color::Green);

    assert_eq!(
        vec![
            Command::MoveTo(1, 0),
            Command::SetForeground(Color::Green),
            Command::Print('A'),
            Command::Print('A'),
        ],
        surface.present()
    );
}

#[test]
fn color_kept_across_rows() {
    // The last color survives row boundaries: the second row's glyph does
    // not re-emit the color command.
    let mut surface = Surface::new(2, 2);

    surface.draw(0, 0, 'A', Color::Red);
    surface.draw(0, 1, 'B', Color::Red);

    assert_eq!(
        vec![
            Command::MoveTo(0, 0),
            Command::SetForeground(Color::Red),
            Command::Print('A'),
            Command::MoveTo(0, 1),
            Command::Print('B'),
        ],
        surface.present()
    );
}

#[test]
fn gap_forces_new_move() {
    // A kept cell between two drawn cells forces a reposition.
    let mut surface = Surface::new(3, 1);

    surface.draw(0, 0, 'A', Color::Red);
    surface.draw(2, 0, 'B', Color::Red);

    assert_eq!(
        vec![
            Command::MoveTo(0, 0),
            Command::SetForeground(Color::Red),
            Command::Print('A'),
            Command::MoveTo(2, 0),
            Command::Print('B'),
        ],
        surface.present()
    );
}

#[test]
fn reset_clears_the_frame() {
    let mut surface = Surface::new(2, 1);

    surface.draw(0, 0, 'A', Color::Red);
    surface.reset();

    assert_eq!(Vec::<Command>::new(), surface.present());
}

#[test]
fn lifecycle_commands() {
    assert_eq!(vec![Command::HideCursor], startup_commands());
    assert_eq!(
        vec![
            Command::MoveTo(0, 0),
            Command::SetForeground(Color::Reset),
            Command::ShowCursor,
            Command::Purge,
        ],
        teardown_commands()
    );
}
