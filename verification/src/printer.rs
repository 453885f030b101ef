//! The deduplicating command printer: tracks the cursor position, cursor
//! visibility and foreground color it has already emitted, and queues a
//! command only when it would change the terminal's state.

use vstd::prelude::*;
use crate::color::Color;
use crate::error::Error;
use crate::surface::Command;

verus! {

/// A printer that queues terminal commands, skipping the redundant ones.
pub struct PrinterImpl {
    queued: Vec<Command>,
    position: (u16, u16),
    cursor: Option<bool>,
    foreground: Option<Color>,
}

impl PrinterImpl {
    /// The commands queued since the last flush.
    pub closed spec fn spec_queued(&self) -> Seq<Command> {
        self.queued@
    }

    /// The cursor position after the queued commands run.
    pub closed spec fn spec_position(&self) -> (u16, u16) {
        self.position
    }

    /// The cursor visibility the printer has emitted, if any.
    pub closed spec fn spec_cursor(&self) -> Option<bool> {
        self.cursor
    }

    /// The foreground color the printer has emitted, if any.
    pub closed spec fn spec_foreground(&self) -> Option<Color> {
        self.foreground
    }

    /// Creates a printer for a terminal whose cursor stands at the given
    /// position.
    pub fn new(position: (u16, u16)) -> (p: PrinterImpl)
        ensures
            p.spec_queued() == Seq::<Command>::empty(),
            p.spec_position() == position,
            p.spec_cursor() is None,
            p.spec_foreground() is None,
    {
        PrinterImpl { queued: Vec::new(), position, cursor: None, foreground: None }
    }

    /// Shows the cursor, unless the last visibility emitted already shows
    /// it.
    pub fn show_cursor(&mut self)
        ensures
            final(self).spec_position() == old(self).spec_position(),
            final(self).spec_foreground() == old(self).spec_foreground(),
            final(self).spec_cursor() == Some(true),
            final(self).spec_queued() == (if old(self).spec_cursor() == Some(true) {
                old(self).spec_queued()
            } else {
                old(self).spec_queued().push(Command::ShowCursor)
            }),
    {
        let already = match self.cursor {
            Some(shown) => shown,
            None => false,
        };
        if !already {
            self.cursor = Some(true);
            self.queued.push(Command::ShowCursor);
        }
    }

    /// Hides the cursor, unless the last visibility emitted already hides
    /// it.
    pub fn hide_cursor(&mut self)
        ensures
            final(self).spec_position() == old(self).spec_position(),
            final(self).spec_foreground() == old(self).spec_foreground(),
            final(self).spec_cursor() == Some(false),
            final(self).spec_queued() == (if old(self).spec_cursor() == Some(false) {
                old(self).spec_queued()
            } else {
                old(self).spec_queued().push(Command::HideCursor)
            }),
    {
        let already = match self.cursor {
            Some(shown) => !shown,
            None => false,
        };
        if !already {
            self.cursor = Some(false);
            self.queued.push(Command::HideCursor);
        }
    }

    /// Prints a glyph at the cursor, advancing it by one column. Control
    /// characters are rejected, since the terminal would not advance the
    /// cursor by one cell for them.
    pub fn print(&mut self, char: char) -> (r: Result<(), Error>)
        requires
            old(self).spec_position().0 < u16::MAX,
        ensures
            final(self).spec_cursor() == old(self).spec_cursor(),
            final(self).spec_foreground() == old(self).spec_foreground(),
            char < '\u{20}' || char == '\u{7F}' ==> r is Err && *final(self) == *old(self),
            !(char < '\u{20}' || char == '\u{7F}') ==> r is Ok
                && final(self).spec_queued() == old(self).spec_queued().push(Command::Print(char))
                && final(self).spec_position().0 == old(self).spec_position().0 + 1
                && final(self).spec_position().1 == old(self).spec_position().1,
    {
        if char < '\u{20}' || char == '\u{7F}' {
            return Err("Special chars can't be printed.".into());
        }
        self.position.0 = self.position.0 + 1;
        self.queued.push(Command::Print(char));
        Ok(())
    }

    /// Moves the cursor, unless it already stands at the given position.
    pub fn move_to(&mut self, x: u16, y: u16)
        ensures
            final(self).spec_cursor() == old(self).spec_cursor(),
            final(self).spec_foreground() == old(self).spec_foreground(),
            final(self).spec_position() == (x, y),
            final(self).spec_queued() == (if old(self).spec_position() == (x, y) {
                old(self).spec_queued()
            } else {
                old(self).spec_queued().push(Command::MoveTo(x, y))
            }),
    {
        if !(self.position.0 == x && self.position.1 == y) {
            self.position = (x, y);
            self.queued.push(Command::MoveTo(x, y));
        }
    }

    /// Sets the foreground color, unless it is the last color emitted.
    pub fn set_foreground(&mut self, color: Color)
        ensures
            final(self).spec_cursor() == old(self).spec_cursor(),
            final(self).spec_position() == old(self).spec_position(),
            final(self).spec_foreground() == Some(color),
            final(self).spec_queued() == (if old(self).spec_foreground() == Some(color) {
                old(self).spec_queued()
            } else {
                old(self).spec_queued().push(Command::SetForeground(color))
            }),
    {
        let same = match self.foreground {
            Some(current) => current == color,
            None => false,
        };
        if !same {
            self.foreground = Some(color);
            self.queued.push(Command::SetForeground(color));
        }
    }

    /// Purges the screen.
    pub fn clear(&mut self)
        ensures
            final(self).spec_cursor() == old(self).spec_cursor(),
            final(self).spec_position() == old(self).spec_position(),
            final(self).spec_foreground() == old(self).spec_foreground(),
            final(self).spec_queued() == old(self).spec_queued().push(Command::Purge),
    {
        self.queued.push(Command::Purge);
    }

    /// Takes the queued commands, to be written to the terminal, leaving
    /// the queue empty.
    pub fn flush(&mut self) -> (cmds: Vec<Command>)
        ensures
            final(self).spec_cursor() == old(self).spec_cursor(),
            final(self).spec_position() == old(self).spec_position(),
            final(self).spec_foreground() == old(self).spec_foreground(),
            cmds@ == old(self).spec_queued(),
            final(self).spec_queued() == Seq::<Command>::empty(),
    {
        let mut cmds: Vec<Command> = Vec::new();
        std::mem::swap(&mut cmds, &mut self.queued);
        cmds
    }
}

} // verus!
