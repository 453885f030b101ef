//! The terminal-diffing surface: a per-frame grid buffer whose cells are
//! turned into a minimal stream of terminal commands.
//!
//! Presenting walks the grid row by row. A cursor move is emitted only at
//! the start of a run of drawn cells, and a foreground-color command only
//! when the color differs from the last one emitted in this frame, so the
//! command count is bounded by the number of runs and color changes, not by
//! the grid area.

use vstd::prelude::*;
use crate::array::Array2D;
use crate::color::Color;

verus! {

/// One terminal control command of the output stream.
#[derive(Copy, Clone, PartialEq, Eq, Structural, Debug)]
pub enum Command {
    /// Move the cursor to the given column and row.
    MoveTo(u16, u16),
    /// Set the foreground color.
    SetForeground(Color),
    /// Print a glyph at the cursor, advancing it.
    Print(char),
    /// Show the cursor.
    ShowCursor,
    /// Hide the cursor.
    HideCursor,
    /// Purge the screen.
    Purge,
}

/// One grid cell's per-frame render instruction. Clearing is drawing a
/// space in the reset color.
#[derive(Copy, Clone, PartialEq, Eq, Structural, Debug)]
pub enum Cell {
    /// Leave the character on screen untouched.
    Keep,
    /// Overwrite the character on screen.
    Draw { char: char, color: Color },
}

/// The emitter state while a frame is presented: the commands queued so
/// far, whether the cursor has to be repositioned before the next glyph,
/// and the last color set in this frame.
pub ghost struct EmitState {
    pub cmds: Seq<Command>,
    pub needs_move: bool,
    pub last: Option<Color>,
}

/// The state at the start of a frame: nothing emitted, no color set.
pub open spec fn emit_init() -> EmitState {
    EmitState { cmds: Seq::empty(), needs_move: true, last: None }
}

/// Presenting one cell: a kept cell only forces the next glyph to
/// reposition the cursor; a drawn cell emits a move if one is pending, a
/// color command if the color changes, and always its glyph.
pub open spec fn cell_step(s: EmitState, cell: Cell, x: int, y: int) -> EmitState {
    match cell {
        Cell::Keep => EmitState { cmds: s.cmds, needs_move: true, last: s.last },
        Cell::Draw { char, color } => {
            let moved = if s.needs_move {
                s.cmds.push(Command::MoveTo(x as u16, y as u16))
            } else {
                s.cmds
            };
            let colored = if s.last != Some(color) {
                moved.push(Command::SetForeground(color))
            } else {
                moved
            };
            EmitState { cmds: colored.push(Command::Print(char)), needs_move: false, last: Some(
                color,
            ) }
        },
    }
}

/// The state after presenting the first `x` cells of row `y`, starting
/// from `base`.
pub open spec fn row_prefix(a: Seq<Cell>, w: int, y: int, x: int, base: EmitState) -> EmitState
    decreases x,
{
    if x <= 0 {
        base
    } else {
        cell_step(row_prefix(a, w, y, x - 1, base), a[y * w + (x - 1)], x - 1, y)
    }
}

/// The state after presenting the first `y` whole rows; every row starts
/// with a pending cursor move.
pub open spec fn grid_prefix(a: Seq<Cell>, w: int, y: int) -> EmitState
    decreases y,
{
    if y <= 0 {
        emit_init()
    } else {
        let s = grid_prefix(a, w, y - 1);
        row_prefix(a, w, y - 1, w, EmitState { cmds: s.cmds, needs_move: true, last: s.last })
    }
}

/// The command stream that presenting a whole grid emits.
pub open spec fn present_spec(a: Seq<Cell>, w: int, h: int) -> Seq<Command> {
    grid_prefix(a, w, h).cmds
}

/// The number of glyph prints in a command stream.
pub open spec fn print_count(cmds: Seq<Command>) -> int
    decreases cmds.len(),
{
    if cmds.len() == 0 {
        0
    } else {
        print_count(cmds.drop_last()) + (if cmds.last() is Print {
            1int
        } else {
            0int
        })
    }
}

/// The number of drawn cells among the first `n` cells.
pub open spec fn draw_count(a: Seq<Cell>, n: int) -> int
    decreases n,
{
    if n <= 0 {
        0
    } else {
        draw_count(a, n - 1) + (if a[n - 1] is Draw {
            1int
        } else {
            0int
        })
    }
}

/// Appending one command adds one print exactly when it is a glyph.
proof fn lemma_print_count_push(cmds: Seq<Command>, cmd: Command)
    ensures
        print_count(cmds.push(cmd)) == print_count(cmds) + (if cmd is Print {
            1int
        } else {
            0int
        }),
{
    assert(cmds.push(cmd).drop_last() =~= cmds);
}

/// Presenting one cell emits exactly one glyph print for a drawn cell and
/// none for a kept one.
proof fn lemma_cell_step_prints(s: EmitState, cell: Cell, x: int, y: int)
    ensures
        print_count(cell_step(s, cell, x, y).cmds) == print_count(s.cmds) + (if cell is Draw {
            1int
        } else {
            0int
        }),
{
    match cell {
        Cell::Keep => {},
        Cell::Draw { char, color } => {
            let moved = if s.needs_move {
                s.cmds.push(Command::MoveTo(x as u16, y as u16))
            } else {
                s.cmds
            };
            let colored = if s.last != Some(color) {
                moved.push(Command::SetForeground(color))
            } else {
                moved
            };
            if s.needs_move {
                lemma_print_count_push(s.cmds, Command::MoveTo(x as u16, y as u16));
            }
            if s.last != Some(color) {
                lemma_print_count_push(moved, Command::SetForeground(color));
            }
            lemma_print_count_push(colored, Command::Print(char));
        },
    }
}

/// Presenting a row prefix emits one glyph print per drawn cell in it.
proof fn lemma_row_prints(a: Seq<Cell>, w: int, y: int, x: int, base: EmitState)
    requires
        0 <= x,
        0 <= y * w,
    ensures
        print_count(row_prefix(a, w, y, x, base).cmds) == print_count(base.cmds) + draw_count(
            a,
            y * w + x,
        ) - draw_count(a, y * w),
    decreases x,
{
    if x <= 0 {
    } else {
        lemma_row_prints(a, w, y, x - 1, base);
        lemma_cell_step_prints(row_prefix(a, w, y, x - 1, base), a[y * w + (x - 1)], x - 1, y);
    }
}

/// Presenting whole rows emits one glyph print per drawn cell in them.
proof fn lemma_grid_prints(a: Seq<Cell>, w: int, y: int)
    requires
        0 <= w,
        0 <= y,
    ensures
        print_count(grid_prefix(a, w, y).cmds) == draw_count(a, y * w),
    decreases y,
{
    if y <= 0 {
        assert(0 * w == 0) by (nonlinear_arith);
    } else {
        lemma_grid_prints(a, w, y - 1);
        let s = grid_prefix(a, w, y - 1);
        assert(0 <= (y - 1) * w && (y - 1) * w + w == y * w) by (nonlinear_arith)
            requires
                0 <= w,
                1 <= y,
        ;
        lemma_row_prints(
            a,
            w,
            y - 1,
            w,
            EmitState { cmds: s.cmds, needs_move: true, last: s.last },
        );
    }
}

/// Minimality of the glyph stream: presenting a grid emits exactly one
/// glyph print per drawn cell, and none for kept cells.
pub proof fn lemma_present_one_print_per_draw(a: Seq<Cell>, w: int, h: int)
    requires
        0 <= w,
        0 <= h,
    ensures
        print_count(present_spec(a, w, h)) == draw_count(a, h * w),
{
    lemma_grid_prints(a, w, h);
}

/// The number of cursor moves in a command stream.
pub open spec fn move_count(cmds: Seq<Command>) -> int
    decreases cmds.len(),
{
    if cmds.len() == 0 {
        0
    } else {
        move_count(cmds.drop_last()) + (if cmds.last() is MoveTo {
            1int
        } else {
            0int
        })
    }
}

/// Whether the cell at column `x` of row `y` starts a maximal run of
/// drawn cells: it is drawn, and it is the first cell of the row or
/// follows a kept cell.
pub open spec fn is_run_start(a: Seq<Cell>, w: int, y: int, x: int) -> bool {
    a[y * w + x] is Draw && (x == 0 || a[y * w + (x - 1)] is Keep)
}

/// The number of run starts among the first `x` cells of row `y`.
pub open spec fn run_start_count(a: Seq<Cell>, w: int, y: int, x: int) -> int
    decreases x,
{
    if x <= 0 {
        0
    } else {
        run_start_count(a, w, y, x - 1) + (if is_run_start(a, w, y, x - 1) {
            1int
        } else {
            0int
        })
    }
}

/// The number of run starts in the first `y` whole rows.
pub open spec fn grid_run_starts(a: Seq<Cell>, w: int, y: int) -> int
    decreases y,
{
    if y <= 0 {
        0
    } else {
        grid_run_starts(a, w, y - 1) + run_start_count(a, w, y - 1, w)
    }
}

/// Appending one command adds one move exactly when it is a cursor move.
proof fn lemma_move_count_push(cmds: Seq<Command>, cmd: Command)
    ensures
        move_count(cmds.push(cmd)) == move_count(cmds) + (if cmd is MoveTo {
            1int
        } else {
            0int
        }),
{
    assert(cmds.push(cmd).drop_last() =~= cmds);
}

/// Presenting one cell emits a cursor move exactly when a move is
/// pending and the cell is drawn.
proof fn lemma_cell_step_moves(s: EmitState, cell: Cell, x: int, y: int)
    ensures
        move_count(cell_step(s, cell, x, y).cmds) == move_count(s.cmds) + (if s.needs_move
            && cell is Draw {
            1int
        } else {
            0int
        }),
{
    match cell {
        Cell::Keep => {},
        Cell::Draw { char, color } => {
            let moved = if s.needs_move {
                s.cmds.push(Command::MoveTo(x as u16, y as u16))
            } else {
                s.cmds
            };
            let colored = if s.last != Some(color) {
                moved.push(Command::SetForeground(color))
            } else {
                moved
            };
            if s.needs_move {
                lemma_move_count_push(s.cmds, Command::MoveTo(x as u16, y as u16));
            }
            if s.last != Some(color) {
                lemma_move_count_push(moved, Command::SetForeground(color));
            }
            lemma_move_count_push(colored, Command::Print(char));
        },
    }
}

/// Presenting a row prefix emits one cursor move per run start in it, and
/// leaves a move pending exactly after a kept cell or at the row start.
proof fn lemma_row_moves(a: Seq<Cell>, w: int, y: int, x: int, base: EmitState)
    requires
        0 <= x,
        base.needs_move,
    ensures
        move_count(row_prefix(a, w, y, x, base).cmds) == move_count(base.cmds) + run_start_count(
            a,
            w,
            y,
            x,
        ),
        row_prefix(a, w, y, x, base).needs_move == (x == 0 || a[y * w + (x - 1)] is Keep),
    decreases x,
{
    if x <= 0 {
    } else {
        lemma_row_moves(a, w, y, x - 1, base);
        lemma_cell_step_moves(row_prefix(a, w, y, x - 1, base), a[y * w + (x - 1)], x - 1, y);
    }
}

/// Presenting whole rows emits one cursor move per run start in them.
proof fn lemma_grid_moves(a: Seq<Cell>, w: int, y: int)
    requires
        0 <= w,
        0 <= y,
    ensures
        move_count(grid_prefix(a, w, y).cmds) == grid_run_starts(a, w, y),
    decreases y,
{
    if y <= 0 {
    } else {
        lemma_grid_moves(a, w, y - 1);
        let s = grid_prefix(a, w, y - 1);
        lemma_row_moves(
            a,
            w,
            y - 1,
            w,
            EmitState { cmds: s.cmds, needs_move: true, last: s.last },
        );
    }
}

/// Minimality of the cursor moves: presenting a grid emits exactly one
/// cursor move per maximal run of drawn cells, never one per cell.
pub proof fn lemma_present_one_move_per_run(a: Seq<Cell>, w: int, h: int)
    requires
        0 <= w,
        0 <= h,
    ensures
        move_count(present_spec(a, w, h)) == grid_run_starts(a, w, h),
{
    lemma_grid_moves(a, w, h);
}

/// The number of foreground-color commands in a command stream.
pub open spec fn color_count(cmds: Seq<Command>) -> int
    decreases cmds.len(),
{
    if cmds.len() == 0 {
        0
    } else {
        color_count(cmds.drop_last()) + (if cmds.last() is SetForeground {
            1int
        } else {
            0int
        })
    }
}

/// The colors of the drawn cells among the indices `[from, to)`, in
/// order.
pub open spec fn drawn_colors(a: Seq<Cell>, from: int, to: int) -> Seq<Color>
    decreases to - from,
{
    if to <= from {
        Seq::empty()
    } else {
        let rest = drawn_colors(a, from, to - 1);
        match a[to - 1] {
            Cell::Keep => rest,
            Cell::Draw { char, color } => rest.push(color),
        }
    }
}

/// The last of a run of drawn colors, or the color already emitted
/// before it.
pub open spec fn last_color(colors: Seq<Color>, prior: Option<Color>) -> Option<Color> {
    if colors.len() == 0 {
        prior
    } else {
        Some(colors.last())
    }
}

/// How often the color changes along a run of drawn colors that follows
/// the already-emitted `prior`.
pub open spec fn change_count(colors: Seq<Color>, prior: Option<Color>) -> int
    decreases colors.len(),
{
    if colors.len() == 0 {
        0
    } else {
        change_count(colors.drop_last(), prior) + (if Some(colors.last()) == last_color(
            colors.drop_last(),
            prior,
        ) {
            0int
        } else {
            1int
        })
    }
}

/// Appending one command adds one color command exactly when it sets the
/// foreground.
proof fn lemma_color_count_push(cmds: Seq<Command>, cmd: Command)
    ensures
        color_count(cmds.push(cmd)) == color_count(cmds) + (if cmd is SetForeground {
            1int
        } else {
            0int
        }),
{
    assert(cmds.push(cmd).drop_last() =~= cmds);
}

/// Presenting one cell emits a color command exactly when the cell is
/// drawn in a color other than the last one emitted.
proof fn lemma_cell_step_colors(s: EmitState, cell: Cell, x: int, y: int)
    ensures
        color_count(cell_step(s, cell, x, y).cmds) == color_count(s.cmds) + (match cell {
            Cell::Keep => 0int,
            Cell::Draw { char, color } => if s.last == Some(color) {
                0int
            } else {
                1int
            },
        }),
{
    match cell {
        Cell::Keep => {},
        Cell::Draw { char, color } => {
            let moved = if s.needs_move {
                s.cmds.push(Command::MoveTo(x as u16, y as u16))
            } else {
                s.cmds
            };
            let colored = if s.last != Some(color) {
                moved.push(Command::SetForeground(color))
            } else {
                moved
            };
            if s.needs_move {
                lemma_color_count_push(s.cmds, Command::MoveTo(x as u16, y as u16));
            }
            if s.last != Some(color) {
                lemma_color_count_push(moved, Command::SetForeground(color));
            }
            lemma_color_count_push(colored, Command::Print(char));
        },
    }
}

/// Presenting a row prefix emits one color command per color change in
/// it, and afterwards the last emitted color is the last drawn one.
proof fn lemma_row_colors(a: Seq<Cell>, w: int, y: int, x: int, base: EmitState)
    requires
        0 <= x,
        0 <= y * w,
    ensures
        color_count(row_prefix(a, w, y, x, base).cmds) == color_count(base.cmds) + change_count(
            drawn_colors(a, y * w, y * w + x),
            base.last,
        ),
        row_prefix(a, w, y, x, base).last == last_color(
            drawn_colors(a, y * w, y * w + x),
            base.last,
        ),
    decreases x,
{
    if x <= 0 {
    } else {
        lemma_row_colors(a, w, y, x - 1, base);
        let s = row_prefix(a, w, y, x - 1, base);
        lemma_cell_step_colors(s, a[y * w + (x - 1)], x - 1, y);
        match a[y * w + (x - 1)] {
            Cell::Keep => {},
            Cell::Draw { char, color } => {
                assert(drawn_colors(a, y * w, y * w + x).drop_last() =~= drawn_colors(
                    a,
                    y * w,
                    y * w + x - 1,
                ));
            },
        }
    }
}

/// Splitting the drawn colors of a cell range at any midpoint.
proof fn lemma_drawn_colors_concat(a: Seq<Cell>, from: int, mid: int, to: int)
    requires
        from <= mid <= to,
    ensures
        drawn_colors(a, from, to) == drawn_colors(a, from, mid) + drawn_colors(a, mid, to),
    decreases to - mid,
{
    if to <= mid {
        assert(drawn_colors(a, from, to) =~= drawn_colors(a, from, mid) + drawn_colors(
            a,
            mid,
            to,
        ));
    } else {
        lemma_drawn_colors_concat(a, from, mid, to - 1);
        match a[to - 1] {
            Cell::Keep => {},
            Cell::Draw { char, color } => {
                assert(drawn_colors(a, from, to) =~= drawn_colors(a, from, mid) + drawn_colors(
                    a,
                    mid,
                    to,
                ));
            },
        }
    }
}

/// Color changes add up over a split run, threading the last color.
proof fn lemma_change_count_concat(s1: Seq<Color>, s2: Seq<Color>, prior: Option<Color>)
    ensures
        change_count(s1 + s2, prior) == change_count(s1, prior) + change_count(
            s2,
            last_color(s1, prior),
        ),
        last_color(s1 + s2, prior) == last_color(s2, last_color(s1, prior)),
    decreases s2.len(),
{
    if s2.len() == 0 {
        assert(s1 + s2 =~= s1);
    } else {
        lemma_change_count_concat(s1, s2.drop_last(), prior);
        assert((s1 + s2).drop_last() =~= s1 + s2.drop_last());
        assert((s1 + s2).last() == s2.last());
    }
}

/// Presenting whole rows emits one color command per color change along
/// their drawn cells, the last emitted color surviving row boundaries.
proof fn lemma_grid_colors(a: Seq<Cell>, w: int, y: int)
    requires
        0 <= w,
        0 <= y,
    ensures
        color_count(grid_prefix(a, w, y).cmds) == change_count(drawn_colors(a, 0, y * w), None),
        grid_prefix(a, w, y).last == last_color(drawn_colors(a, 0, y * w), None),
    decreases y,
{
    if y <= 0 {
        assert(0 * w == 0) by (nonlinear_arith);
    } else {
        lemma_grid_colors(a, w, y - 1);
        let s = grid_prefix(a, w, y - 1);
        assert(0 <= (y - 1) * w && (y - 1) * w + w == y * w) by (nonlinear_arith)
            requires
                0 <= w,
                1 <= y,
        ;
        lemma_row_colors(
            a,
            w,
            y - 1,
            w,
            EmitState { cmds: s.cmds, needs_move: true, last: s.last },
        );
        lemma_drawn_colors_concat(a, 0, (y - 1) * w, y * w);
        lemma_change_count_concat(
            drawn_colors(a, 0, (y - 1) * w),
            drawn_colors(a, (y - 1) * w, y * w),
            None,
        );
    }
}

/// Minimality of the color commands: presenting a grid emits exactly one
/// foreground-color command per color change along its drawn cells, in
/// frame order — a drawn cell whose color matches the last one emitted
/// adds none, even across row boundaries.
pub proof fn lemma_present_one_set_per_color_change(a: Seq<Cell>, w: int, h: int)
    requires
        0 <= w,
        0 <= h,
    ensures
        color_count(present_spec(a, w, h)) == change_count(drawn_colors(a, 0, h * w), None),
{
    lemma_grid_colors(a, w, h);
}

/// A kept cell leaves the emitter's command stream untouched, so a row of
/// kept cells emits nothing.
proof fn lemma_row_keep_silent(a: Seq<Cell>, w: int, y: int, x: int, base: EmitState)
    requires
        0 <= x,
        0 <= y * w,
        y * w + x <= a.len(),
        forall|i: int| 0 <= i < a.len() ==> a[i] is Keep,
    ensures
        row_prefix(a, w, y, x, base).cmds == base.cmds,
        row_prefix(a, w, y, x, base).last == base.last,
    decreases x,
{
    if x <= 0 {
    } else {
        lemma_row_keep_silent(a, w, y, x - 1, base);
    }
}

/// Minimality for an untouched frame: presenting a grid of only kept
/// cells emits no command at all.
pub proof fn lemma_present_keep_silent(a: Seq<Cell>, w: int, h: int)
    requires
        0 <= w,
        0 <= h,
        a.len() == h * w,
        forall|i: int| 0 <= i < a.len() ==> a[i] is Keep,
    ensures
        present_spec(a, w, h) == Seq::<Command>::empty(),
{
    lemma_grid_keep_silent(a, w, h);
}

/// Rows of kept cells emit nothing.
proof fn lemma_grid_keep_silent(a: Seq<Cell>, w: int, y: int)
    requires
        0 <= w,
        0 <= y,
        y * w <= a.len(),
        forall|i: int| 0 <= i < a.len() ==> a[i] is Keep,
    ensures
        grid_prefix(a, w, y).cmds == Seq::<Command>::empty(),
    decreases y,
{
    if y <= 0 {
    } else {
        assert(0 <= (y - 1) * w && (y - 1) * w + w == y * w) by (nonlinear_arith)
            requires
                0 <= w,
                1 <= y,
        ;
        lemma_grid_keep_silent(a, w, y - 1);
        let s = grid_prefix(a, w, y - 1);
        lemma_row_keep_silent(
            a,
            w,
            y - 1,
            w,
            EmitState { cmds: s.cmds, needs_move: true, last: s.last },
        );
    }
}

/// The commands that acquire the terminal for an animation.
pub open spec fn startup_spec() -> Seq<Command> {
    seq![Command::HideCursor]
}

/// The commands that restore the terminal after an animation: move to the
/// origin, reset the foreground color, show the cursor again and purge the
/// screen.
pub open spec fn teardown_spec() -> Seq<Command> {
    seq![
        Command::MoveTo(0, 0),
        Command::SetForeground(Color::Reset),
        Command::ShowCursor,
        Command::Purge,
    ]
}

/// Returns the commands that acquire the terminal.
pub fn startup_commands() -> (c: Vec<Command>)
    ensures
        c@ == startup_spec(),
{
    let mut c: Vec<Command> = Vec::new();
    c.push(Command::HideCursor);
    proof {
        assert(c@ =~= startup_spec());
    }
    c
}

/// Returns the commands that restore the terminal. They run exactly once,
/// whether the animation completed, failed or was canceled.
pub fn teardown_commands() -> (c: Vec<Command>)
    ensures
        c@ == teardown_spec(),
{
    let mut c: Vec<Command> = Vec::new();
    c.push(Command::MoveTo(0, 0));
    c.push(Command::SetForeground(Color::Reset));
    c.push(Command::ShowCursor);
    c.push(Command::Purge);
    proof {
        assert(c@ =~= teardown_spec());
    }
    c
}

/// A surface to draw characters on: the grid buffer of one frame.
pub struct Surface {
    array: Array2D<Cell>,
}

impl Surface {
    /// The buffer is well formed and fits terminal coordinates.
    pub closed spec fn wf(&self) -> bool {
        &&& self.array.wf()
        &&& self.array.spec_width() <= u16::MAX
        &&& self.array.spec_height() <= u16::MAX
    }

    /// The number of columns.
    pub closed spec fn spec_width(&self) -> int {
        self.array.spec_width()
    }

    /// The number of rows.
    pub closed spec fn spec_height(&self) -> int {
        self.array.spec_height()
    }

    /// The cells in row-major order.
    pub closed spec fn cells(&self) -> Seq<Cell> {
        self.array@
    }

    /// Creates a surface for a terminal of the given size, with every cell
    /// keeping its glyph.
    pub fn new(width: u16, height: u16) -> (s: Surface)
        ensures
            s.wf(),
            s.spec_width() == width,
            s.spec_height() == height,
            s.cells() == Seq::new((width * height) as nat, |i: int| Cell::Keep),
    {
        proof {
            assert((width as int) * (height as int) <= usize::MAX) by (nonlinear_arith)
                requires
                    0 <= (width as int) <= 0xffff,
                    0 <= (height as int) <= 0xffff,
            ;
        }
        Surface { array: Array2D::new(width as usize, height as usize, Cell::Keep) }
    }

    /// A well-formed surface's cell count is the product of its
    /// dimensions, and both dimensions fit terminal coordinates.
    pub proof fn lemma_dims(&self)
        requires
            self.wf(),
        ensures
            self.cells().len() == self.spec_width() * self.spec_height(),
            0 <= self.spec_width() <= u16::MAX,
            0 <= self.spec_height() <= u16::MAX,
    {
        self.array.lemma_dims();
    }

    /// The number of columns.
    pub fn width(&self) -> (w: usize)
        ensures
            w == self.spec_width(),
    {
        self.array.width()
    }

    /// The number of rows.
    pub fn height(&self) -> (h: usize)
        ensures
            h == self.spec_height(),
    {
        self.array.height()
    }

    /// Resets every cell to keeping its glyph, as happens at the start of
    /// every frame.
    pub fn reset(&mut self)
        requires
            old(self).wf(),
        ensures
            final(self).wf(),
            final(self).spec_width() == old(self).spec_width(),
            final(self).spec_height() == old(self).spec_height(),
            final(self).cells() == Seq::new(old(self).cells().len(), |i: int| Cell::Keep),
    {
        self.array.fill(Cell::Keep);
    }

    /// Overwrites the character at the given position.
    pub fn draw(&mut self, x: usize, y: usize, char: char, color: Color)
        requires
            old(self).wf(),
            x < old(self).spec_width(),
            y < old(self).spec_height(),
        ensures
            final(self).wf(),
            final(self).spec_width() == old(self).spec_width(),
            final(self).spec_height() == old(self).spec_height(),
            final(self).cells() == old(self).cells().update(
                x + y * old(self).spec_width(),
                Cell::Draw { char, color },
            ),
    {
        self.array.set((x, y), Cell::Draw { char, color });
    }

    /// Clears the character at the given position: draws a space in the
    /// reset color.
    pub fn clear(&mut self, x: usize, y: usize)
        requires
            old(self).wf(),
            x < old(self).spec_width(),
            y < old(self).spec_height(),
        ensures
            final(self).wf(),
            final(self).spec_width() == old(self).spec_width(),
            final(self).spec_height() == old(self).spec_height(),
            final(self).cells() == old(self).cells().update(
                x + y * old(self).spec_width(),
                Cell::Draw { char: ' ', color: Color::Reset },
            ),
    {
        self.array.set((x, y), Cell::Draw { char: ' ', color: Color::Reset });
    }

    /// Presents the finished frame: the minimal command stream that brings
    /// the terminal to the buffered state.
    pub fn present(&self) -> (cmds: Vec<Command>)
        requires
            self.wf(),
        ensures
            cmds@ == present_spec(self.cells(), self.spec_width(), self.spec_height()),
    {
        let w = self.array.width();
        let h = self.array.height();
        let mut out: Vec<Command> = Vec::new();
        let mut last: Option<Color> = None;
        let mut y: usize = 0;
        while y < h
            invariant
                y <= h,
                self.wf(),
                w == self.spec_width(),
                h == self.spec_height(),
                out@ == grid_prefix(self.cells(), w as int, y as int).cmds,
                last == grid_prefix(self.cells(), w as int, y as int).last,
            decreases h - y,
        {
            let ghost row_base = EmitState {
                cmds: grid_prefix(self.cells(), w as int, y as int).cmds,
                needs_move: true,
                last: grid_prefix(self.cells(), w as int, y as int).last,
            };
            let mut needs_move = true;
            let mut x: usize = 0;
            while x < w
                invariant
                    x <= w,
                    y < h,
                    self.wf(),
                    w == self.spec_width(),
                    h == self.spec_height(),
                    row_base == (EmitState {
                        cmds: grid_prefix(self.cells(), w as int, y as int).cmds,
                        needs_move: true,
                        last: grid_prefix(self.cells(), w as int, y as int).last,
                    }),
                    out@ == row_prefix(self.cells(), w as int, y as int, x as int, row_base).cmds,
                    needs_move == row_prefix(
                        self.cells(),
                        w as int,
                        y as int,
                        x as int,
                        row_base,
                    ).needs_move,
                    last == row_prefix(self.cells(), w as int, y as int, x as int, row_base).last,
                decreases w - x,
            {
                let ghost before = row_prefix(self.cells(), w as int, y as int, x as int, row_base);
                match self.array.get((x, y)) {
                    Cell::Keep => {
                        needs_move = true;
                    },
                    Cell::Draw { char, color } => {
                        if needs_move {
                            needs_move = false;
                            out.push(Command::MoveTo(x as u16, y as u16));
                        }
                        let same = match last {
                            Some(c) => c == color,
                            None => false,
                        };
                        if !same {
                            last = Some(color);
                            out.push(Command::SetForeground(color));
                        }
                        out.push(Command::Print(char));
                    },
                }
                proof {
                    assert(row_prefix(self.cells(), w as int, y as int, x + 1, row_base)
                        == cell_step(before, self.cells()[y * w + x], x as int, y as int));
                }
                x += 1;
            }
            proof {
                assert(grid_prefix(self.cells(), w as int, y + 1) == row_prefix(
                    self.cells(),
                    w as int,
                    y as int,
                    w as int,
                    row_base,
                ));
            }
            y += 1;
        }
        out
    }
}

} // verus!
