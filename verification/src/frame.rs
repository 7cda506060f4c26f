//! What a state looks like on the screen, as a sequence of characters.

use crate::position::Point;
use crate::row::window;
use crate::session::{EditorView, RunState};
use crate::terminal::{clear_all, clear_line, goto, hide_cursor, one_based, show_cursor};
use vstd::prelude::*;

verus! {

/// The version that the welcome banner names.
pub const VERSION: &'static str = "0.1.0";

/// The end of a drawn line: carriage return, line feed.
pub open spec fn line_end() -> Seq<char> {
    seq!['\r', '\n']
}

/// The line that stands for a screen row below the end of the buffer.
pub open spec fn placeholder() -> Seq<char> {
    seq!['~']
}

/// The text of the welcome banner: the editor's name and version.
pub open spec fn banner() -> Seq<char> {
    "Hecto editor -- version "@ + VERSION@
}

/// The line that bids farewell when the session ends.
pub open spec fn farewell() -> Seq<char> {
    "Keep planting."@
}

/// The welcome line for a window `width` cells wide: a tilde, then blanks
/// that bring the banner near the middle, then the banner, all cut off at
/// the window's width. The blanks are one fewer than half the room that the
/// banner leaves.
pub open spec fn welcome(width: int) -> Seq<char> {
    let text = banner();
    let room = if width > text.len() {
        width - text.len()
    } else {
        0
    };
    let blanks = if room / 2 > 0 {
        room / 2 - 1
    } else {
        0
    };
    let line = placeholder() + Seq::new(blanks as nat, |i: int| ' ') + text;
    if 0 <= width < line.len() {
        line.take(width)
    } else {
        line
    }
}

/// What a screen row holds.
pub enum RowKind {
    /// The line of the buffer with this index.
    Content(int),
    /// The welcome line.
    Welcome,
    /// Nothing: the row lies below the end of the buffer.
    Placeholder,
}

/// What screen row `r` holds: the line of the buffer that the window brings
/// there; without such a line, the welcome line on the row a third of the
/// way down, if the buffer has no lines at all; and a placeholder on every
/// other row.
pub open spec fn row_kind(state: EditorView, r: int) -> RowKind {
    if 0 <= r + state.offset.y < state.lines.len() {
        RowKind::Content(r + state.offset.y)
    } else if state.lines.len() == 0 && r == state.size.height / 3 {
        RowKind::Welcome
    } else {
        RowKind::Placeholder
    }
}

/// The text of screen row `r`, without the line end. A line of the buffer is
/// shown from the window's first column on, as far as the window is wide.
pub open spec fn screen_row(state: EditorView, r: int) -> Seq<char> {
    match row_kind(state, r) {
        RowKind::Content(y) => window(
            state.lines[y],
            state.offset.x,
            state.offset.x + state.size.width,
        ),
        RowKind::Welcome => welcome(state.size.width as int),
        RowKind::Placeholder => placeholder(),
    }
}

/// The first `n` screen rows as they are drawn: each is cleared, filled and
/// ended.
pub open spec fn rows(state: EditorView, n: int) -> Seq<char>
    decreases n,
{
    if n <= 0 {
        Seq::empty()
    } else {
        rows(state, n - 1) + clear_line() + screen_row(state, n - 1) + line_end()
    }
}

/// The screen cell of the cursor: its place in the buffer less the window's
/// offset, and the first cell along an axis on which the cursor lies before
/// the window.
pub open spec fn cursor_cell(state: EditorView) -> Point {
    Point {
        x: if state.cursor.x > state.offset.x {
            state.cursor.x - state.offset.x
        } else {
            0
        },
        y: if state.cursor.y > state.offset.y {
            state.cursor.y - state.offset.y
        } else {
            0
        },
    }
}

/// What is drawn between hiding the cursor and showing it again: for a
/// running session every row of the window and then the cursor in its cell,
/// for a session that ends a cleared screen and the farewell.
pub open spec fn body(state: EditorView) -> Seq<char> {
    match state.stage {
        RunState::Quitting => clear_all() + farewell() + line_end(),
        RunState::Running => rows(state, state.size.height as int) + goto(
            one_based(cursor_cell(state).x),
            one_based(cursor_cell(state).y),
        ),
    }
}

/// One full repaint: the cursor is hidden, the screen cleared, the cursor
/// sent to the top-left cell, the body drawn, and the cursor shown again.
pub open spec fn frame(state: EditorView) -> Seq<char> {
    hide_cursor() + clear_all() + goto(1, 1) + body(state) + show_cursor()
}

/// The welcome line is drawn only for a buffer without lines, and then on
/// exactly one row of the window: the row a third of the way down.
pub proof fn lemma_welcome_once(state: EditorView, r: int)
    requires
        0 <= r < state.size.height,
    ensures
        row_kind(state, r) is Welcome <==> state.lines.len() == 0 && r == state.size.height / 3,
        0 <= state.size.height / 3 < state.size.height,
{
}

/// A window onto a buffer without lines shows the welcome line on the row a
/// third of the way down and a placeholder on every other row.
pub proof fn lemma_rows_of_empty_buffer(state: EditorView, r: int)
    requires
        state.lines.len() == 0,
        0 <= r < state.size.height,
    ensures
        r == state.size.height / 3 ==> screen_row(state, r) == welcome(state.size.width as int),
        r != state.size.height / 3 ==> screen_row(state, r) == placeholder(),
{
}

/// A row of the window that a line of the buffer falls on shows that line,
/// and a row below the end of a buffer that has lines shows a placeholder.
pub proof fn lemma_rows_of_buffer(state: EditorView, r: int)
    requires
        state.lines.len() > 0,
        state.offset.y >= 0,
        0 <= r < state.size.height,
    ensures
        r + state.offset.y < state.lines.len() ==> screen_row(state, r) == window(
            state.lines[r + state.offset.y],
            state.offset.x,
            state.offset.x + state.size.width,
        ),
        r + state.offset.y >= state.lines.len() ==> screen_row(state, r) == placeholder(),
{
}

} // verus!
