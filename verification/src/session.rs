//! The editor's state as a mathematical value, and how keys change it.

use crate::input::{command_for, Command, Direction, Key};
use crate::position::Point;
use crate::terminal::Size;
use crate::viewport::{followed, in_view, moved, valid};
use vstd::prelude::*;

verus! {

/// The two stages of a session. Quitting is final: nothing leads back.
#[derive(Clone, Copy, Debug, PartialEq, Eq, Structural)]
pub enum RunState {
    Running,
    Quitting,
}

/// What an editor stands for in contracts.
pub struct EditorView {
    /// Whether the session goes on or has been asked to end.
    pub stage: RunState,
    /// Where the cursor is in the buffer.
    pub cursor: Point,
    /// The buffer coordinate of the window's top-left cell.
    pub offset: Point,
    /// The lines of the buffer.
    pub lines: Seq<Seq<char>>,
    /// The size of the window.
    pub size: Size,
}

/// Whether the cursor lies in the buffer.
pub open spec fn cursor_in_buffer(state: EditorView) -> bool {
    valid(state.cursor, state.lines)
}

/// Whether the window shows the cursor, along each axis on which the window
/// has room for at least one cell.
pub open spec fn cursor_in_window(state: EditorView) -> bool {
    &&& state.size.width > 0 ==> in_view(state.cursor.x, state.offset.x, state.size.width as int)
    &&& state.size.height > 0 ==> in_view(
        state.cursor.y,
        state.offset.y,
        state.size.height as int,
    )
}

/// The state at the start of a session on `lines` in a window of `size`.
pub open spec fn initial(lines: Seq<Seq<char>>, size: Size) -> EditorView {
    EditorView {
        stage: RunState::Running,
        cursor: Point { x: 0, y: 0 },
        offset: Point { x: 0, y: 0 },
        lines,
        size,
    }
}

/// The state after the cursor has moved in `direction`. A page is as many
/// lines as the window is high. The window stays where it is.
pub open spec fn after_move(state: EditorView, direction: Direction) -> EditorView {
    EditorView {
        cursor: moved(state.cursor, direction, state.lines, state.size.height as int),
        ..state
    }
}

/// The state after the window has followed the cursor.
pub open spec fn after_scroll(state: EditorView) -> EditorView {
    EditorView {
        offset: Point {
            x: followed(state.cursor.x, state.offset.x, state.size.width as int),
            y: followed(state.cursor.y, state.offset.y, state.size.height as int),
        },
        ..state
    }
}

/// The state after `key` has been pressed: its command is carried out, then
/// the window follows the cursor.
pub open spec fn after_key(state: EditorView, key: Key) -> EditorView {
    after_scroll(
        match command_for(key) {
            Command::Quit => EditorView { stage: RunState::Quitting, ..state },
            Command::Move(direction) => after_move(state, direction),
            Command::Ignore => state,
        },
    )
}

/// Where a sequence of keys, pressed in order, brings the state.
pub open spec fn after_keys(state: EditorView, keys: Seq<Key>) -> EditorView
    decreases keys.len(),
{
    if keys.len() == 0 {
        state
    } else {
        after_key(after_keys(state, keys.drop_last()), keys.last())
    }
}

/// Scrolling brings the cursor into the window.
pub proof fn lemma_scroll_shows_cursor(state: EditorView)
    ensures
        cursor_in_window(after_scroll(state)),
{
}

/// Scrolling changes nothing where the window shows the cursor already.
pub proof fn lemma_scroll_settles(state: EditorView)
    requires
        state.size.width > 0,
        state.size.height > 0,
        cursor_in_window(state),
    ensures
        after_scroll(state) == state,
{
}

/// A move keeps the cursor in the buffer.
pub proof fn lemma_move_keeps_cursor(state: EditorView, direction: Direction)
    requires
        cursor_in_buffer(state),
    ensures
        cursor_in_buffer(after_move(state, direction)),
{
}

/// A key press keeps the cursor in the buffer and leaves it in the window.
pub proof fn lemma_key_keeps_cursor(state: EditorView, key: Key)
    requires
        cursor_in_buffer(state),
    ensures
        cursor_in_buffer(after_key(state, key)),
        cursor_in_window(after_key(state, key)),
{
}

/// However many keys are pressed, the cursor stays in the buffer, and from
/// the first key on it is in the window.
pub proof fn lemma_keys_keep_cursor(state: EditorView, keys: Seq<Key>)
    requires
        cursor_in_buffer(state),
    ensures
        cursor_in_buffer(after_keys(state, keys)),
        keys.len() > 0 ==> cursor_in_window(after_keys(state, keys)),
    decreases keys.len(),
{
    if keys.len() > 0 {
        lemma_keys_keep_cursor(state, keys.drop_last());
        lemma_key_keeps_cursor(after_keys(state, keys.drop_last()), keys.last());
    }
}

/// Once a session is quitting, no key brings it back.
pub proof fn lemma_quitting_is_final(state: EditorView, key: Key)
    requires
        state.stage is Quitting,
    ensures
        after_key(state, key).stage is Quitting,
{
}

/// The quit key, and no other, ends a running session: it changes the stage
/// and leaves the cursor where it was.
pub proof fn lemma_quit_key(state: EditorView, key: Key)
    requires
        state.stage is Running,
    ensures
        after_key(state, key).stage is Quitting <==> key == Key::Ctrl('q'),
        after_key(state, key).stage is Quitting ==> after_key(state, key).cursor == state.cursor,
{
}

/// Keys never change the buffer or the size of the window.
pub proof fn lemma_keys_keep_buffer(state: EditorView, keys: Seq<Key>)
    ensures
        after_keys(state, keys).lines == state.lines,
        after_keys(state, keys).size == state.size,
    decreases keys.len(),
{
    if keys.len() > 0 {
        lemma_keys_keep_buffer(state, keys.drop_last());
    }
}

/// A buffer with fewer lines than the window has rows is never scrolled
/// down: the window stays at the first line whatever keys are pressed.
pub proof fn lemma_short_buffer_stays(state: EditorView, keys: Seq<Key>)
    requires
        cursor_in_buffer(state),
        state.offset.y == 0,
        state.lines.len() < state.size.height,
    ensures
        after_keys(state, keys).offset.y == 0,
    decreases keys.len(),
{
    if keys.len() > 0 {
        lemma_short_buffer_stays(state, keys.drop_last());
        lemma_keys_keep_cursor(state, keys.drop_last());
        lemma_keys_keep_buffer(state, keys.drop_last());
        lemma_key_keeps_cursor(after_keys(state, keys.drop_last()), keys.last());
    }
}

/// A buffer whose lines are all shorter than the window is wide is never
/// scrolled sideways: the window stays at the first column whatever keys are
/// pressed.
pub proof fn lemma_narrow_buffer_stays(state: EditorView, keys: Seq<Key>)
    requires
        cursor_in_buffer(state),
        state.offset.x == 0,
        state.size.width > 0,
        forall|y: int|
            0 <= y < state.lines.len() ==> (#[trigger] state.lines[y]).len() < state.size.width,
    ensures
        after_keys(state, keys).offset.x == 0,
    decreases keys.len(),
{
    if keys.len() > 0 {
        lemma_narrow_buffer_stays(state, keys.drop_last());
        lemma_keys_keep_cursor(state, keys.drop_last());
        lemma_keys_keep_buffer(state, keys.drop_last());
        lemma_key_keeps_cursor(after_keys(state, keys.drop_last()), keys.last());
    }
}

} // verus!
