//! The interactive core of a small terminal text viewer.
//!
//! The crate keeps a buffer of lines, a cursor inside it and a scrolled
//! window onto it, and turns each state into the characters that repaint the
//! terminal. It performs no input or output of its own: a caller hands in the
//! keys that were read and writes out the frames that come back.
//!
//! - `row`, `document`: the buffer and its lines.
//! - `position`: the coordinate types, kept apart by the space they live in.
//! - `input`: which key asks for what.
//! - `viewport`: how the cursor moves and how the window follows it.
//! - `session`: the state of a session and what a key makes of it.
//! - `terminal`: the size of the window and the control sequences.
//! - `frame`: the characters that paint a state.
//! - `turn`: one turn of the run loop, from event to action.
//! - `editor`: the session itself, which carries all of this out.

pub mod document;
pub mod editor;
pub mod frame;
pub mod input;
pub mod position;
pub mod row;
pub mod session;
pub mod terminal;
pub mod turn;
pub mod viewport;

pub use document::Document;
pub use editor::Editor;
pub use input::{dispatch, Command, Direction, Key};
pub use position::{Point, Position, ScreenOffset, ScreenPosition};
pub use row::Row;
pub use session::{EditorView, RunState};
pub use terminal::{Size, Terminal};
pub use turn::{die, Action, Event, Fatal, Reaction};
