//! One turn of the run loop at a time.
//!
//! The loop itself belongs to the caller, who owns the terminal: it hands in
//! what happened and carries out what comes back. A session starts with
//! `Event::Started`; after `Action::Draw` the caller writes the frame, reads
//! a key and hands it in; after `Action::Exit` it writes the frame and
//! stops. A failure to read or to write is handed in as `Event::Fault` and
//! answered by `Action::Abort`.

use crate::frame::{farewell, frame, line_end};
use crate::input::{command_for, Command, Key};
use crate::session::{after_key, EditorView, RunState};
use crate::terminal::{clear_all, goto, hide_cursor, show_cursor, Terminal};
use vstd::prelude::*;

verus! {

/// What the caller reports to the editor.
pub enum Event {
    /// The session begins: nothing has been read yet.
    Started,
    /// A key was read.
    Key(Key),
    /// The terminal failed; the text describes the failure.
    Fault(String),
}

/// How a session is given up after a failure of the terminal.
pub struct Fatal {
    /// What is still written to the terminal, as far as it takes it.
    pub cleanup: String,
    /// The message that the process ends with.
    pub message: String,
}

/// What the caller is to do next.
pub enum Action {
    /// Write this frame, then read a key.
    Draw(String),
    /// Write this frame, the last one, and leave.
    Exit(String),
    /// Give up.
    Abort(Fatal),
}

/// What an action stands for in contracts.
pub enum Reaction {
    Draw(Seq<char>),
    Exit(Seq<char>),
    Abort { cleanup: Seq<char>, message: Seq<char> },
}

impl View for Action {
    type V = Reaction;

    open spec fn view(&self) -> Reaction {
        match *self {
            Action::Draw(text) => Reaction::Draw(text@),
            Action::Exit(text) => Reaction::Exit(text@),
            Action::Abort(fatal) => Reaction::Abort {
                cleanup: fatal.cleanup@,
                message: fatal.message@,
            },
        }
    }
}

/// The message that ends the process after the failure that `error`
/// describes.
pub open spec fn fatal_message(error: Seq<char>) -> Seq<char> {
    "Error: "@ + error + seq!['\r']
}

/// The state after `event`. Only a key changes it, and only while the
/// session is running.
pub open spec fn after_event(state: EditorView, event: Event) -> EditorView {
    match event {
        Event::Key(key) => match state.stage {
            RunState::Running => after_key(state, key),
            RunState::Quitting => state,
        },
        _ => state,
    }
}

/// The answer to `event` in the state `next` that the event has led to: a
/// fault is answered by giving up, with the screen cleared; everything else
/// by a repaint, which is the last one once the session is quitting.
pub open spec fn reaction(next: EditorView, event: Event) -> Reaction {
    match event {
        Event::Fault(error) => Reaction::Abort {
            cleanup: clear_all(),
            message: fatal_message(error@),
        },
        _ => match next.stage {
            RunState::Running => Reaction::Draw(frame(next)),
            RunState::Quitting => Reaction::Exit(frame(next)),
        },
    }
}

/// Gives the session up after the failure that `error` describes: one last
/// attempt to clear the screen, and the message to end with.
pub fn die(error: &str) -> (fatal: Fatal)
    ensures
        fatal.cleanup@ == clear_all(),
        fatal.message@ == fatal_message(error@),
{
    let mut message = String::from_str("Error: ");
    message.append(error);
    message.append("\r");
    proof {
        reveal_strlit("\r");
        assert("\r"@ =~= seq!['\r']);
    }
    Fatal { cleanup: Terminal::clear_screen(), message }
}

/// The quit key ends a running session: the state turns to quitting, and the
/// answer is the last frame, which clears the screen and bids farewell.
pub proof fn lemma_quit_ends_session(state: EditorView, key: Key)
    requires
        state.stage is Running,
        command_for(key) == Command::Quit,
    ensures
        after_event(state, Event::Key(key)).stage is Quitting,
        reaction(after_event(state, Event::Key(key)), Event::Key(key)) == Reaction::Exit(
            hide_cursor() + clear_all() + goto(1, 1) + (clear_all() + farewell() + line_end())
                + show_cursor(),
        ),
{
}

/// A session that is quitting stays as it is whatever is handed in: no key
/// is carried out any more, and every repaint is the last one.
pub proof fn lemma_quitting_stays(state: EditorView, event: Event)
    requires
        state.stage is Quitting,
    ensures
        after_event(state, event) == state,
        !(event is Fault) ==> reaction(after_event(state, event), event) == Reaction::Exit(
            frame(state),
        ),
{
}

/// While a session is running and no fault is handed in, the answer is
/// always a frame to draw before the next key, unless the key was the quit
/// key.
pub proof fn lemma_running_draws(state: EditorView, event: Event)
    requires
        state.stage is Running,
        !(event is Fault),
    ensures
        reaction(after_event(state, event), event) is Draw <==> !(event matches Event::Key(key)
            && command_for(key) == Command::Quit),
{
}

} // verus!
