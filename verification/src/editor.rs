//! The editor: a buffer, a cursor in it and a window onto it.

use crate::document::Document;
use crate::frame::{frame, line_end, placeholder, rows, screen_row, welcome, VERSION};
use crate::input::{dispatch, Command, Direction, Key};
use crate::position::{Position, ScreenOffset, ScreenPosition};
use crate::row::{window, Row};
use crate::session::{
    after_key, after_move, after_scroll, cursor_in_buffer, cursor_in_window, initial, EditorView,
    RunState,
};
use crate::terminal::{clear_line, Terminal};
use crate::turn::{after_event, die, reaction, Action, Event, Reaction};
use crate::viewport::followed;
use vstd::prelude::*;

verus! {

/// A session of the editor.
pub struct Editor {
    stage: RunState,
    terminal: Terminal,
    cursor_position: Position,
    offset: ScreenOffset,
    document: Document,
}

impl View for Editor {
    type V = EditorView;

    closed spec fn view(&self) -> EditorView {
        EditorView {
            stage: self.stage,
            cursor: self.cursor_position@,
            offset: self.offset@,
            lines: self.document@,
            size: self.terminal@,
        }
    }
}

/// The offset that follows `cursor` along one axis of a window of `size`
/// cells.
fn follow(cursor: usize, offset: usize, size: usize) -> (next: usize)
    ensures
        next == followed(cursor as int, offset as int, size as int),
{
    if cursor < offset {
        cursor
    } else if cursor - offset >= size {
        (cursor - size).saturating_add(1)
    } else {
        offset
    }
}

impl Editor {
    /// The cursor of an editor lies in its buffer, always.
    #[verifier::type_invariant]
    spec fn cursor_kept(self) -> bool {
        cursor_in_buffer(self@)
    }

    /// A session on `document` in the window of `terminal`: running, with
    /// the cursor and the window at the beginning of the buffer.
    pub fn default(document: Document, terminal: Terminal) -> (editor: Editor)
        ensures
            editor@ == initial(document@, terminal@),
            cursor_in_buffer(editor@),
            cursor_in_window(editor@),
    {
        Editor {
            stage: RunState::Running,
            terminal,
            cursor_position: Position { x: 0, y: 0 },
            offset: ScreenOffset { x: 0, y: 0 },
            document,
        }
    }

    /// Whether the session has been asked to end.
    pub fn should_quit(&self) -> (quit: bool)
        ensures
            quit == (self@.stage is Quitting),
    {
        match self.stage {
            RunState::Running => false,
            RunState::Quitting => true,
        }
    }

    /// Where the cursor is in the buffer.
    pub fn cursor_position(&self) -> (cursor: Position)
        ensures
            cursor@ == self@.cursor,
            cursor_in_buffer(self@),
    {
        proof {
            use_type_invariant(self);
        }
        self.cursor_position
    }

    /// The buffer coordinate of the window's top-left cell.
    pub fn offset(&self) -> (offset: ScreenOffset)
        ensures
            offset@ == self@.offset,
    {
        self.offset
    }

    /// The buffer.
    pub fn document(&self) -> (document: &Document)
        ensures
            document@ == self@.lines,
    {
        &self.document
    }

    /// The terminal.
    pub fn terminal(&self) -> (terminal: &Terminal)
        ensures
            terminal@ == self@.size,
    {
        &self.terminal
    }

    /// Moves the cursor in `direction`. The window stays where it is.
    pub fn move_cursor(&mut self, direction: Direction)
        ensures
            final(self)@ == after_move(old(self)@, direction),
            cursor_in_buffer(final(self)@),
    {
        proof {
            use_type_invariant(&*self);
        }
        let page = self.terminal.size().height as usize;
        let mut x = self.cursor_position.x;
        let mut y = self.cursor_position.y;
        let height = self.document.len();
        let mut width = match self.document.row(y) {
            Some(row) => row.len(),
            None => 0,
        };
        match direction {
            Direction::Up => {
                y = y.saturating_sub(1);
            },
            Direction::Down => {
                if y < height {
                    y = y + 1;
                }
            },
            Direction::Left => {
                if x > 0 {
                    x = x - 1;
                } else if y > 0 {
                    y = y - 1;
                    x = match self.document.row(y) {
                        Some(row) => row.len(),
                        None => 0,
                    };
                }
            },
            Direction::Right => {
                if x < width {
                    x = x + 1;
                } else if y < height {
                    y = y + 1;
                    x = 0;
                }
            },
            Direction::PageUp => {
                y = if y > page {
                    y - page
                } else {
                    0
                };
            },
            Direction::PageDown => {
                y = if y.saturating_add(page) < height {
                    y + page
                } else {
                    height
                };
            },
            Direction::Home => {
                x = 0;
            },
            Direction::End => {
                x = width;
            },
        }
        width = match self.document.row(y) {
            Some(row) => row.len(),
            None => 0,
        };
        if x > width {
            x = width;
        }
        self.cursor_position = Position { x, y };
    }

    /// Lets the window follow the cursor: along each axis the offset moves
    /// by the least amount that brings the cursor into the window.
    pub fn scroll(&mut self)
        ensures
            final(self)@ == after_scroll(old(self)@),
            cursor_in_buffer(final(self)@),
            cursor_in_window(final(self)@),
    {
        proof {
            use_type_invariant(&*self);
        }
        let width = self.terminal.size().width as usize;
        let height = self.terminal.size().height as usize;
        let x = follow(self.cursor_position.x, self.offset.x, width);
        let y = follow(self.cursor_position.y, self.offset.y, height);
        self.offset = ScreenOffset { x, y };
    }

    /// Carries out the command of `key`, then lets the window follow the
    /// cursor.
    pub fn process_keypress(&mut self, key: Key)
        ensures
            final(self)@ == after_key(old(self)@, key),
            cursor_in_buffer(final(self)@),
            cursor_in_window(final(self)@),
    {
        proof {
            use_type_invariant(&*self);
        }
        match dispatch(key) {
            Command::Quit => {
                self.stage = RunState::Quitting;
            },
            Command::Move(direction) => {
                self.move_cursor(direction);
            },
            Command::Ignore => {},
        }
        self.scroll();
    }

    /// The welcome line as it is drawn, line end included.
    pub fn draw_welcome_message(&self) -> (line: String)
        ensures
            line@ == welcome(self@.size.width as int) + line_end(),
    {
        let mut text = String::from_str("Hecto editor -- version ");
        text.append(VERSION);
        let width = self.terminal.size().width as usize;
        let len = text.as_str().unicode_len();
        let padding = width.saturating_sub(len) / 2;
        let blanks = padding.saturating_sub(1);
        let mut line = String::from_str("~");
        proof {
            reveal_strlit("~");
            reveal_strlit(" ");
            assert(line@ =~= placeholder() + Seq::new(0, |k: int| ' '));
        }
        let mut i: usize = 0;
        while i < blanks
            invariant
                i <= blanks,
                " "@ == seq![' '],
                line@ == placeholder() + Seq::new(i as nat, |k: int| ' '),
            decreases blanks - i,
        {
            line.append(" ");
            i = i + 1;
            assert(line@ =~= placeholder() + Seq::new(i as nat, |k: int| ' '));
        }
        line.append(text.as_str());
        let total = line.as_str().unicode_len();
        let mut shown = if width < total {
            String::from_str(line.as_str().substring_char(0, width))
        } else {
            line
        };
        shown.append("\r\n");
        proof {
            reveal_strlit("\r\n");
            assert("\r\n"@ =~= line_end());
        }
        shown
    }

    /// `row` as it is drawn, line end included: its columns from the
    /// window's first column on, as far as the window is wide.
    pub fn draw_row(&self, row: &Row) -> (line: String)
        ensures
            line@ == window(row@, self@.offset.x, self@.offset.x + self@.size.width) + line_end(),
    {
        let width = self.terminal.size().width as usize;
        let length = row.len();
        let start = self.offset.x;
        let reach = start.saturating_add(width);
        let end = if reach < length {
            reach
        } else {
            length
        };
        let mut line = row.render(start, end);
        line.append("\r\n");
        proof {
            reveal_strlit("\r\n");
            assert("\r\n"@ =~= line_end());
        }
        line
    }

    /// Every row of the window as it is drawn, from the top down.
    pub fn draw_rows(&self) -> (text: String)
        ensures
            text@ == rows(self@, self@.size.height as int),
    {
        let height = self.terminal.size().height;
        let mut text = String::new();
        let mut r: u16 = 0;
        while r < height
            invariant
                r <= height,
                height == self@.size.height,
                text@ == rows(self@, r as int),
            decreases height - r,
        {
            let ghost before = text@;
            text.append(Terminal::clear_current_line().as_str());
            let index = (r as usize).saturating_add(self.offset.y);
            proof {
                self.document.lemma_len_fits();
            }
            match self.document.row(index) {
                Some(row) => {
                    text.append(self.draw_row(row).as_str());
                },
                None => {
                    if self.document.is_empty() && r == height / 3 {
                        text.append(self.draw_welcome_message().as_str());
                    } else {
                        text.append("~\r\n");
                        proof {
                            reveal_strlit("~\r\n");
                            assert("~\r\n"@ =~= placeholder() + line_end());
                        }
                    }
                },
            }
            assert(text@ =~= before + clear_line() + screen_row(self@, r as int) + line_end());
            r = r + 1;
        }
        text
    }

    /// One full repaint of the screen for the present state.
    pub fn refresh_screen(&self) -> (text: String)
        ensures
            text@ == frame(self@),
    {
        let mut text = Terminal::cursor_hide();
        text.append(Terminal::clear_screen().as_str());
        text.append(Terminal::cursor_position(&ScreenPosition { x: 0, y: 0 }).as_str());
        match self.stage {
            RunState::Quitting => {
                text.append(Terminal::clear_screen().as_str());
                text.append("Keep planting.");
                text.append("\r\n");
                proof {
                    reveal_strlit("\r\n");
                    assert("\r\n"@ =~= line_end());
                }
            },
            RunState::Running => {
                text.append(self.draw_rows().as_str());
                let cell = ScreenPosition {
                    x: self.cursor_position.x.saturating_sub(self.offset.x),
                    y: self.cursor_position.y.saturating_sub(self.offset.y),
                };
                text.append(Terminal::cursor_position(&cell).as_str());
            },
        }
        text.append(Terminal::cursor_show().as_str());
        assert(text@ =~= frame(self@));
        text
    }

    /// Takes one turn of the run loop: a key that was read is carried out
    /// unless the session is quitting already, and the screen is painted
    /// anew; a fault ends the session at once.
    pub fn run(&mut self, event: Event) -> (action: Action)
        ensures
            final(self)@ == after_event(old(self)@, event),
            action@ == reaction(final(self)@, event),
            cursor_in_buffer(final(self)@),
            cursor_in_window(old(self)@) ==> cursor_in_window(final(self)@),
    {
        proof {
            use_type_invariant(&*self);
        }
        match event {
            Event::Fault(error) => Action::Abort(die(error.as_str())),
            Event::Key(key) => {
                if !self.should_quit() {
                    self.process_keypress(key);
                }
                self.repaint()
            },
            Event::Started => self.repaint(),
        }
    }

    /// The repaint that ends a turn: the last one once the session is
    /// quitting.
    fn repaint(&self) -> (action: Action)
        ensures
            action@ == (match self@.stage {
                RunState::Running => Reaction::Draw(frame(self@)),
                RunState::Quitting => Reaction::Exit(frame(self@)),
            }),
    {
        let text = self.refresh_screen();
        if self.should_quit() {
            Action::Exit(text)
        } else {
            Action::Draw(text)
        }
    }
}

} // verus!
