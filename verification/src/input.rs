//! From keys to commands.

use vstd::prelude::*;

verus! {

/// A key as the terminal reports it.
#[derive(Clone, Copy, Debug, PartialEq, Eq, Structural)]
pub enum Key {
    Backspace,
    Left,
    Right,
    Up,
    Down,
    Home,
    End,
    PageUp,
    PageDown,
    BackTab,
    Delete,
    Insert,
    /// A function key, by its number.
    F(u8),
    /// A plain character.
    Char(char),
    /// A character typed with Alt held down.
    Alt(char),
    /// A character typed with Ctrl held down.
    Ctrl(char),
    Null,
    Esc,
}

/// A way to move the cursor.
#[derive(Clone, Copy, Debug, PartialEq, Eq, Structural)]
pub enum Direction {
    Up,
    Down,
    Left,
    Right,
    Home,
    End,
    PageUp,
    PageDown,
}

/// What a key asks for.
#[derive(Clone, Copy, Debug, PartialEq, Eq, Structural)]
pub enum Command {
    /// Leave the editor.
    Quit,
    /// Move the cursor.
    Move(Direction),
    /// Nothing: the key has no meaning here.
    Ignore,
}

/// The command bound to `key`: Ctrl-Q quits, the arrows, Home, End, Page Up
/// and Page Down move, every other key is ignored.
pub open spec fn command_for(key: Key) -> Command {
    match key {
        Key::Ctrl(c) => if c == 'q' {
            Command::Quit
        } else {
            Command::Ignore
        },
        Key::Up => Command::Move(Direction::Up),
        Key::Down => Command::Move(Direction::Down),
        Key::Left => Command::Move(Direction::Left),
        Key::Right => Command::Move(Direction::Right),
        Key::Home => Command::Move(Direction::Home),
        Key::End => Command::Move(Direction::End),
        Key::PageUp => Command::Move(Direction::PageUp),
        Key::PageDown => Command::Move(Direction::PageDown),
        _ => Command::Ignore,
    }
}

/// Maps a key to its command.
pub fn dispatch(key: Key) -> (command: Command)
    ensures
        command == command_for(key),
{
    match key {
        Key::Ctrl(c) => {
            if c == 'q' {
                Command::Quit
            } else {
                Command::Ignore
            }
        },
        Key::Up => Command::Move(Direction::Up),
        Key::Down => Command::Move(Direction::Down),
        Key::Left => Command::Move(Direction::Left),
        Key::Right => Command::Move(Direction::Right),
        Key::Home => Command::Move(Direction::Home),
        Key::End => Command::Move(Direction::End),
        Key::PageUp => Command::Move(Direction::PageUp),
        Key::PageDown => Command::Move(Direction::PageDown),
        _ => Command::Ignore,
    }
}

} // verus!
