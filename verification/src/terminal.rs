//! The terminal as the editor sees it: how large the window is, and the
//! control sequences that repaint it.

use crate::position::ScreenPosition;
use vstd::prelude::*;

verus! {

/// The two characters that introduce a control sequence.
pub open spec fn introducer() -> Seq<char> {
    seq!['\x1b', '[']
}

/// The sequence that clears the whole screen.
pub open spec fn clear_all() -> Seq<char> {
    introducer() + seq!['2', 'J']
}

/// The sequence that clears the line the cursor is on.
pub open spec fn clear_line() -> Seq<char> {
    introducer() + seq!['2', 'K']
}

/// The sequence that hides the cursor.
pub open spec fn hide_cursor() -> Seq<char> {
    introducer() + seq!['?', '2', '5', 'l']
}

/// The sequence that shows the cursor.
pub open spec fn show_cursor() -> Seq<char> {
    introducer() + seq!['?', '2', '5', 'h']
}

/// The character for a single decimal digit.
pub open spec fn digit(d: int) -> char {
    ('0' as int + d) as char
}

/// `n` written in decimal, without sign, padding or leading zeros.
pub open spec fn decimal(n: nat) -> Seq<char>
    decreases n,
{
    if n < 10 {
        seq![digit(n as int)]
    } else {
        decimal(n / 10).push(digit((n % 10) as int))
    }
}

/// The sequence that puts the cursor on the cell in column `column` of row
/// `row`, both counted from one. The row is written first.
pub open spec fn goto(column: int, row: int) -> Seq<char> {
    introducer() + decimal(row as nat) + seq![';'] + decimal(column as nat) + seq!['H']
}

/// The number that the terminal uses for the screen coordinate `cell`: one
/// more, held back at the largest number a terminal coordinate can be.
pub open spec fn one_based(cell: int) -> int {
    if cell < u16::MAX {
        cell + 1
    } else {
        u16::MAX as int
    }
}

/// The size of the window, in cells.
#[derive(Clone, Copy, Debug, PartialEq, Eq, Structural)]
pub struct Size {
    pub width: u16,
    pub height: u16,
}

/// The window that the editor draws into.
pub struct Terminal {
    size: Size,
}

impl View for Terminal {
    type V = Size;

    closed spec fn view(&self) -> Size {
        self.size
    }
}

impl Terminal {
    /// The terminal for a device that reports `reported.0` columns and
    /// `reported.1` rows. The last two rows are kept free, so the window is
    /// two rows shorter than the device (and empty on a device of two rows
    /// or fewer).
    pub fn default(reported: (u16, u16)) -> (terminal: Terminal)
        ensures
            terminal@.width == reported.0,
            terminal@.height == if reported.1 >= 2 {
                reported.1 - 2
            } else {
                0
            },
    {
        Terminal { size: Size { width: reported.0, height: reported.1.saturating_sub(2) } }
    }

    /// The size of the window.
    pub fn size(&self) -> (size: &Size)
        ensures
            *size == self@,
    {
        &self.size
    }

    /// The sequence that clears the whole screen, as `termion::clear::All`
    /// displays it: the introducer followed by `2J`.
    #[verifier::external_body]
    pub fn clear_screen() -> (sequence: String)
        ensures
            sequence@ == clear_all(),
    {
        format!("{}", termion::clear::All)
    }

    /// The sequence that puts the cursor on the screen cell `position`. The
    /// terminal counts from one, so each coordinate is sent one higher.
    pub fn cursor_position(position: &ScreenPosition) -> (sequence: String)
        ensures
            sequence@ == goto(one_based(position@.x), one_based(position@.y)),
    {
        let column: u16 = if position.x < u16::MAX as usize {
            (position.x + 1) as u16
        } else {
            u16::MAX
        };
        let row: u16 = if position.y < u16::MAX as usize {
            (position.y + 1) as u16
        } else {
            u16::MAX
        };
        goto_sequence(column, row)
    }

    /// The sequence that hides the cursor, as `termion::cursor::Hide`
    /// displays it: the introducer followed by `?25l`.
    #[verifier::external_body]
    pub fn cursor_hide() -> (sequence: String)
        ensures
            sequence@ == hide_cursor(),
    {
        format!("{}", termion::cursor::Hide)
    }

    /// The sequence that shows the cursor, as `termion::cursor::Show`
    /// displays it: the introducer followed by `?25h`.
    #[verifier::external_body]
    pub fn cursor_show() -> (sequence: String)
        ensures
            sequence@ == show_cursor(),
    {
        format!("{}", termion::cursor::Show)
    }

    /// The sequence that clears the line the cursor is on, as
    /// `termion::clear::CurrentLine` displays it: the introducer followed by
    /// `2K`.
    #[verifier::external_body]
    pub fn clear_current_line() -> (sequence: String)
        ensures
            sequence@ == clear_line(),
    {
        format!("{}", termion::clear::CurrentLine)
    }
}

/// The sequence that `termion::cursor::Goto(column, row)` displays: the
/// introducer, the row in decimal, a semicolon, the column in decimal and
/// `H`. Displaying `Goto(0, 0)` fails an assertion of that crate, so one of
/// the two numbers has to differ from zero.
#[verifier::external_body]
fn goto_sequence(column: u16, row: u16) -> (sequence: String)
    requires
        column != 0 || row != 0,
    ensures
        sequence@ == goto(column as int, row as int),
{
    format!("{}", termion::cursor::Goto(column, row))
}

} // verus!
