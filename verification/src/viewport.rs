//! How the cursor moves through the buffer and how the window follows it.
//!
//! Everything here is stated over mathematical integers and over the lines
//! of the buffer as sequences of characters.

use crate::input::Direction;
use crate::position::Point;
use vstd::prelude::*;

verus! {

/// The length of line `y`, and 0 where the buffer has no such line.
pub open spec fn line_len(lines: Seq<Seq<char>>, y: int) -> int {
    if 0 <= y < lines.len() {
        lines[y].len() as int
    } else {
        0
    }
}

/// Whether `cursor` lies in the buffer: on one of its lines and not past the
/// end of that line, or at the first column one line past the last.
pub open spec fn valid(cursor: Point, lines: Seq<Seq<char>>) -> bool {
    &&& 0 <= cursor.y <= lines.len()
    &&& 0 <= cursor.x <= line_len(lines, cursor.y)
}

/// Where `direction` takes the cursor before its column is fitted to the
/// line it arrives on. `page` is the number of lines that Page Up and Page
/// Down jump.
pub open spec fn stepped(
    cursor: Point,
    direction: Direction,
    lines: Seq<Seq<char>>,
    page: int,
) -> Point {
    let count = lines.len() as int;
    let width = line_len(lines, cursor.y);
    match direction {
        Direction::Up => Point { x: cursor.x, y: if cursor.y > 0 { cursor.y - 1 } else { 0 } },
        Direction::Down => Point {
            x: cursor.x,
            y: if cursor.y < count { cursor.y + 1 } else { cursor.y },
        },
        Direction::Left => if cursor.x > 0 {
            Point { x: cursor.x - 1, y: cursor.y }
        } else if cursor.y > 0 {
            Point { x: line_len(lines, cursor.y - 1), y: cursor.y - 1 }
        } else {
            cursor
        },
        Direction::Right => if cursor.x < width {
            Point { x: cursor.x + 1, y: cursor.y }
        } else if cursor.y < count {
            Point { x: 0, y: cursor.y + 1 }
        } else {
            cursor
        },
        Direction::Home => Point { x: 0, y: cursor.y },
        Direction::End => Point { x: width, y: cursor.y },
        Direction::PageUp => Point {
            x: cursor.x,
            y: if cursor.y > page { cursor.y - page } else { 0 },
        },
        Direction::PageDown => Point {
            x: cursor.x,
            y: if cursor.y + page < count { cursor.y + page } else { count },
        },
    }
}

/// `cursor` with its column pulled back to the end of its line.
pub open spec fn fitted(cursor: Point, lines: Seq<Seq<char>>) -> Point {
    let width = line_len(lines, cursor.y);
    Point { x: if cursor.x > width { width } else { cursor.x }, y: cursor.y }
}

/// Where `direction` takes the cursor.
pub open spec fn moved(
    cursor: Point,
    direction: Direction,
    lines: Seq<Seq<char>>,
    page: int,
) -> Point {
    fitted(stepped(cursor, direction, lines, page), lines)
}

/// Where a sequence of directions, taken in order, brings the cursor.
pub open spec fn moved_along(
    cursor: Point,
    directions: Seq<Direction>,
    lines: Seq<Seq<char>>,
    page: int,
) -> Point
    decreases directions.len(),
{
    if directions.len() == 0 {
        cursor
    } else {
        moved(
            moved_along(cursor, directions.drop_last(), lines, page),
            directions.last(),
            lines,
            page,
        )
    }
}

/// Whether a window of `size` cells that begins at `offset` shows `cursor`
/// (along one axis).
pub open spec fn in_view(cursor: int, offset: int, size: int) -> bool {
    offset <= cursor < offset + size
}

/// The offset that follows the cursor along one axis: it moves back to meet
/// a cursor before the window, moves on by the overshoot for a cursor behind
/// it, and stays where the cursor is in view already.
pub open spec fn scrolled(cursor: int, offset: int, size: int) -> int {
    if cursor < offset {
        cursor
    } else if cursor >= offset + size {
        cursor - size + 1
    } else {
        offset
    }
}

/// The offset after the window has followed the cursor along one axis. It is
/// `scrolled`, except that a window without a single cell, which no offset
/// can bring the cursor into, stops at the largest coordinate that the
/// machine can hold.
pub open spec fn followed(cursor: int, offset: int, size: int) -> int {
    if size <= 0 && scrolled(cursor, offset, size) > usize::MAX {
        usize::MAX as int
    } else {
        scrolled(cursor, offset, size)
    }
}

/// A move never leaves the buffer: from a cursor in the buffer every
/// direction leads to a cursor in the buffer.
pub proof fn lemma_moved_valid(
    cursor: Point,
    direction: Direction,
    lines: Seq<Seq<char>>,
    page: int,
)
    requires
        valid(cursor, lines),
        page >= 0,
    ensures
        valid(moved(cursor, direction, lines, page), lines),
{
}

/// Any sequence of moves keeps a cursor that starts in the buffer inside it.
pub proof fn lemma_moved_along_valid(
    cursor: Point,
    directions: Seq<Direction>,
    lines: Seq<Seq<char>>,
    page: int,
)
    requires
        valid(cursor, lines),
        page >= 0,
    ensures
        valid(moved_along(cursor, directions, lines, page), lines),
    decreases directions.len(),
{
    if directions.len() > 0 {
        lemma_moved_along_valid(cursor, directions.drop_last(), lines, page);
        lemma_moved_valid(
            moved_along(cursor, directions.drop_last(), lines, page),
            directions.last(),
            lines,
            page,
        );
    }
}

/// Left at the first column of a line below the first goes to the end of the
/// line above; at the very beginning of the buffer it stays.
pub proof fn lemma_left_wraps(cursor: Point, lines: Seq<Seq<char>>, page: int)
    requires
        valid(cursor, lines),
        cursor.x == 0,
    ensures
        cursor.y > 0 ==> moved(cursor, Direction::Left, lines, page) == (Point {
            x: line_len(lines, cursor.y - 1),
            y: cursor.y - 1,
        }),
        cursor.y == 0 ==> moved(cursor, Direction::Left, lines, page) == cursor,
{
}

/// Right at the end of a line goes to the first column of the next line.
pub proof fn lemma_right_wraps(cursor: Point, lines: Seq<Seq<char>>, page: int)
    requires
        valid(cursor, lines),
        cursor.y < lines.len(),
        cursor.x == line_len(lines, cursor.y),
    ensures
        moved(cursor, Direction::Right, lines, page) == (Point { x: 0, y: cursor.y + 1 }),
{
}

/// Page Down jumps a page where that many lines are left below, and
/// otherwise lands one line past the last.
pub proof fn lemma_page_down(cursor: Point, lines: Seq<Seq<char>>, page: int)
    requires
        valid(cursor, lines),
        page >= 0,
    ensures
        cursor.y + page < lines.len() ==> moved(cursor, Direction::PageDown, lines, page).y
            == cursor.y + page,
        cursor.y + page >= lines.len() ==> moved(cursor, Direction::PageDown, lines, page)
            == (Point { x: 0, y: lines.len() as int }),
{
}

/// After scrolling, a window that has room for at least one cell shows the
/// cursor.
pub proof fn lemma_scrolled_in_view(cursor: int, offset: int, size: int)
    requires
        size > 0,
    ensures
        in_view(cursor, followed(cursor, offset, size), size),
{
}

/// Scrolling is the least adjustment: a window that shows the cursor stays
/// where it is, and a window that moved has the cursor on its first or on
/// its last cell.
pub proof fn lemma_scrolled_least(cursor: int, offset: int, size: int)
    requires
        size > 0,
    ensures
        in_view(cursor, offset, size) ==> followed(cursor, offset, size) == offset,
        cursor < offset ==> followed(cursor, offset, size) == cursor,
        cursor >= offset + size ==> followed(cursor, offset, size) + size - 1 == cursor,
{
}

} // verus!
