//! Coordinates.
//!
//! Three pairs of the same shape are kept apart by type: where the cursor is
//! in the buffer, where the window onto the buffer begins, and where a cell
//! lies on the screen. Subtracting the second from the first gives the third,
//! and only the third may be sent to the terminal.

use vstd::prelude::*;

verus! {

/// A pair of mathematical coordinates: what each of the three coordinate
/// types stands for in contracts.
pub struct Point {
    pub x: int,
    pub y: int,
}

/// A place in the buffer: `y` is a line, `x` a column of that line.
#[derive(Clone, Copy, Debug, PartialEq, Eq, Structural)]
pub struct Position {
    pub x: usize,
    pub y: usize,
}

/// The buffer coordinate of the top-left cell of the window.
#[derive(Clone, Copy, Debug, PartialEq, Eq, Structural)]
pub struct ScreenOffset {
    pub x: usize,
    pub y: usize,
}

/// A cell of the screen, counted from zero at the top-left corner.
#[derive(Clone, Copy, Debug, PartialEq, Eq, Structural)]
pub struct ScreenPosition {
    pub x: usize,
    pub y: usize,
}

impl View for Position {
    type V = Point;

    open spec fn view(&self) -> Point {
        Point { x: self.x as int, y: self.y as int }
    }
}

impl View for ScreenOffset {
    type V = Point;

    open spec fn view(&self) -> Point {
        Point { x: self.x as int, y: self.y as int }
    }
}

impl View for ScreenPosition {
    type V = Point;

    open spec fn view(&self) -> Point {
        Point { x: self.x as int, y: self.y as int }
    }
}

impl Default for Position {
    /// The first column of the first line.
    fn default() -> (position: Position)
        ensures
            position@ == (Point { x: 0, y: 0 }),
    {
        Position { x: 0, y: 0 }
    }
}

impl Default for ScreenOffset {
    /// A window that begins at the first column of the first line.
    fn default() -> (offset: ScreenOffset)
        ensures
            offset@ == (Point { x: 0, y: 0 }),
    {
        ScreenOffset { x: 0, y: 0 }
    }
}

impl Default for ScreenPosition {
    /// The top-left cell.
    fn default() -> (cell: ScreenPosition)
        ensures
            cell@ == (Point { x: 0, y: 0 }),
    {
        ScreenPosition { x: 0, y: 0 }
    }
}

} // verus!
