//! A single line of text.

use vstd::prelude::*;

verus! {

/// The part of `line` that falls into the columns `[start, end)`.
///
/// Both bounds are clamped to the length of the line, and the start is
/// clamped to the end, so the window is empty whenever it lies beyond the
/// line or is turned around.
pub open spec fn window(line: Seq<char>, start: int, end: int) -> Seq<char> {
    let stop = if end < 0 {
        0
    } else if end < line.len() {
        end
    } else {
        line.len() as int
    };
    let from = if start < 0 {
        0
    } else if start < stop {
        start
    } else {
        stop
    };
    line.subrange(from, stop)
}

/// A window that begins at or behind the end of the line is empty.
pub proof fn lemma_window_beyond(line: Seq<char>, start: int, end: int)
    requires
        start >= line.len(),
    ensures
        window(line, start, end) == Seq::<char>::empty(),
{
}

/// A window that lies within the line is that part of the line.
pub proof fn lemma_window_within(line: Seq<char>, start: int, end: int)
    requires
        0 <= start <= end <= line.len(),
    ensures
        window(line, start, end) == line.subrange(start, end),
{
}

/// One line of the buffer. Columns count characters.
pub struct Row {
    string: String,
    len: usize,
}

impl View for Row {
    type V = Seq<char>;

    closed spec fn view(&self) -> Seq<char> {
        self.string@
    }
}

impl Row {
    #[verifier::type_invariant]
    spec fn cached_length(self) -> bool {
        self.len == self.string@.len()
    }

    /// A row holding the characters of `text`.
    pub fn new(text: &str) -> (row: Row)
        ensures
            row@ == text@,
    {
        Row { string: String::from_str(text), len: text.unicode_len() }
    }

    /// The number of columns of the row.
    pub fn len(&self) -> (n: usize)
        ensures
            n == self@.len(),
    {
        proof {
            use_type_invariant(self);
        }
        self.len
    }

    /// The characters of the row in the columns `[start, end)`, clamped to
    /// the row.
    pub fn render(&self, start: usize, end: usize) -> (text: String)
        ensures
            text@ == window(self@, start as int, end as int),
    {
        proof {
            use_type_invariant(self);
        }
        let stop = if end < self.len { end } else { self.len };
        let from = if start < stop { start } else { stop };
        String::from_str(self.string.as_str().substring_char(from, stop))
    }
}

} // verus!
