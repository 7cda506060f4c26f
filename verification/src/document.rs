//! The buffer: an ordered sequence of rows.

use crate::row::Row;
use vstd::prelude::*;

verus! {

/// The lines that a sequence of rows holds, in order.
pub open spec fn lines_of(rows: Seq<Row>) -> Seq<Seq<char>> {
    Seq::new(rows.len(), |i: int| rows[i]@)
}

/// The text that is shown. It is built once and only read afterwards.
pub struct Document {
    rows: Vec<Row>,
}

impl View for Document {
    type V = Seq<Seq<char>>;

    closed spec fn view(&self) -> Seq<Seq<char>> {
        lines_of(self.rows@)
    }
}

impl Default for Document {
    /// The document without lines.
    fn default() -> (document: Document)
        ensures
            document@ == Seq::<Seq<char>>::empty(),
    {
        let document = Document { rows: Vec::new() };
        assert(document@ =~= Seq::<Seq<char>>::empty());
        document
    }
}

impl Document {
    /// The document whose lines are `rows`, in that order.
    pub fn new(rows: Vec<Row>) -> (document: Document)
        ensures
            document@ == lines_of(rows@),
    {
        Document { rows }
    }

    /// The row at line `index`, or nothing where the document has no such
    /// line.
    pub fn row(&self, index: usize) -> (row: Option<&Row>)
        ensures
            index < self@.len() ==> row is Some && row->0@ == self@[index as int],
            index >= self@.len() ==> row is None,
    {
        if index < self.rows.len() {
            Some(&self.rows[index])
        } else {
            None
        }
    }

    /// Whether the document has no lines.
    pub fn is_empty(&self) -> (empty: bool)
        ensures
            empty == (self@.len() == 0),
    {
        self.rows.len() == 0
    }

    /// The number of lines.
    pub fn len(&self) -> (count: usize)
        ensures
            count == self@.len(),
    {
        self.rows.len()
    }

    /// A document has no more lines than the machine can count.
    pub proof fn lemma_len_fits(self)
        ensures
            self@.len() <= usize::MAX,
    {
        assert(self@.len() == self.rows.len());
    }
}

} // verus!
