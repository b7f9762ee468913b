//! The row as the interpreter holds it: a growable vector of cells and the
//! nominal width it was made for.

use vstd::prelude::*;
use crate::model::{blanks, put, blank_between, trim_end, Screen};

verus! {

/// What `String::push` of std does: it appends the character to the string.
pub assume_specification[ String::push ](s: &mut String, ch: char)
    ensures
        final(s)@ == old(s)@.push(ch),
;

/// One row of display cells.
pub struct LineBuffer {
    cells: Vec<char>,
    width: usize,
}

impl View for LineBuffer {
    type V = Seq<char>;

    /// The cells, left to right.
    closed spec fn view(&self) -> Seq<char> {
        self.cells@
    }
}

impl LineBuffer {
    /// The column count that the buffer was made for.
    pub closed spec fn nominal_width(&self) -> nat {
        self.width as nat
    }

    /// The row never has fewer cells than its nominal width, and its length
    /// is one that the machine can count.
    pub open spec fn wf(&self) -> bool {
        self.nominal_width() <= self@.len() <= usize::MAX
    }

    /// The row together with a cursor.
    pub open spec fn screen(&self, cursor: usize) -> Screen {
        Screen { cells: self@, cursor: cursor as nat }
    }

    /// A row of `width` blank cells.
    pub fn new(width: usize) -> (buffer: Self)
        ensures
            buffer.wf(),
            buffer.nominal_width() == width,
            buffer@ == blanks(width as nat),
    {
        let mut cells: Vec<char> = Vec::new();
        let mut i: usize = 0;
        while i < width
            invariant
                i <= width,
                cells@ =~= blanks(i as nat),
            decreases width - i,
        {
            cells.push(' ');
            i += 1;
        }
        LineBuffer { cells, width }
    }

    /// The number of cells that the row holds now.
    pub fn len(&self) -> (n: usize)
        ensures
            n == self@.len(),
    {
        self.cells.len()
    }

    /// The column count that the buffer was made for.
    pub fn width(&self) -> (w: usize)
        ensures
            w == self.nominal_width(),
    {
        self.width
    }

    /// The cell at `position`.
    pub fn cell(&self, position: usize) -> (ch: char)
        requires
            position < self@.len(),
        ensures
            ch == self@[position as int],
    {
        self.cells[position]
    }

    /// Overwrites the cell at `position` with `ch`, without shifting the
    /// cells behind it. A position at or beyond the end of the row extends
    /// the row with blanks first.
    pub fn write_at(&mut self, position: usize, ch: char)
        requires
            old(self).wf(),
        ensures
            final(self).wf(),
            final(self).nominal_width() == old(self).nominal_width(),
            final(self)@ == put(old(self)@, position as nat, ch),
    {
        let ghost before = self.cells@;
        if position < self.cells.len() {
            self.cells.set(position, ch);
        } else {
            while self.cells.len() < position
                invariant
                    before.len() <= self.cells@.len() <= position,
                    self.cells@ =~= before + blanks((self.cells@.len() - before.len()) as nat),
                    self.width == old(self).width,
                decreases position - self.cells.len(),
            {
                self.cells.push(' ');
            }
            self.cells.push(ch);
        }
        assert(self.cells@.len() == self.cells.len());
    }

    /// Makes every cell from `start` up to, not including, `end` blank. The
    /// row keeps its length: the part of the range that lies beyond the row
    /// is left out.
    pub fn blank_range(&mut self, start: usize, end: usize)
        requires
            old(self).wf(),
        ensures
            final(self).wf(),
            final(self).nominal_width() == old(self).nominal_width(),
            final(self)@ == blank_between(old(self)@, start as int, end as int),
    {
        let ghost before = self.cells@;
        let n: usize = self.cells.len();
        let stop: usize = if end < n { end } else { n };
        let mut i: usize = start;
        while i < stop
            invariant
                start <= i,
                i <= stop || i == start,
                stop <= n,
                n == before.len(),
                self.cells@ =~= blank_between(before, start as int, i as int),
                self.width == old(self).width,
            decreases stop - i,
        {
            self.cells.set(i, ' ');
            i += 1;
        }
        assert(self.cells@ =~= blank_between(before, start as int, end as int));
    }

    /// Makes the row anew: `width` blank cells.
    pub fn reset(&mut self, width: usize)
        ensures
            final(self).wf(),
            final(self).nominal_width() == width,
            final(self)@ == blanks(width as nat),
    {
        *self = LineBuffer::new(width);
    }

    /// The row as text, without its trailing blanks.
    pub fn trimmed(&self) -> (text: String)
        ensures
            text@ == trim_end(self@),
    {
        let mut end: usize = self.cells.len();
        assert(self.cells@.take(end as int) =~= self.cells@);
        while end > 0 && self.cells[end - 1] == ' '
            invariant
                end <= self.cells@.len(),
                trim_end(self.cells@) == trim_end(self.cells@.take(end as int)),
            decreases end,
        {
            assert(self.cells@.take(end as int).drop_last() =~= self.cells@.take(end - 1));
            end -= 1;
        }
        let mut text = String::new();
        let mut i: usize = 0;
        while i < end
            invariant
                i <= end <= self.cells@.len(),
                text@ =~= self.cells@.take(i as int),
            decreases end - i,
        {
            text.push(self.cells[i]);
            i += 1;
        }
        text
    }
}

} // verus!
