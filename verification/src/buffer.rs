//! A pair of equally sized character buffers, one of which is active.

use vstd::prelude::*;

verus! {

/// The glyph of an empty cell.
pub const BLANK: char = ' ';

/// A sequence of `len` blank cells.
pub open spec fn blank_cells(len: nat) -> Seq<char> {
    Seq::new(len, |i: int| BLANK)
}

/// The mathematical content of a [`DoubleBuffer`].
#[verifier::ext_equal]
pub struct DoubleBufferView {
    /// Cells of the front buffer.
    pub front: Seq<char>,
    /// Cells of the back buffer.
    pub back: Seq<char>,
    /// The selector: 0 names the front buffer, 1 the back buffer.
    pub current: int,
}

impl DoubleBufferView {
    /// The selector names one of the two buffers: it is 0 or 1.
    pub open spec fn selects(self) -> bool {
        self.current == 0 || self.current == 1
    }

    /// The selector is 0 or 1 and both buffers have the same length.
    pub open spec fn wf(self) -> bool {
        &&& self.selects()
        &&& self.front.len() == self.back.len()
    }

    /// Two blank buffers of `len` cells, the front one active.
    pub open spec fn blank(len: nat) -> Self {
        DoubleBufferView { front: blank_cells(len), back: blank_cells(len), current: 0 }
    }

    /// Cells of the buffer that the selector names.
    pub open spec fn active(self) -> Seq<char> {
        if self.current == 0 {
            self.front
        } else {
            self.back
        }
    }

    /// Cells of the buffer that the selector does not name.
    pub open spec fn inactive(self) -> Seq<char> {
        if self.current == 0 {
            self.back
        } else {
            self.front
        }
    }

    /// The same pair with the selector flipped.
    pub open spec fn swapped(self) -> Self {
        DoubleBufferView { current: 1 - self.current, ..self }
    }

    /// The same pair with `cells` in place of the active buffer.
    pub open spec fn with_active(self, cells: Seq<char>) -> Self {
        if self.current == 0 {
            DoubleBufferView { front: cells, ..self }
        } else {
            DoubleBufferView { back: cells, ..self }
        }
    }

    /// The same pair with every cell of the active buffer blank.
    pub open spec fn cleared(self) -> Self {
        self.with_active(blank_cells(self.active().len()))
    }
}

/// Two character buffers of equal length and a selector that names the active
/// one.
pub struct DoubleBuffer {
    front: Vec<char>,
    back: Vec<char>,
    current: usize,
}

impl View for DoubleBuffer {
    type V = DoubleBufferView;

    closed spec fn view(&self) -> DoubleBufferView {
        DoubleBufferView { front: self.front@, back: self.back@, current: self.current as int }
    }
}

impl DoubleBuffer {
    /// The invariant of the pair, see [`DoubleBufferView::wf`].
    pub open spec fn wf(&self) -> bool {
        self@.wf()
    }

    /// Neither buffer holds more cells than can be indexed.
    pub proof fn lemma_len_fits(&self)
        ensures
            self@.front.len() <= usize::MAX,
            self@.back.len() <= usize::MAX,
    {
        assert(self.front.len() == self.front@.len());
        assert(self.back.len() == self.back@.len());
    }

    /// Two blank buffers of `width * height` cells each; the front one is active.
    pub fn new(width: usize, height: usize) -> (buffer: Self)
        requires
            width * height <= usize::MAX,
        ensures
            buffer.wf(),
            buffer@ == DoubleBufferView::blank((width * height) as nat),
    {
        let len: usize = width * height;
        let front: Vec<char> = vec![BLANK; len];
        let back: Vec<char> = vec![BLANK; len];
        assert(front@ =~= blank_cells(len as nat));
        assert(back@ =~= blank_cells(len as nat));
        DoubleBuffer { front, back, current: 0 }
    }

    /// Makes the other buffer the active one. Neither buffer's cells change.
    /// A selector that names a buffer is all that this asks for; the buffers
    /// may differ in length.
    pub fn swap(&mut self)
        requires
            old(self)@.selects(),
        ensures
            final(self)@ == old(self)@.swapped(),
            final(self)@.selects(),
            old(self).wf() ==> final(self).wf(),
    {
        assert(0usize ^ 1usize == 1usize) by (bit_vector);
        assert(1usize ^ 1usize == 0usize) by (bit_vector);
        self.current ^= 1;
    }

    /// The active buffer.
    pub fn get_current_buffer(&self) -> (cells: &Vec<char>)
        ensures
            cells@ == self@.active(),
    {
        if self.current == 0 {
            &self.front
        } else {
            &self.back
        }
    }

    /// The active buffer, for writing. What the caller leaves in it becomes the
    /// active buffer; the selector and the other buffer stay as they are.
    pub fn get_current_buffer_mut(&mut self) -> (cells: &mut Vec<char>)
        ensures
            cells@ == old(self)@.active(),
            final(self)@ == old(self)@.with_active(final(cells)@),
    {
        if self.current == 0 {
            &mut self.front
        } else {
            &mut self.back
        }
    }

    /// Overwrites every cell of the active buffer with a blank, whatever the
    /// lengths of the two buffers are.
    pub fn clear(&mut self)
        ensures
            final(self)@ == old(self)@.cleared(),
            old(self).wf() ==> final(self).wf(),
    {
        let ghost len = self@.active().len();
        let buffer = self.get_current_buffer_mut();
        let n: usize = buffer.len();
        let mut i: usize = 0;
        while i < n
            invariant
                i <= n,
                n == len,
                buffer@.len() == len,
                forall|j: int| 0 <= j < i ==> buffer@[j] == BLANK,
            decreases n - i,
        {
            buffer[i] = BLANK;
            i += 1;
        }
        assert(buffer@ =~= blank_cells(len));
    }
}

} // verus!
