//! A character grid with a border of one cell on every side, drawn into cell
//! by cell and turned into one frame of terminal text.

use crate::buffer::{DoubleBuffer, DoubleBufferView, BLANK};
use vstd::prelude::*;
use vstd::string::StringExecFns;

verus! {

/// The glyph of the frame's border.
pub const BORDER: char = '#';

/// Cells reserved around the grid in each dimension.
pub const PADDING: usize = 2;

/// The escape sequence that clears the terminal and homes the cursor.
pub open spec fn clear_screen() -> Seq<char> {
    "\x1B[2J\x1B[1;1H"@
}

/// The escape sequence that hides the cursor.
pub open spec fn hide_cursor() -> Seq<char> {
    "\x1B[?25l"@
}

/// The number of characters in the two escape sequences that open a frame.
pub open spec fn head_len() -> nat {
    16
}

/// The mathematical content of a [`Canvas`].
#[verifier::ext_equal]
pub struct CanvasView {
    /// Cells per row of the grid.
    pub width: nat,
    /// Number of rows of the grid.
    pub height: nat,
    /// The two backing buffers.
    pub buffer: DoubleBufferView,
}

impl CanvasView {
    /// Both buffers hold `(width + 2) * (height + 2)` cells.
    pub open spec fn wf(self) -> bool {
        &&& self.buffer.wf()
        &&& self.buffer.front.len() == (self.width + 2) * (self.height + 2)
    }

    /// A canvas of the given size with blank buffers, the front one active.
    pub open spec fn blank(width: nat, height: nat) -> Self {
        CanvasView { width, height, buffer: DoubleBufferView::blank((width + 2) * (height + 2)) }
    }

    /// The cells that `draw` writes and `render` reads.
    pub open spec fn cells(self) -> Seq<char> {
        self.buffer.active()
    }

    /// Whether `(x, y)` is a cell of the grid.
    pub open spec fn in_bounds(self, x: int, y: int) -> bool {
        0 <= x < self.width && 0 <= y < self.height
    }

    /// The linear index of the coordinate `(x, y)`: both are moved past the
    /// border by one, and rows are `width` cells apart.
    pub open spec fn index_of(self, x: int, y: int) -> int {
        (y + 1) * self.width + (x + 1)
    }

    /// The canvas after `draw(x, y, glyph)`: a cell of the grid takes the
    /// glyph, and a coordinate outside the grid changes nothing.
    pub open spec fn drawn(self, x: int, y: int, glyph: char) -> Self {
        if self.in_bounds(x, y) {
            CanvasView {
                buffer: self.buffer.with_active(self.cells().update(self.index_of(x, y), glyph)),
                ..self
            }
        } else {
            self
        }
    }

    /// The canvas after a frame was taken from it: the active buffer is blank.
    pub open spec fn cleared(self) -> Self {
        CanvasView { buffer: self.buffer.cleared(), ..self }
    }

    /// Whether column `col` of row `row` of a frame belongs to the border:
    /// the first and the last column, the first and the last row.
    pub open spec fn on_border(self, col: int, row: int) -> bool {
        col == 0 || row == 0 || col == self.width + 1 || row == self.height + 1
    }

    /// The glyph that a frame has in column `col` of row `row`. Inside the
    /// border that is the cell `(col - 1, row - 1)` of the grid.
    pub open spec fn shown(self, col: int, row: int) -> char {
        if self.on_border(col, row) {
            BORDER
        } else {
            self.cells()[row * self.width + col]
        }
    }

    /// The first `cols` glyphs of row `row` of a frame.
    pub open spec fn row_prefix(self, row: int, cols: nat) -> Seq<char> {
        Seq::new(cols, |col: int| self.shown(col, row))
    }

    /// Row `row` of a frame: `width + 2` glyphs and a line feed.
    pub open spec fn row_text(self, row: int) -> Seq<char> {
        self.row_prefix(row, self.width + 2).push('\n')
    }

    /// The first `rows` rows of a frame, one after the other.
    pub open spec fn rows_text(self, rows: nat) -> Seq<char>
        decreases rows,
    {
        if rows == 0 {
            Seq::empty()
        } else {
            self.rows_text((rows - 1) as nat) + self.row_text(rows - 1)
        }
    }

    /// A whole frame: the two escape sequences, then `height + 2` rows.
    pub open spec fn frame_text(self) -> Seq<char> {
        clear_screen() + hide_cursor() + self.rows_text(self.height + 2)
    }
}

/// The index of a cell of the grid lies inside the buffers, past the first
/// row and the first column of the border.
pub proof fn lemma_index_in_buffer(canvas: CanvasView, x: int, y: int)
    requires
        canvas.wf(),
        canvas.in_bounds(x, y),
    ensures
        canvas.width < canvas.index_of(x, y) <= canvas.width * (canvas.height + 1),
        canvas.index_of(x, y) < canvas.cells().len(),
{
    let w = canvas.width as int;
    let h = canvas.height as int;
    assert(w < (y + 1) * w + (x + 1) <= w * (h + 1) < (w + 2) * (h + 2)) by (nonlinear_arith)
        requires
            0 <= x < w,
            0 <= y < h,
    ;
}

/// Distinct cells of the grid have distinct indices.
pub proof fn lemma_index_is_injective(canvas: CanvasView, x1: int, y1: int, x2: int, y2: int)
    requires
        canvas.in_bounds(x1, y1),
        canvas.in_bounds(x2, y2),
        canvas.index_of(x1, y1) == canvas.index_of(x2, y2),
    ensures
        x1 == x2,
        y1 == y2,
{
    let w = canvas.width as int;
    assert(y1 == y2) by (nonlinear_arith)
        requires
            (y1 + 1) * w + (x1 + 1) == (y2 + 1) * w + (x2 + 1),
            0 <= x1 < w,
            0 <= x2 < w,
    ;
}

/// Two draws at distinct cells of the grid both stay, in whichever order
/// they are made.
pub proof fn lemma_draws_at_distinct_cells(
    canvas: CanvasView,
    x1: int,
    y1: int,
    a: char,
    x2: int,
    y2: int,
    b: char,
)
    requires
        canvas.wf(),
        canvas.in_bounds(x1, y1),
        canvas.in_bounds(x2, y2),
        x1 != x2 || y1 != y2,
    ensures
        canvas.index_of(x1, y1) != canvas.index_of(x2, y2),
        canvas.drawn(x1, y1, a).drawn(x2, y2, b).cells()[canvas.index_of(x1, y1)] == a,
        canvas.drawn(x1, y1, a).drawn(x2, y2, b).cells()[canvas.index_of(x2, y2)] == b,
        canvas.drawn(x1, y1, a).drawn(x2, y2, b) == canvas.drawn(x2, y2, b).drawn(x1, y1, a),
{
    lemma_index_in_buffer(canvas, x1, y1);
    lemma_index_in_buffer(canvas, x2, y2);
    if canvas.index_of(x1, y1) == canvas.index_of(x2, y2) {
        lemma_index_is_injective(canvas, x1, y1, x2, y2);
    }
    assert(canvas.drawn(x1, y1, a).drawn(x2, y2, b) =~= canvas.drawn(x2, y2, b).drawn(x1, y1, a));
}

/// Rows of a frame depend on the size of the canvas and on its active cells
/// only.
pub proof fn lemma_rows_depend_on_cells(a: CanvasView, b: CanvasView, rows: nat)
    requires
        a.width == b.width,
        a.height == b.height,
        a.cells() == b.cells(),
    ensures
        a.rows_text(rows) == b.rows_text(rows),
    decreases rows,
{
    if rows > 0 {
        lemma_rows_depend_on_cells(a, b, (rows - 1) as nat);
        assert(a.row_prefix(rows - 1, a.width + 2) =~= b.row_prefix(rows - 1, b.width + 2));
    }
}

/// Offset `col` of row `row` lies inside the first `rows` rows, and before
/// row `rows - 1` unless `row` is that row.
proof fn lemma_offset_in_rows(row: int, col: int, rows: int, stride: int)
    requires
        0 <= row < rows,
        0 <= col < stride,
    ensures
        0 <= row * stride + col < rows * stride,
        row < rows - 1 ==> row * stride + col < (rows - 1) * stride,
        rows * stride == (rows - 1) * stride + stride,
{
    assert(row * stride >= 0 && row * stride + stride <= rows * stride && (row < rows - 1 ==> row
        * stride + stride <= (rows - 1) * stride) && rows * stride == (rows - 1) * stride + stride)
        by (nonlinear_arith)
        requires
            0 <= row < rows,
            0 <= stride,
    ;
}

/// The first `rows` rows of a frame take `width + 3` characters each. In row
/// `row` the glyph of column `col` stands at offset `col`, and the line feed
/// after the last column.
pub proof fn lemma_rows_layout(canvas: CanvasView, rows: nat)
    ensures
        canvas.rows_text(rows).len() == rows * (canvas.width + 3),
        forall|row: int, col: int|
            0 <= row < rows && 0 <= col <= canvas.width + 1 ==> #[trigger] canvas.rows_text(
                rows,
            )[row * (canvas.width + 3) + col] == canvas.shown(col, row),
        forall|row: int|
            0 <= row < rows ==> #[trigger] canvas.rows_text(rows)[row * (canvas.width + 3)
                + canvas.width + 2] == '\n',
    decreases rows,
{
    let stride = canvas.width as int + 3;
    if rows > 0 {
        let before = (rows - 1) as nat;
        lemma_rows_layout(canvas, before);
        let text = canvas.rows_text(rows);
        let last = canvas.row_text(before as int);
        assert(text == canvas.rows_text(before) + last);
        lemma_offset_in_rows(0, 0, rows as int, stride);
        assert forall|row: int, col: int|
            0 <= row < rows && 0 <= col <= canvas.width + 1 implies #[trigger] text[row * stride
            + col] == canvas.shown(col, row) by {
            lemma_offset_in_rows(row, col, rows as int, stride);
            if row == before {
                assert(text[row * stride + col] == last[col]);
            }
        }
        assert forall|row: int| 0 <= row < rows implies #[trigger] text[row * stride + canvas.width
            + 2] == '\n' by {
            lemma_offset_in_rows(row, canvas.width as int + 2, rows as int, stride);
            if row == before {
                assert(text[row * stride + canvas.width + 2] == last[canvas.width as int + 2]);
            }
        }
    }
}

/// A frame has `head_len()` characters of escape sequences and then
/// `height + 2` rows of `width + 3` characters: the glyphs of the columns
/// `0 ..= width + 1` and a line feed.
pub proof fn lemma_frame_layout(canvas: CanvasView)
    ensures
        canvas.frame_text().len() == head_len() + (canvas.height + 2) * (canvas.width + 3),
        forall|row: int, col: int|
            0 <= row <= canvas.height + 1 && 0 <= col <= canvas.width + 1
                ==> #[trigger] canvas.frame_text()[head_len() + row * (canvas.width + 3) + col]
                == canvas.shown(col, row),
        forall|row: int|
            0 <= row <= canvas.height + 1 ==> #[trigger] canvas.frame_text()[head_len() + row * (
            canvas.width + 3) + canvas.width + 2] == '\n',
{
    reveal_strlit("\x1B[2J\x1B[1;1H");
    reveal_strlit("\x1B[?25l");
    let rows = canvas.height + 2;
    let stride = canvas.width as int + 3;
    lemma_rows_layout(canvas, rows);
    let head = clear_screen() + hide_cursor();
    assert(head.len() == head_len());
    assert forall|row: int, col: int|
        0 <= row <= canvas.height + 1 && 0 <= col <= canvas.width + 1 implies #[trigger] canvas.frame_text()[head_len()
        + row * stride + col] == canvas.shown(col, row) by {
        lemma_offset_in_rows(row, col, rows as int, stride);
        assert(canvas.frame_text()[head_len() + row * stride + col] == canvas.rows_text(rows)[row
            * stride + col]);
    }
    assert forall|row: int| 0 <= row <= canvas.height + 1 implies #[trigger] canvas.frame_text()[head_len()
        + row * stride + canvas.width + 2] == '\n' by {
        lemma_offset_in_rows(row, canvas.width as int + 2, rows as int, stride);
        assert(canvas.frame_text()[head_len() + row * stride + canvas.width + 2]
            == canvas.rows_text(rows)[row * stride + canvas.width + 2]);
    }
}

/// A glyph drawn at a cell of the grid is the one that the next frame shows
/// for it: the cell `(x, y)` is column `x + 1` of row `y + 1`, inside the
/// border.
pub proof fn lemma_drawn_glyph_is_shown(canvas: CanvasView, x: int, y: int, glyph: char)
    requires
        canvas.wf(),
        0 <= x < canvas.width,
        0 <= y < canvas.height,
    ensures
        canvas.in_bounds(x, y),
        !canvas.on_border(x + 1, y + 1),
        canvas.drawn(x, y, glyph).shown(x + 1, y + 1) == glyph,
        canvas.drawn(x, y, glyph).frame_text()[head_len() + (y + 1) * (canvas.width + 3) + (x
            + 1)] == glyph,
{
    lemma_index_in_buffer(canvas, x, y);
    lemma_frame_layout(canvas.drawn(x, y, glyph));
}

/// A frame taken right after another, with nothing drawn in between, shows
/// a blank inside the border: it is the frame of a blank canvas.
pub proof fn lemma_frame_after_frame_is_blank(canvas: CanvasView)
    requires
        canvas.wf(),
    ensures
        forall|col: int, row: int|
            0 <= col <= canvas.width + 1 && 0 <= row <= canvas.height + 1 && !canvas.on_border(
                col,
                row,
            ) ==> #[trigger] canvas.cleared().shown(col, row) == BLANK,
        canvas.cleared().frame_text() == CanvasView::blank(canvas.width, canvas.height).frame_text(),
{
    let after = canvas.cleared();
    let fresh = CanvasView::blank(canvas.width, canvas.height);
    assert(after.cells() =~= fresh.cells());
    assert forall|col: int, row: int|
        0 <= col <= canvas.width + 1 && 0 <= row <= canvas.height + 1 && !canvas.on_border(
            col,
            row,
        ) implies #[trigger] after.shown(col, row) == BLANK by {
        lemma_index_in_buffer(canvas, col - 1, row - 1);
    }
    lemma_rows_depend_on_cells(after, fresh, canvas.height + 2);
}

/// A character grid with a one-cell border on every side.
pub struct Canvas {
    width: usize,
    height: usize,
    buffer: DoubleBuffer,
}

impl View for Canvas {
    type V = CanvasView;

    closed spec fn view(&self) -> CanvasView {
        CanvasView { width: self.width as nat, height: self.height as nat, buffer: self.buffer@ }
    }
}

impl Canvas {
    /// The invariant of the canvas, see [`CanvasView::wf`].
    pub open spec fn wf(&self) -> bool {
        self@.wf()
    }

    /// A blank canvas of the given size.
    pub fn new(width: usize, height: usize) -> (canvas: Self)
        requires
            (width + 2) * (height + 2) <= usize::MAX,
        ensures
            canvas.wf(),
            canvas@ == CanvasView::blank(width as nat, height as nat),
    {
        assert(width + 2 <= usize::MAX && height + 2 <= usize::MAX) by (nonlinear_arith)
            requires
                (width + 2) * (height + 2) <= usize::MAX,
        ;
        Canvas { width, height, buffer: DoubleBuffer::new(width + PADDING, height + PADDING) }
    }

    /// Cells per row of the grid.
    pub fn width(&self) -> (width: usize)
        ensures
            width == self@.width,
    {
        self.width
    }

    /// Number of rows of the grid.
    pub fn height(&self) -> (height: usize)
        ensures
            height == self@.height,
    {
        self.height
    }

    /// The two backing buffers.
    pub fn buffer(&self) -> (buffer: &DoubleBuffer)
        ensures
            buffer@ == self@.buffer,
    {
        &self.buffer
    }

    /// Puts `c` at `(x, y)` if that is a cell of the grid, and does nothing
    /// otherwise.
    pub fn draw(&mut self, x: i32, y: i32, c: char)
        requires
            old(self).wf(),
        ensures
            final(self).wf(),
            final(self)@ == old(self)@.drawn(x as int, y as int, c),
            old(self)@.in_bounds(x as int, y as int) ==> final(self)@.cells()[old(self)@.index_of(
                x as int,
                y as int,
            )] == c,
            !old(self)@.in_bounds(x as int, y as int) ==> final(self)@ == old(self)@,
    {
        if x < 0 || y < 0 {
            return ;
        }
        let column: usize = x as usize;
        let row: usize = y as usize;
        if column >= self.width || row >= self.height {
            return ;
        }
        proof {
            self.buffer.lemma_len_fits();
            lemma_index_in_buffer(self@, x as int, y as int);
            assert((row + 1) * self.width <= self.width * (self.height + 1)) by (nonlinear_arith)
                requires
                    row < self.height,
            ;
            assert((row + 1) * self.width >= 0) by (nonlinear_arith);
        }
        let at: usize = (row + 1) * self.width + (column + 1);
        let current_buffer = self.buffer.get_current_buffer_mut();
        current_buffer[at] = c;
    }

    /// The frame that shows the canvas, as terminal text: the grid inside a
    /// border. Taking it blanks the active buffer, so a glyph appears only in
    /// the frame after its `draw`.
    pub fn render(&mut self) -> (frame: String)
        requires
            old(self).wf(),
        ensures
            final(self).wf(),
            frame@ == old(self)@.frame_text(),
            final(self)@ == old(self)@.cleared(),
    {
        proof {
            self.lemma_limits();
        }
        let mut frame = String::from_str("\x1B[2J\x1B[1;1H");
        frame.append("\x1B[?25l");
        let curr_buffer = self.buffer.get_current_buffer();
        let width: usize = self.width;
        let height: usize = self.height;
        let ghost shape = self@;
        let ghost head = clear_screen() + hide_cursor();
        let mut y: usize = 0;
        while y <= height + 1
            invariant
                shape.wf(),
                shape.width == width,
                shape.height == height,
                curr_buffer@ == shape.cells(),
                width * (height + 1) < shape.cells().len() <= usize::MAX,
                height + 2 <= usize::MAX,
                width + 2 <= usize::MAX,
                y <= height + 2,
                frame@ == head + shape.rows_text(y as nat),
            decreases height + 2 - y,
        {
            let mut x: usize = 0;
            while x <= width + 1
                invariant
                    shape.wf(),
                    shape.width == width,
                    shape.height == height,
                    curr_buffer@ == shape.cells(),
                    width * (height + 1) < shape.cells().len() <= usize::MAX,
                    height + 2 <= usize::MAX,
                    width + 2 <= usize::MAX,
                    y <= height + 1,
                    x <= width + 2,
                    frame@ == head + shape.rows_text(y as nat) + shape.row_prefix(
                        y as int,
                        x as nat,
                    ),
                decreases width + 2 - x,
            {
                let glyph: char = if x == 0 || y == 0 || x == width + 1 || y == height + 1 {
                    BORDER
                } else {
                    assert(0 <= y * width && y * width + x <= width * (height + 1))
                        by (nonlinear_arith)
                        requires
                            0 < x <= width,
                            0 < y <= height,
                    ;
                    curr_buffer[y * width + x]
                };
                frame.push(glyph);
                assert(shape.row_prefix(y as int, (x + 1) as nat) =~= shape.row_prefix(
                    y as int,
                    x as nat,
                ).push(glyph));
                x += 1;
            }
            frame.push('\n');
            assert(frame@ =~= head + (shape.rows_text(y as nat) + shape.row_text(y as int)));
            y += 1;
        }
        self.buffer.clear();
        frame
    }

    /// The buffers hold more than `width * (height + 1)` cells, and neither
    /// `width + 2` nor `height + 2` overflows.
    proof fn lemma_limits(&self)
        requires
            self.wf(),
        ensures
            self.width * (self.height + 1) < self@.cells().len() <= usize::MAX,
            self.width + 2 <= usize::MAX,
            self.height + 2 <= usize::MAX,
    {
        self.buffer.lemma_len_fits();
        let w = self.width as int;
        let h = self.height as int;
        assert(w * (h + 1) < (w + 2) * (h + 2) && w + 2 <= (w + 2) * (h + 2) && h + 2 <= (w + 2)
            * (h + 2)) by (nonlinear_arith)
            requires
                0 <= w,
                0 <= h,
        ;
    }
}

} // verus!
