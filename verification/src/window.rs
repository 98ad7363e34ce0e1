use vstd::prelude::*;

use crate::buffer::Buffer;

verus! {

/// A directional cursor command.
#[derive(Debug, Copy, Clone)]
pub enum Direction {
    Up,
    Down,
    Left,
    Right,
}

/// The scroll offset that puts the end of a line of length `len` inside a
/// viewport `width` columns wide, scrolling no further than needed.
pub open spec fn spec_eol_offset(len: int, width: int) -> int {
    if len < width {
        0
    } else {
        len - width + 1
    }
}

/// The viewport column of a cursor sitting at the end of a line of length
/// `len` in a viewport `width` columns wide.
pub open spec fn spec_eol_cursor(len: int, width: int) -> int {
    if len < width {
        len
    } else {
        width - 1
    }
}

/// Mathematical image of a `Window`: the line contents and the six
/// coordinates, as unbounded integers.
#[verifier::ext_equal]
pub ghost struct WindowView {
    pub lines: Seq<Seq<u8>>,
    pub width: int,
    pub height: int,
    pub cursor_x: int,
    pub cursor_y: int,
    pub offset_x: int,
    pub offset_y: int,
}

impl WindowView {
    /// The buffer row the cursor stands on.
    pub open spec fn abs_row(self) -> int {
        self.offset_y + self.cursor_y
    }

    /// The buffer column the cursor stands on.
    pub open spec fn abs_col(self) -> int {
        self.offset_x + self.cursor_x
    }

    /// Length of the line the cursor stands on.
    pub open spec fn cur_len(self) -> int {
        self.lines[self.abs_row()].len() as int
    }

    /// The state invariant: the viewport has positive dimensions, the
    /// cursor stays inside the viewport, and — whenever there are lines at
    /// all — the cursor stands on an existing row, no further right than
    /// one past the last character of that row.  On an empty buffer all
    /// four position coordinates are zero.
    pub open spec fn wf(self) -> bool {
        &&& 1 <= self.width
        &&& 1 <= self.height
        &&& 0 <= self.cursor_x < self.width
        &&& 0 <= self.cursor_y < self.height
        &&& 0 <= self.offset_x
        &&& 0 <= self.offset_y
        &&& if self.lines.len() == 0 {
            self.cursor_x == 0 && self.cursor_y == 0 && self.offset_x == 0 && self.offset_y == 0
        } else {
            self.abs_row() < self.lines.len() && self.abs_col() <= self.cur_len()
        }
    }

    /// The same state with the cursor put at the end of a line of length
    /// `len`, scrolling horizontally only when the line overflows the
    /// viewport.
    pub open spec fn with_eol(self, len: int) -> WindowView {
        WindowView {
            offset_x: spec_eol_offset(len, self.width),
            cursor_x: spec_eol_cursor(len, self.width),
            ..self
        }
    }

    /// Horizontal clamp, applied after every move: a cursor carried past
    /// the end of the line it now stands on is pulled back to the end of
    /// that line.
    pub open spec fn adjusted(self) -> WindowView {
        if self.abs_col() > self.cur_len() {
            self.with_eol(self.cur_len())
        } else {
            self
        }
    }

    /// One row up, scrolling when the cursor is already on the top row of
    /// the viewport.
    pub open spec fn row_back(self) -> WindowView {
        if self.cursor_y > 0 {
            WindowView { cursor_y: self.cursor_y - 1, ..self }
        } else {
            WindowView { offset_y: self.offset_y - 1, ..self }
        }
    }

    /// One row down with the column reset to the start of the line,
    /// scrolling when the cursor is already on the bottom row of the
    /// viewport.
    pub open spec fn row_forward_home(self) -> WindowView {
        if self.cursor_y + 1 < self.height {
            WindowView { cursor_x: 0, offset_x: 0, cursor_y: self.cursor_y + 1, ..self }
        } else {
            WindowView { cursor_x: 0, offset_x: 0, offset_y: self.offset_y + 1, ..self }
        }
    }

    /// The directional step, before the horizontal clamp.
    pub open spec fn stepped(self, direction: Direction) -> WindowView {
        match direction {
            Direction::Up => if self.cursor_y > 0 {
                WindowView { cursor_y: self.cursor_y - 1, ..self }
            } else if self.offset_y > 0 {
                WindowView { offset_y: self.offset_y - 1, ..self }
            } else {
                self
            },
            Direction::Down => if self.abs_row() + 1 < self.lines.len() {
                if self.cursor_y + 1 < self.height {
                    WindowView { cursor_y: self.cursor_y + 1, ..self }
                } else {
                    WindowView { offset_y: self.offset_y + 1, ..self }
                }
            } else {
                self
            },
            Direction::Left => if self.cursor_x > 0 {
                WindowView { cursor_x: self.cursor_x - 1, ..self }
            } else if self.offset_x > 0 {
                WindowView { offset_x: self.offset_x - 1, ..self }
            } else if self.abs_row() > 0 {
                self.row_back().with_eol(self.lines[self.abs_row() - 1].len() as int)
            } else {
                self
            },
            Direction::Right => if self.abs_col() == self.cur_len() {
                if self.abs_row() + 1 < self.lines.len() {
                    self.row_forward_home()
                } else {
                    self
                }
            } else if self.cursor_x + 1 < self.width {
                WindowView { cursor_x: self.cursor_x + 1, ..self }
            } else {
                WindowView { offset_x: self.offset_x + 1, ..self }
            },
        }
    }

    /// The text visible in viewport row `i`: the slice of the line at
    /// buffer row `offset_y + i` that starts at column `offset_x` and
    /// spans at most `width` columns.  A row past the end of the buffer,
    /// or a line that ends left of `offset_x`, shows nothing.
    pub open spec fn visible_row(self, i: int) -> Seq<u8> {
        if self.offset_y + i < self.lines.len() {
            let l = self.lines[self.offset_y + i];
            if self.offset_x >= l.len() {
                Seq::empty()
            } else if self.offset_x + self.width <= l.len() {
                l.subrange(self.offset_x, self.offset_x + self.width)
            } else {
                l.subrange(self.offset_x, l.len() as int)
            }
        } else {
            Seq::empty()
        }
    }

    /// The full transition of one cursor move: on an empty buffer nothing
    /// happens; otherwise the directional step runs, followed by the
    /// horizontal clamp.
    pub open spec fn moved(self, direction: Direction) -> WindowView {
        if self.lines.len() == 0 {
            self
        } else {
            self.stepped(direction).adjusted()
        }
    }
}

/// A fixed-size viewport over a `Buffer`: scroll offsets pick the buffer
/// position shown at the viewport's top-left corner, and the cursor is
/// tracked relative to the viewport.
pub struct Window {
    buffer: Buffer,
    width: u16,
    height: u16,
    cursor_x: u16,
    cursor_y: u16,
    offset_x: usize,
    offset_y: usize,
}

impl View for Window {
    type V = WindowView;

    closed spec fn view(&self) -> WindowView {
        WindowView {
            lines: self.buffer@,
            width: self.width as int,
            height: self.height as int,
            cursor_x: self.cursor_x as int,
            cursor_y: self.cursor_y as int,
            offset_x: self.offset_x as int,
            offset_y: self.offset_y as int,
        }
    }
}

impl Window {
    /// A viewport of the given dimensions over `buffer`, with the cursor
    /// and both scroll offsets at the origin.  The dimensions must be
    /// positive.
    pub fn new(buffer: Buffer, width: u16, height: u16) -> (w: Window)
        requires
            width >= 1,
            height >= 1,
        ensures
            w@ == (WindowView {
                lines: buffer@,
                width: width as int,
                height: height as int,
                cursor_x: 0,
                cursor_y: 0,
                offset_x: 0,
                offset_y: 0,
            }),
            w@.wf(),
    {
        Window { buffer, width, height, cursor_x: 0, cursor_y: 0, offset_x: 0, offset_y: 0 }
    }

    /// The cursor position relative to the viewport, `(column, row)`:
    /// where the caret is to be drawn on the screen.
    pub fn cursor(&self) -> (c: (u16, u16))
        ensures
            c.0 == self@.cursor_x,
            c.1 == self@.cursor_y,
    {
        (self.cursor_x, self.cursor_y)
    }

    /// The scroll position, `(offset_x, offset_y)`: the buffer column and
    /// row aligned with the viewport's top-left corner.
    pub fn offset(&self) -> (o: (usize, usize))
        ensures
            o.0 == self@.offset_x,
            o.1 == self@.offset_y,
    {
        (self.offset_x, self.offset_y)
    }

    /// Put the cursor at the end of a line of length `line_len`, scrolling
    /// horizontally only when the line overflows the viewport.
    fn set_end_of_line(&mut self, line_len: usize)
        requires
            old(self)@.width >= 1,
        ensures
            final(self)@ == old(self)@.with_eol(line_len as int),
    {
        let w = self.width as usize;
        if line_len < w {
            self.offset_x = 0;
            self.cursor_x = line_len as u16;
        } else {
            self.offset_x = line_len - w + 1;
            self.cursor_x = self.width - 1;
        }
    }

    /// The horizontal clamp run after every move: if the cursor has been
    /// carried past the end of the line it now stands on, pull it back to
    /// the end of that line.
    pub fn adjust_column(&mut self)
        requires
            old(self)@.width >= 1,
            old(self)@.lines.len() > 0,
            old(self)@.abs_row() < old(self)@.lines.len(),
            old(self)@.abs_col() <= usize::MAX,
        ensures
            final(self)@ == old(self)@.adjusted(),
    {
        let line_count = self.buffer.lines.len();
        let row = self.offset_y + self.cursor_y as usize;
        let line_len = self.buffer.lines[row].len();
        if self.offset_x + self.cursor_x as usize > line_len {
            self.set_end_of_line(line_len);
        }
    }

    /// Produce the visible contents of the viewport, one `Vec<u8>` per
    /// viewport row, top to bottom: exactly `height` rows, each the slice
    /// of its buffer line described by `visible_row`.  Rendering reads the
    /// state and never changes it.
    pub fn render(&self) -> (rows: Vec<Vec<u8>>)
        requires
            self@.wf(),
        ensures
            rows@.len() == self@.height,
            forall|i: int| 0 <= i < self@.height ==> #[trigger] rows@[i]@ == self@.visible_row(i),
    {
        let line_count = self.buffer.lines.len();
        let height = self.height as usize;
        let width = self.width as usize;
        let mut rows: Vec<Vec<u8>> = Vec::new();
        let mut i: usize = 0;
        while i < height
            invariant
                self@.wf(),
                i <= height,
                height == self@.height,
                width == self@.width,
                line_count == self@.lines.len(),
                rows@.len() == i,
                forall|j: int| 0 <= j < i ==> #[trigger] rows@[j]@ == self@.visible_row(j),
            decreases height - i,
        {
            let mut row: Vec<u8> = Vec::new();
            if i < line_count - self.offset_y {
                let line = &self.buffer.lines[self.offset_y + i];
                let line_len = line.len();
                if self.offset_x < line_len {
                    let end = if line_len - self.offset_x < width {
                        line_len
                    } else {
                        self.offset_x + width
                    };
                    let mut k = self.offset_x;
                    while k < end
                        invariant
                            self.offset_x <= k <= end <= line_len,
                            line_len == line@.len(),
                            row@ == line@.subrange(self.offset_x as int, k as int),
                        decreases end - k,
                    {
                        row.push(line[k]);
                        assert(line@.subrange(self.offset_x as int, k + 1 as int) =~= line@
                            .subrange(self.offset_x as int, k as int).push(line@[k as int]));
                        k = k + 1;
                    }
                }
            }
            rows.push(row);
            i = i + 1;
        }
        rows
    }

    /// Apply one directional command: move the cursor, scrolling the
    /// viewport whenever the move crosses its edge, wrapping at line ends,
    /// and clamping the column to the new line.  On an empty buffer this
    /// is a no-op.  The resulting state is exactly `moved` of the old one,
    /// and the invariant is preserved.
    pub fn move_cursor(&mut self, direction: Direction)
        requires
            old(self)@.wf(),
        ensures
            final(self)@ == old(self)@.moved(direction),
            final(self)@.wf(),
    {
        let line_count = self.buffer.lines.len();
        if line_count == 0 {
            return;
        }
        let row = self.offset_y + self.cursor_y as usize;
        let cur_line_len = self.buffer.lines[row].len();
        match direction {
            Direction::Up => {
                if self.cursor_y > 0 {
                    self.cursor_y = self.cursor_y - 1;
                } else if self.offset_y > 0 {
                    self.offset_y = self.offset_y - 1;
                }
            },
            Direction::Down => {
                if row + 1 < line_count {
                    if self.cursor_y + 1 < self.height {
                        self.cursor_y = self.cursor_y + 1;
                    } else {
                        self.offset_y = self.offset_y + 1;
                    }
                }
            },
            Direction::Left => {
                if self.cursor_x > 0 {
                    self.cursor_x = self.cursor_x - 1;
                } else if self.offset_x > 0 {
                    self.offset_x = self.offset_x - 1;
                } else if row > 0 {
                    if self.cursor_y > 0 {
                        self.cursor_y = self.cursor_y - 1;
                    } else {
                        self.offset_y = self.offset_y - 1;
                    }
                    let prev_len = self.buffer.lines[row - 1].len();
                    self.set_end_of_line(prev_len);
                }
            },
            Direction::Right => {
                if self.offset_x + self.cursor_x as usize == cur_line_len {
                    if row + 1 < line_count {
                        self.cursor_x = 0;
                        self.offset_x = 0;
                        if self.cursor_y + 1 < self.height {
                            self.cursor_y = self.cursor_y + 1;
                        } else {
                            self.offset_y = self.offset_y + 1;
                        }
                    }
                } else if self.cursor_x + 1 < self.width {
                    self.cursor_x = self.cursor_x + 1;
                } else {
                    self.offset_x = self.offset_x + 1;
                }
            },
        }
        self.adjust_column();
        proof {
            lemma_moved_wf(old(self)@, direction);
        }
    }
}

/// Every move preserves the state invariant: from any well-formed viewport
/// state, any directional command leads to a well-formed state.
pub proof fn lemma_moved_wf(s: WindowView, direction: Direction)
    requires
        s.wf(),
    ensures
        s.moved(direction).wf(),
{
}

} // verus!
