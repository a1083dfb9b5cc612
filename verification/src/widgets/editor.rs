//! The editor viewport widget: a buffer reference, the scroll offset and
//! the line-number setting, with the scroll adjustment that keeps the
//! cursor in view. Painting happens outside the core.

use crate::buffer::Buffer;
use crate::input::Area;
use vstd::prelude::*;

verus! {

/// The width of this widget's line-number gutter: digit count of the line
/// total plus one space.
pub open spec fn gutter_width(total_lines: int) -> int {
    crate::text::spec_decimal_len(vstd::math::max(total_lines, 1) as nat) as int + 1
}

/// A view of one buffer at a scroll position.
pub struct Editor<'a> {
    pub buffer: &'a Buffer,
    pub scroll_offset: (usize, usize),
    pub show_line_numbers: bool,
}

impl<'a> Editor<'a> {
    /// A view of the buffer from its top-left corner, with line numbers.
    pub fn new(buffer: &'a Buffer) -> (r: Editor<'a>)
        ensures
            r.buffer == buffer,
            r.scroll_offset == (0usize, 0usize),
            r.show_line_numbers,
    {
        Editor { buffer, scroll_offset: (0, 0), show_line_numbers: true }
    }

    /// Scroll just far enough that the cursor is inside the viewport:
    /// vertically within the area's rows, horizontally within the columns
    /// left of the text area after the gutter.
    pub fn ensure_cursor_visible(&mut self, area: Area)
        requires
            old(self).buffer.wf(),
            old(self).show_line_numbers ==> gutter_width(old(self).buffer.content@.len() as int)
                < area.width as int,
            !old(self).show_line_numbers ==> area.width > 0,
        ensures
            final(self).buffer == old(self).buffer,
            final(self).show_line_numbers == old(self).show_line_numbers,
            ({
                let row = old(self).buffer.cursor_pos.0 as int;
                let srow = old(self).scroll_offset.0 as int;
                let h = area.height as int;
                &&& row < srow ==> final(self).scroll_offset.0 == row
                &&& srow <= row < srow + h ==> final(self).scroll_offset.0 == srow
                &&& row >= srow + h ==> final(self).scroll_offset.0 == vstd::math::max(
                    row - h,
                    0,
                ) + 1
            }),
            ({
                let col = old(self).buffer.cursor_pos.1 as int;
                let scol = old(self).scroll_offset.1 as int;
                let lnw = if old(self).show_line_numbers {
                    gutter_width(old(self).buffer.content@.len() as int)
                } else {
                    0int
                };
                let visible_cols = area.width as int - lnw;
                &&& col < scol ==> final(self).scroll_offset.1 == col
                &&& scol <= col < scol + visible_cols ==> final(self).scroll_offset.1 == scol
                &&& col >= scol + visible_cols ==> final(self).scroll_offset.1 == vstd::math::max(
                    col - visible_cols,
                    0,
                ) + 1
            }),
    {
        let n = self.buffer.content.len();
        let (row, col) = self.buffer.cursor_pos;
        let (scroll_row, scroll_col) = self.scroll_offset;
        proof {
            assert(row < n);
        }

        let visible_rows = area.height as usize;
        if row < scroll_row {
            self.scroll_offset.0 = row;
        } else if row - scroll_row >= visible_rows {
            self.scroll_offset.0 = if row >= visible_rows {
                row - visible_rows
            } else {
                0
            } + 1;
        }

        let line_number_width = if self.show_line_numbers {
            let total_lines = if self.buffer.content.len() > 1 {
                self.buffer.content.len()
            } else {
                1
            };
            let digits = Buffer::count_digits(total_lines);
            proof {
                crate::text::lemma_decimal_len(total_lines as nat);
            }
            digits + 1
        } else {
            0
        };
        let visible_cols = area.width as usize - line_number_width;

        if col < scroll_col {
            self.scroll_offset.1 = col;
        } else if col - scroll_col >= visible_cols {
            self.scroll_offset.1 = if col >= visible_cols {
                col - visible_cols
            } else {
                0
            } + 1;
        }
    }
}

} // verus!
