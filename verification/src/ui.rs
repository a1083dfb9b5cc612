//! The render-side state updates that stay in the core: keeping the
//! cursor inside the viewport with a scroll margin, and steering the
//! cursor manager for the editor pane. Actual painting happens outside.

use crate::app::App;
use crate::input::Area;
use crate::widgets::cursor::CursorContext;
use crate::widgets::cursor::ScreenPosition;
use vstd::prelude::*;

verus! {

/// The scroll margin: the cursor keeps this many lines from the viewport
/// edges when possible.
pub const SCROLL_MARGIN: usize = 3;

/// What bringing the cursor back into view guarantees: only the scroll
/// offset changes; vertically it lands so the cursor keeps the three-line
/// margin from the viewport edges, horizontally so the cursor sits inside
/// the text columns right of the gutter.
pub open spec fn cursor_in_view_post(pre: App, post: App, area: Area, show_line_numbers: bool) -> bool {
    &&& (post.wf())
    &&& (post == (App { scroll_offset: post.scroll_offset, ..pre }))
    &&& (({
                let row = pre.active().cursor_pos.0 as int;
                let srow = pre.scroll_offset.0 as int;
                let h = area.height as int;
                &&& row < srow + 3 ==> post.scroll_offset.0 == vstd::math::max(row - 3, 0)
                &&& row >= srow + 3 && row < srow + h - 3 ==> post.scroll_offset.0 == srow
                &&& row >= srow + 3 && row >= srow + h - 3 ==> post.scroll_offset.0
                    == vstd::math::max(row - vstd::math::max(h - 4, 0), 0)
            }))
    &&& (({
                let col = pre.active().cursor_pos.1 as int;
                let scol = pre.scroll_offset.1 as int;
                let lnw = if show_line_numbers {
                    pre.active().line_number_width_spec()
                } else {
                    0int
                };
                let visible_cols = area.width as int - lnw;
                &&& col < scol ==> post.scroll_offset.1 == col
                &&& scol <= col < scol + visible_cols ==> post.scroll_offset.1 == scol
                &&& col >= scol + visible_cols ==> post.scroll_offset.1 == vstd::math::max(
                    col - visible_cols,
                    0,
                ) + 1
            }))
}

impl App {
    /// Scroll so the cursor stays at least the scroll margin away from the
    /// viewport edges vertically, and inside the text columns right of the
    /// gutter horizontally.
    pub fn ensure_cursor_visible(&mut self, area: Area, show_line_numbers: bool)
        requires
            old(self).wf(),
            area.height >= 3,
            old(self).scroll_offset.0 + area.height as int <= usize::MAX,
            show_line_numbers ==> old(self).active().line_number_width_spec() < area.width as int,
            !show_line_numbers ==> area.width > 0,
        ensures
            cursor_in_view_post(*old(self), *final(self), area, show_line_numbers),
    {
        let idx = self.active_buffer;
        let nlines = self.buffers[idx].content.len();
        let (row, col) = self.buffers[idx].cursor_pos;
        let (scroll_row, scroll_col) = self.scroll_offset;
        let visible_rows = area.height as usize;

        if row < scroll_row + SCROLL_MARGIN {
            self.scroll_offset.0 = if row >= SCROLL_MARGIN {
                row - SCROLL_MARGIN
            } else {
                0
            };
        } else if row >= scroll_row + visible_rows - SCROLL_MARGIN {
            let back = if visible_rows >= SCROLL_MARGIN + 1 {
                visible_rows - (SCROLL_MARGIN + 1)
            } else {
                0
            };
            self.scroll_offset.0 = if row >= back {
                row - back
            } else {
                0
            };
        }

        let line_number_width = if show_line_numbers {
            self.buffers[idx].line_number_width()
        } else {
            0
        };
        let visible_cols = area.width as usize - line_number_width;

        if col < scroll_col {
            self.scroll_offset.1 = col;
        } else if col - scroll_col >= visible_cols {
            self.scroll_offset.1 = (if col >= visible_cols {
                col - visible_cols
            } else {
                0
            }) + 1;
        }
    }

    /// Steer the editor pane's cursor for the next frame: while the
    /// palette is open the editor cursor is hidden; otherwise the other
    /// contexts are hidden and the editor cursor is placed at the cursor's
    /// screen cell, activated when that cell lies inside the viewport and
    /// hidden when it is scrolled out.
    pub fn update_editor_cursor(&mut self, area: Area, show_line_numbers: bool, now_ms: u64)
        requires
            old(self).wf(),
            area.wf(),
        ensures
            *final(self) == (App { cursor_manager: final(self).cursor_manager, ..*old(self) }),
            old(self).show_command_palette ==> {
                &&& !final(self).cursor_manager.state_of(CursorContext::Editor).visible
                &&& final(self).cursor_manager.active_context != Some(CursorContext::Editor)
            },
            !old(self).show_command_palette ==> {
                let row = old(self).active().cursor_pos.0 as int;
                let col = old(self).active().cursor_pos.1 as int;
                let srow = old(self).scroll_offset.0 as int;
                let scol = old(self).scroll_offset.1 as int;
                let lnw = if show_line_numbers {
                    old(self).active().line_number_width_spec()
                } else {
                    0int
                };
                let cursor_x = vstd::math::max(col - scol, 0) + lnw;
                let cursor_y = vstd::math::max(row - srow, 0);
                let visible = cursor_y < area.height as int && cursor_x < area.width as int;
                &&& visible ==> final(self).cursor_manager.active_context == Some(
                    CursorContext::Editor,
                ) && final(self).cursor_manager.exactly_one_visible()
                &&& visible && old(self).cursor_manager.active_context == Some(
                    CursorContext::Editor,
                ) ==> final(self).cursor_manager.state_of(CursorContext::Editor).position.x as int
                    == area.x + cursor_x && final(self).cursor_manager.state_of(
                    CursorContext::Editor,
                ).position.y as int == area.y + cursor_y
                &&& !visible ==> !final(self).cursor_manager.state_of(
                    CursorContext::Editor,
                ).visible && final(self).cursor_manager.active_context != Some(
                    CursorContext::Editor,
                )
            },
    {
        if self.show_command_palette {
            self.cursor_manager.hide_cursor(CursorContext::Editor);
            return ;
        }
        let idx = self.active_buffer;
        let (row, col) = self.buffers[idx].cursor_pos;
        let (scroll_row, scroll_col) = self.scroll_offset;
        let line_number_width = if show_line_numbers {
            self.buffers[idx].line_number_width()
        } else {
            0
        };

        let rel_col = if col >= scroll_col {
            col - scroll_col
        } else {
            0
        };
        let rel_row = if row >= scroll_row {
            row - scroll_row
        } else {
            0
        };
        let is_visible = rel_row < area.height as usize && rel_col < area.width as usize
            && line_number_width < area.width as usize - rel_col;

        self.cursor_manager.hide_cursor(CursorContext::CommandPalette);
        self.cursor_manager.hide_cursor(CursorContext::FileSearch);
        self.cursor_manager.hide_cursor(CursorContext::TextSearch);

        if is_visible {
            let cursor_x = (rel_col + line_number_width) as u16;
            let cursor_y = rel_row as u16;
            let absolute_x = area.x + cursor_x;
            let absolute_y = area.y + cursor_y;
            self.cursor_manager.update_cursor_position(
                CursorContext::Editor,
                absolute_x,
                absolute_y,
                now_ms,
            );
            self.cursor_manager.set_active_context(CursorContext::Editor);
        } else {
            self.cursor_manager.hide_cursor(CursorContext::Editor);
        }
    }
}

} // verus!
