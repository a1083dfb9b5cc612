//! Viewport scrolling: wheel and key scrolling move the scroll offset
//! only — never the cursor — and clamp so the view cannot run further
//! than half a viewport past the last line.

use crate::app::App;
use crate::input::Area;
use vstd::prelude::*;

verus! {

/// Where scrolling down must stop: half a viewport of slack past the
/// content, or the top when the content fits.
pub open spec fn max_scroll_row_spec(lines: int, height: int) -> int {
    if lines > height {
        lines + height / 2 - height
    } else {
        0
    }
}

impl App {
    /// Scroll the viewport by `delta` rows (positive is down), clamped to
    /// the top and to half a viewport past the last line. The cursor does
    /// not move; the active cursor context registers activity.
    pub fn handle_mouse_scroll(&mut self, delta: i16, editor_area: Area, now_ms: u64)
        requires
            old(self).wf(),
            old(self).scroll_offset.0 + 0x8000 <= usize::MAX,
            old(self).active().content@.len() + editor_area.height as int <= usize::MAX,
        ensures
            final(self).wf(),
            *final(self) == (App {
                scroll_offset: final(self).scroll_offset,
                cursor_manager: final(self).cursor_manager,
                ..*old(self)
            }),
            final(self).scroll_offset.1 == old(self).scroll_offset.1,
            ({
                let srow = old(self).scroll_offset.0 as int;
                let moved = if delta > 0 {
                    srow + delta as int
                } else {
                    vstd::math::max(srow + delta as int, 0)
                };
                let cap = max_scroll_row_spec(
                    old(self).active().content@.len() as int,
                    editor_area.height as int,
                );
                final(self).scroll_offset.0 as int == vstd::math::min(moved, cap)
            }),
    {
        let (scroll_row, _scroll_col) = self.scroll_offset;
        let new_scroll_row = if delta > 0 {
            scroll_row + delta as usize
        } else {
            let back = (-(delta as i32)) as usize;
            if scroll_row >= back {
                scroll_row - back
            } else {
                0
            }
        };
        let idx = self.active_buffer;
        let nlines = self.buffers[idx].content.len();
        let editor_height = editor_area.height as usize;
        let max_scroll = if nlines > editor_height {
            nlines + editor_height / 2 - editor_height
        } else {
            0
        };
        self.scroll_offset.0 = if new_scroll_row < max_scroll {
            new_scroll_row
        } else {
            max_scroll
        };
        self.cursor_manager.notify_activity_for_active(now_ms);
    }

    /// Scroll by key: a request of eight or more rows counts as a page and
    /// uses the viewport height instead; smaller requests scroll as given.
    pub fn handle_key_scroll(&mut self, lines: i16, editor_area: Area, now_ms: u64)
        requires
            old(self).wf(),
            lines > i16::MIN,
            old(self).scroll_offset.0 + 0x8000 <= usize::MAX,
            old(self).active().content@.len() + editor_area.height as int <= usize::MAX,
            editor_area.height as int <= i16::MAX,
        ensures
            final(self).wf(),
            *final(self) == (App {
                scroll_offset: final(self).scroll_offset,
                cursor_manager: final(self).cursor_manager,
                ..*old(self)
            }),
            final(self).scroll_offset.1 == old(self).scroll_offset.1,
            ({
                let adjusted = if lines >= 8 || lines <= -8 {
                    if lines > 0 {
                        editor_area.height as int
                    } else {
                        -(editor_area.height as int)
                    }
                } else {
                    lines as int
                };
                let srow = old(self).scroll_offset.0 as int;
                let moved = if adjusted > 0 {
                    srow + adjusted
                } else {
                    vstd::math::max(srow + adjusted, 0)
                };
                let cap = max_scroll_row_spec(
                    old(self).active().content@.len() as int,
                    editor_area.height as int,
                );
                final(self).scroll_offset.0 as int == vstd::math::min(moved, cap)
            }),
    {
        let magnitude = if lines >= 0 {
            lines
        } else {
            -lines
        };
        let adjusted_lines: i16 = if magnitude >= 8 {
            let page_size = editor_area.height as i16;
            if lines > 0 {
                page_size
            } else {
                -page_size
            }
        } else {
            lines
        };
        self.handle_mouse_scroll(adjusted_lines, editor_area, now_ms);
    }

    /// Same margin-based adjustment as the render path uses.
    pub fn ensure_cursor_visible_with_area(&mut self, area: Area, show_line_numbers: bool)
        requires
            old(self).wf(),
            area.height >= 3,
            old(self).scroll_offset.0 + area.height as int <= usize::MAX,
            show_line_numbers ==> old(self).active().line_number_width_spec() < area.width as int,
            !show_line_numbers ==> area.width > 0,
        ensures
            crate::ui::cursor_in_view_post(*old(self), *final(self), area, show_line_numbers),
    {
        self.ensure_cursor_visible(area, show_line_numbers);
    }

    /// The furthest row the viewport may scroll to without slack: content
    /// height minus viewport height.
    pub fn get_max_scroll_row(&self, editor_area: Area) -> (r: usize)
        requires
            self.wf(),
        ensures
            r == if self.active().content@.len() > editor_area.height as int {
                self.active().content@.len() - editor_area.height as int
            } else {
                0int
            },
    {
        let idx = self.active_buffer;
        let nlines = self.buffers[idx].content.len();
        let editor_height = editor_area.height as usize;
        if nlines > editor_height {
            nlines - editor_height
        } else {
            0
        }
    }

    /// The furthest column the viewport may scroll to: the longest line
    /// minus the visible text columns.
    pub fn get_max_scroll_col(&self, editor_area: Area, show_line_numbers: bool) -> (r: usize)
        requires
            self.wf(),
            show_line_numbers ==> self.active().line_number_width_spec() <= editor_area.width
                as int,
        ensures
            ({
                let lnw = if show_line_numbers {
                    self.active().line_number_width_spec()
                } else {
                    0int
                };
                let visible_cols = editor_area.width as int - lnw;
                &&& r as int == vstd::math::max(longest_line(self.active().lines()) - visible_cols, 0)
            }),
    {
        let idx = self.active_buffer;
        let line_number_width = if show_line_numbers {
            self.buffers[idx].line_number_width()
        } else {
            0
        };
        let visible_cols = editor_area.width as usize - line_number_width;
        let mut max_len: usize = 0;
        let mut i: usize = 0;
        let nlines = self.buffers[idx].content.len();
        proof {
            assert(self.active().lines().take(0) =~= Seq::<Seq<char>>::empty());
        }
        while i < nlines
            invariant
                self.wf(),
                idx == self.active_buffer,
                nlines == self.active().content@.len(),
                i <= nlines,
                max_len as int == longest_line(self.active().lines().take(i as int)),
            decreases nlines - i,
        {
            proof {
                assert(self.active().lines().take(i as int + 1).drop_last() =~= self.active()
                    .lines().take(i as int));
                assert(self.active().lines().take(i as int + 1).last() == self.active().lines()[
                    i as int]);
            }
            let len = self.buffers[idx].content[i].as_str().unicode_len();
            if len > max_len {
                max_len = len;
            }
            i += 1;
        }
        proof {
            assert(self.active().lines().take(nlines as int) =~= self.active().lines());
        }
        if max_len >= visible_cols {
            max_len - visible_cols
        } else {
            0
        }
    }
}

/// The length of the longest line, or zero for no lines.
pub open spec fn longest_line(lines: Seq<Seq<char>>) -> int
    decreases lines.len(),
{
    if lines.len() == 0 {
        0
    } else {
        vstd::math::max(longest_line(lines.drop_last()), lines.last().len() as int)
    }
}

} // verus!
