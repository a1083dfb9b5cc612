//! Screen/buffer coordinate mapping: clicks translate through the editor
//! area, the line-number gutter and the scroll offset into buffer
//! positions, clamped to the document; buffer positions translate back to
//! screen cells when they are scrolled into view.

use crate::app::App;
use crate::input::Area;
use vstd::prelude::*;

verus! {

/// Where a click at `(mouse_x, mouse_y)` lands in the buffer, if
/// anywhere: `None` outside the editor area and below the last line in
/// the gutter; column 0 for gutter clicks; otherwise the scrolled
/// position, clamped to the end of the last line for clicks past the
/// content and to the clicked line's length for clicks past its end.
pub open spec fn screen_to_buffer_spec(
    app: App,
    mouse_x: u16,
    mouse_y: u16,
    area: Area,
    lnw: int,
) -> Option<(int, int)> {
    if mouse_x < area.x || mouse_x as int >= area.x + area.width || mouse_y < area.y
        || mouse_y as int >= area.y + area.height {
        None
    } else {
        let relative_x = mouse_x - area.x;
        let relative_y = mouse_y - area.y;
        let row = app.scroll_offset.0 + relative_y;
        let b = app.active();
        if relative_x < lnw {
            if row < b.content@.len() {
                Some((row as int, 0int))
            } else {
                None
            }
        } else {
            let col = app.scroll_offset.1 + relative_x - lnw;
            if row >= b.content@.len() {
                Some(
                    (
                        b.content@.len() - 1,
                        b.line_at(b.content@.len() - 1).len() as int,
                    ),
                )
            } else {
                Some((row as int, vstd::math::min(col as int, b.line_at(row as int).len() as int)))
            }
        }
    }
}

/// Translate a click to a buffer position.
pub fn screen_to_buffer_coords(app: &App, mouse_x: u16, mouse_y: u16, editor_area: Area, show_line_numbers: bool) -> (r: Option<(usize, usize)>)
    requires
        app.wf(),
        editor_area.wf(),
        app.scroll_offset.0 + editor_area.height as int <= usize::MAX,
        app.scroll_offset.1 + editor_area.width as int <= usize::MAX,
    ensures
        ({
            let lnw = if show_line_numbers {
                app.active().line_number_width_spec()
            } else {
                0int
            };
            match screen_to_buffer_spec(*app, mouse_x, mouse_y, editor_area, lnw) {
                None => r is None,
                Some(p) => r matches Some(q) && q.0 == p.0 && q.1 == p.1,
            }
        }),
{
    if mouse_x < editor_area.x || mouse_x - editor_area.x >= editor_area.width || mouse_y
        < editor_area.y || mouse_y - editor_area.y >= editor_area.height {
        return None;
    }
    let relative_x = mouse_x - editor_area.x;
    let relative_y = mouse_y - editor_area.y;

    let idx = app.active_buffer;
    let line_number_width = if show_line_numbers {
        app.buffers[idx].line_number_width()
    } else {
        0
    };

    let (scroll_row, scroll_col) = app.scroll_offset;
    let buffer_row = scroll_row + relative_y as usize;
    let nlines = app.buffers[idx].content.len();

    if (relative_x as usize) < line_number_width {
        if buffer_row < nlines {
            return Some((buffer_row, 0));
        }
        return None;
    }

    let text_relative_x = relative_x as usize - line_number_width;
    let buffer_col = scroll_col + text_relative_x;

    if buffer_row >= nlines {
        let last_row = nlines - 1;
        let last_col = app.buffers[idx].content[last_row].as_str().unicode_len();
        return Some((last_row, last_col));
    }

    let line_len = app.buffers[idx].content[buffer_row].as_str().unicode_len();
    let adjusted_col = if buffer_col < line_len {
        buffer_col
    } else {
        line_len
    };
    Some((buffer_row, adjusted_col))
}

/// The editor's share of the terminal: everything above the one-row
/// status line.
pub fn calculate_editor_area(terminal_area: Area) -> (r: Area)
    ensures
        r.x == 0,
        r.y == 0,
        r.width == terminal_area.width,
        r.height as int == vstd::math::max(terminal_area.height as int - 1, 0),
{
    Area {
        x: 0,
        y: 0,
        width: terminal_area.width,
        height: if terminal_area.height >= 1 {
            terminal_area.height - 1
        } else {
            0
        },
    }
}

/// Where a buffer position lands on screen, if it is scrolled into view:
/// `None` above or left of the viewport, below its rows or right of its
/// columns.
pub open spec fn buffer_to_screen_spec(
    app: App,
    buffer_row: int,
    buffer_col: int,
    area: Area,
    lnw: int,
) -> Option<(int, int)> {
    let srow = app.scroll_offset.0 as int;
    let scol = app.scroll_offset.1 as int;
    if buffer_row < srow || buffer_col < scol {
        None
    } else {
        let relative_row = buffer_row - srow;
        let relative_col = buffer_col - scol;
        if relative_row >= area.height {
            None
        } else {
            let screen_col = relative_col + lnw;
            if screen_col >= area.width {
                None
            } else {
                Some((area.x + screen_col, area.y + relative_row))
            }
        }
    }
}

/// Translate a buffer position to a screen cell.
pub fn buffer_to_screen_coords(app: &App, buffer_row: usize, buffer_col: usize, editor_area: Area, show_line_numbers: bool) -> (r: Option<(u16, u16)>)
    requires
        app.wf(),
        editor_area.wf(),
    ensures
        ({
            let lnw = if show_line_numbers {
                app.active().line_number_width_spec()
            } else {
                0int
            };
            match buffer_to_screen_spec(
                *app,
                buffer_row as int,
                buffer_col as int,
                editor_area,
                lnw,
            ) {
                None => r is None,
                Some(p) => r matches Some(q) && q.0 == p.0 && q.1 == p.1,
            }
        }),
{
    let (scroll_row, scroll_col) = app.scroll_offset;
    if buffer_row < scroll_row || buffer_col < scroll_col {
        return None;
    }
    let relative_row = buffer_row - scroll_row;
    let relative_col = buffer_col - scroll_col;
    if relative_row >= editor_area.height as usize {
        return None;
    }
    let idx = app.active_buffer;
    let line_number_width = if show_line_numbers {
        app.buffers[idx].line_number_width()
    } else {
        0
    };
    if relative_col >= editor_area.width as usize || line_number_width >= editor_area.width
        as usize - relative_col {
        return None;
    }
    let screen_col = relative_col + line_number_width;
    Some(
        (
            editor_area.x + screen_col as u16,
            editor_area.y + relative_row as u16,
        ),
    )
}

} // verus!
