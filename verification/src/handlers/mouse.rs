//! The mouse interpreter: clicks position the cursor and arm a drag
//! anchor, drags grow a selection from that anchor, release reports the
//! selection, and the wheel moves the viewport without touching the
//! cursor.

use crate::app::App;
use crate::app::CommandMode;
use crate::events::is_status_message;
use crate::events::palette_closed_events;
use crate::events::AppEvent;
use crate::events::MouseInput;
use crate::events::MouseKind;
use crate::handlers::keyboard::search_exit_events;
use crate::input::coordinates::screen_to_buffer_coords;
use crate::input::coordinates::screen_to_buffer_spec;
use crate::input::Area;
use crate::text::spec_count;
use crate::text::spec_decimal;
use vstd::prelude::*;

verus! {

/// How many lines `lines()` reports for a piece of selected text: one per
/// newline, the last line counting only when it is non-empty.
pub open spec fn spec_lines_count(s: Seq<char>) -> nat {
    if s.len() == 0 {
        0nat
    } else if s.last() == '\n' {
        spec_count(s, '\n')
    } else {
        spec_count(s, '\n') + 1
    }
}

/// The status text a click leaves: the one-based position.
pub open spec fn click_message(row: int, col: int) -> Seq<char> {
    "Cursor positioned at "@ + spec_decimal((row + 1) as nat) + ":"@ + spec_decimal(
        (col + 1) as nat,
    )
}

/// The status text a release leaves: the selection size.
pub open spec fn release_message(chars: nat, lines: nat) -> Seq<char> {
    "Selected "@ + spec_decimal(chars) + " characters across "@ + spec_decimal(lines) + " lines"@
}

/// What a left click guarantees, over where it lands.
pub open spec fn click_post(
    pre: App,
    post: App,
    mouse_x: u16,
    mouse_y: u16,
    editor_area: Area,
    show_line_numbers: bool,
    events: Seq<AppEvent>,
) -> bool {
    &&& (post.wf())
    &&& (({
                let lnw = if show_line_numbers {
                    pre.active().line_number_width_spec()
                } else {
                    0int
                };
                let hit = if mouse_y as int >= editor_area.height as int {
                    None
                } else {
                    screen_to_buffer_spec(pre, mouse_x, mouse_y, editor_area, lnw)
                };
                match hit {
                    None => post == pre && events.len() == 0,
                    Some(p) => {
                        &&& post.mouse_drag_start == Some(
                            (p.0 as usize, p.1 as usize),
                        )
                        &&& post.buffers@ == pre.buffers@.update(
                            pre.active_buffer as int,
                            post.active(),
                        )
                        &&& post.active().cursor_pos == (p.0 as usize, p.1 as usize)
                        &&& post.active().selection_start is None
                        &&& !post.active().visual_mode
                        &&& post.active().content@ == pre.active().content@
                        &&& post.active().modified == pre.active().modified
                        &&& post.active().same_file(pre.active())
                        &&& post == (App {
                            buffers: post.buffers,
                            mouse_drag_start: post.mouse_drag_start,
                            ..pre
                        })
                        &&& events.len() == 2
                        &&& crate::events::is_buffer_cursor_moved(events[0], 0, p.0, p.1)
                        &&& is_status_message(events[1], click_message(p.0, p.1))
                    },
                }
            }))
}

/// What a drag with the button held guarantees, over where it lands.
pub open spec fn drag_post(
    pre: App,
    post: App,
    mouse_x: u16,
    mouse_y: u16,
    editor_area: Area,
    show_line_numbers: bool,
    events: Seq<AppEvent>,
) -> bool {
    &&& (post.wf())
    &&& (({
                let lnw = if show_line_numbers {
                    pre.active().line_number_width_spec()
                } else {
                    0int
                };
                let hit = screen_to_buffer_spec(pre, mouse_x, mouse_y, editor_area, lnw);
                match hit {
                    None => post == pre && events.len() == 0,
                    Some(p) => {
                        &&& (pre.mouse_drag_start matches Some(anchor) ==> {
                            &&& post.active().cursor_pos == (
                                p.0 as usize,
                                p.1 as usize,
                            )
                            &&& post.active().visual_mode
                            &&& !pre.active().visual_mode ==> post.active().selection_start == Some(anchor)
                            &&& pre.active().visual_mode ==> post.active().selection_start == pre.active().selection_start
                            &&& post.active().content@ == pre.active().content@
                            &&& post.buffers@ == pre.buffers@.update(
                                pre.active_buffer as int,
                                post.active(),
                            )
                            &&& post == (App {
                                buffers: post.buffers,
                                ..pre
                            })
                        })
                        &&& (pre.mouse_drag_start is None ==> post == pre)
                        &&& events.len() == 1
                        &&& (events[0] matches AppEvent::BufferSelectionChanged {
                            buffer_id,
                            start,
                            end,
                        } && buffer_id == 0 && start == pre.mouse_drag_start && end
                            == Some((p.0 as usize, p.1 as usize)))
                    },
                }
            }))
}

/// What a button release guarantees.
pub open spec fn release_post(pre: App, post: App, events: Seq<AppEvent>) -> bool {
    &&& (post.wf())
    &&& (post == (App { mouse_drag_start: None, ..pre }))
    &&& (pre.active().selection_start is Some ==> events.len() == 1
                && is_status_message(
                events[0],
                release_message(
                    pre.active().sel_text().len(),
                    spec_lines_count(pre.active().sel_text()),
                ),
            ))
    &&& (pre.active().selection_start is None ==> events.len() == 0)
}

/// What wheel scrolling by `delta` rows guarantees.
pub open spec fn scroll_post(
    pre: App,
    post: App,
    delta: int,
    visible_rows: usize,
    events: Seq<AppEvent>,
) -> bool {
    &&& (post.wf())
    &&& (post == (App { scroll_offset: post.scroll_offset, ..pre }))
    &&& (post.scroll_offset.1 == pre.scroll_offset.1)
    &&& (({
                let srow = pre.scroll_offset.0 as int;
                let cap = vstd::math::max(
                    pre.active().content@.len() as int - (visible_rows as int) / 2,
                    0,
                );
                &&& delta > 0 ==> post.scroll_offset.0 as int == vstd::math::min(
                    srow + delta,
                    cap,
                )
                &&& delta <= 0 ==> post.scroll_offset.0 as int == vstd::math::max(
                    srow + delta,
                    0,
                )
            }))
    &&& (events.len() == 1)
    &&& (is_status_message(
                events[0],
                "Scrolled to line "@ + spec_decimal(
                    (post.scroll_offset.0 + 1) as nat,
                ),
            ))
}

/// What a mouse event while the palette is open guarantees: the state is
/// untouched, and only a left click outside the modal publishes the
/// palette-closing events.
pub open spec fn command_mouse_post(
    pre: App,
    post: App,
    mouse: MouseInput,
    screen_width: u16,
    screen_height: u16,
    events: Seq<AppEvent>,
) -> bool {
    &&& (post == pre)
    &&& (({
                let modal_width = (screen_width as int) * 60 / 100;
                let modal_x = (screen_width as int - modal_width) / 2;
                let modal_y = (screen_height as int - 3) / 2;
                let inside = mouse.column as int >= modal_x && (mouse.column as int) < modal_x
                    + modal_width && mouse.row as int >= modal_y && (mouse.row as int) < modal_y
                    + 3;
                &&& mouse.kind is LeftDown && !inside ==> palette_closed_events(events)
                &&& mouse.kind is LeftDown && inside ==> events.len() == 0
                &&& !(mouse.kind is LeftDown) ==> events.len() == 0
            }))
}

/// What a mouse event in normal mode guarantees, by kind: a left press
/// behaves as a click, a held drag as a drag, a release as a release, the
/// wheel as a scroll of eight rows up or down, the other buttons only
/// report themselves.
pub open spec fn normal_mouse_post(
    pre: App,
    post: App,
    mouse: MouseInput,
    editor_area: Area,
    show_line_numbers: bool,
    visible_rows: usize,
    events: Seq<AppEvent>,
) -> bool {
    match mouse.kind {
        MouseKind::LeftDown => click_post(
            pre,
            post,
            mouse.column,
            mouse.row,
            editor_area,
            show_line_numbers,
            events,
        ),
        MouseKind::LeftDrag => drag_post(
            pre,
            post,
            mouse.column,
            mouse.row,
            editor_area,
            show_line_numbers,
            events,
        ),
        MouseKind::LeftUp => release_post(pre, post, events),
        MouseKind::ScrollUp => scroll_post(pre, post, -8, visible_rows, events),
        MouseKind::ScrollDown => scroll_post(pre, post, 8, visible_rows, events),
        MouseKind::RightDown => post == pre && events.len() == 1 && is_status_message(
            events[0],
            "Right click detected"@,
        ),
        MouseKind::MiddleDown => post == pre && events.len() == 1 && is_status_message(
            events[0],
            "Middle click detected"@,
        ),
        MouseKind::Other => post == pre && events.len() == 0,
    }
}

impl App {
    /// A left click: position the cursor at the clicked cell, clear any
    /// selection, arm the drag anchor there, and announce the position.
    /// Clicks outside the editor area do nothing.
    pub fn handle_click(&mut self, mouse_x: u16, mouse_y: u16, editor_area: Area, show_line_numbers: bool) -> (events: Vec<AppEvent>)
        requires
            old(self).wf(),
            crate::buffer::has_room(old(self).active()),
            editor_area.wf(),
            old(self).scroll_offset.0 + editor_area.height as int <= usize::MAX,
            old(self).scroll_offset.1 + editor_area.width as int <= usize::MAX,
        ensures
            click_post(
                *old(self),
                *final(self),
                mouse_x,
                mouse_y,
                editor_area,
                show_line_numbers,
                events@,
            ),
    {
        let mut events: Vec<AppEvent> = Vec::new();
        if mouse_y >= editor_area.height {
            return events;
        }
        let hit = screen_to_buffer_coords(self, mouse_x, mouse_y, editor_area, show_line_numbers);
        match hit {
            None => events,
            Some((buffer_row, buffer_col)) => {
                let idx = self.active_buffer;
                let buffer = &mut self.buffers[idx];
                buffer.clear_selection();
                buffer.cursor_pos = (buffer_row, buffer_col);
                self.mouse_drag_start = Some((buffer_row, buffer_col));
                events.push(
                    AppEvent::BufferCursorMoved { buffer_id: 0, row: buffer_row, col: buffer_col },
                );
                let mut msg = String::from_str("Cursor positioned at ");
                proof {
                    assert(buffer_row < self.active().content@.len());
                }
                let r = crate::text::usize_to_string(buffer_row + 1);
                msg.append(r.as_str());
                msg.append(":");
                let c = crate::text::usize_to_string(buffer_col + 1);
                msg.append(c.as_str());
                events.push(AppEvent::StatusMessage { message: msg });
                proof {
                    assert(self.buffers@ =~= old(self).buffers@.update(
                        old(self).active_buffer as int,
                        self.active(),
                    ));
                }
                events
            },
        }
    }

    /// A drag with the button held: grow the selection from the drag
    /// anchor (entering visual mode anchored there if needed) and move
    /// the cursor to the dragged cell; announce the selection change.
    pub fn handle_drag(&mut self, mouse_x: u16, mouse_y: u16, editor_area: Area, show_line_numbers: bool) -> (events: Vec<AppEvent>)
        requires
            old(self).wf(),
            editor_area.wf(),
            old(self).scroll_offset.0 + editor_area.height as int <= usize::MAX,
            old(self).scroll_offset.1 + editor_area.width as int <= usize::MAX,
        ensures
            drag_post(
                *old(self),
                *final(self),
                mouse_x,
                mouse_y,
                editor_area,
                show_line_numbers,
                events@,
            ),
    {
        let mut events: Vec<AppEvent> = Vec::new();
        let hit = screen_to_buffer_coords(self, mouse_x, mouse_y, editor_area, show_line_numbers);
        match hit {
            None => events,
            Some((buffer_row, buffer_col)) => {
                let mouse_drag_start = self.mouse_drag_start;
                match mouse_drag_start {
                    Some(start_pos) => {
                        let idx = self.active_buffer;
                        let buffer = &mut self.buffers[idx];
                        if !buffer.visual_mode {
                            buffer.visual_mode = true;
                            buffer.selection_start = Some(start_pos);
                        }
                        buffer.cursor_pos = (buffer_row, buffer_col);
                        proof {
                            assert(self.buffers@ =~= old(self).buffers@.update(
                                old(self).active_buffer as int,
                                self.active(),
                            ));
                        }
                    },
                    None => (),
                }
                events.push(
                    AppEvent::BufferSelectionChanged {
                        buffer_id: 0,
                        start: mouse_drag_start,
                        end: Some((buffer_row, buffer_col)),
                    },
                );
                events
            },
        }
    }

    /// Release: disarm the drag anchor and, if a selection stands, report
    /// its size in characters and lines.
    pub fn handle_release(&mut self, mouse_x: u16, mouse_y: u16) -> (events: Vec<AppEvent>)
        requires
            old(self).wf(),
            old(self).active().selection_wf(),
        ensures
            release_post(*old(self), *final(self), events@),
    {
        let mut events: Vec<AppEvent> = Vec::new();
        self.mouse_drag_start = None;
        let idx = self.active_buffer;
        let selected = self.buffers[idx].get_selected_text();
        match selected {
            Some(text) => {
                let char_count = text.as_str().unicode_len();
                let newline_count = crate::text::count_char(text.as_str(), '\n');
                let line_count = if char_count == 0 {
                    0
                } else {
                    let last = text.as_str().get_char(char_count - 1);
                    if last == '\n' {
                        newline_count
                    } else {
                        proof {
                            crate::text::lemma_count_le_len(text@.drop_last(), '\n');
                            assert(spec_count(text@, '\n') == spec_count(text@.drop_last(), '\n'));
                            assert(newline_count < char_count);
                        }
                        newline_count + 1
                    }
                };
                let mut msg = String::from_str("Selected ");
                let n = crate::text::usize_to_string(char_count);
                msg.append(n.as_str());
                msg.append(" characters across ");
                let l = crate::text::usize_to_string(line_count);
                msg.append(l.as_str());
                msg.append(" lines");
                events.push(AppEvent::StatusMessage { message: msg });
            },
            None => (),
        }
        events
    }

    /// Wheel scrolling: move the viewport by `delta` rows, clamped so the
    /// view stops half a viewport past the content; the cursor never
    /// moves. The new top line is announced.
    pub fn handle_scroll(&mut self, delta: i32, visible_rows: usize) -> (events: Vec<AppEvent>)
        requires
            old(self).wf(),
            -0x8000 <= delta <= 0x8000,
            old(self).scroll_offset.0 + 0x8001 <= usize::MAX,
        ensures
            scroll_post(*old(self), *final(self), delta as int, visible_rows, events@),
    {
        let (current_row, current_col) = self.scroll_offset;
        let idx = self.active_buffer;
        let nlines = self.buffers[idx].content.len();
        let max_scroll_row = if nlines >= visible_rows / 2 {
            nlines - visible_rows / 2
        } else {
            0
        };
        if delta > 0 {
            let stepped = current_row + delta as usize;
            let new_row = if stepped < max_scroll_row {
                stepped
            } else {
                max_scroll_row
            };
            self.scroll_offset = (new_row, current_col);
        } else {
            let back = (-delta) as usize;
            let new_row = if current_row >= back {
                current_row - back
            } else {
                0
            };
            self.scroll_offset = (new_row, current_col);
        }
        let mut msg = String::from_str("Scrolled to line ");
        let n = crate::text::usize_to_string(self.scroll_offset.0 + 1);
        msg.append(n.as_str());
        let mut events: Vec<AppEvent> = Vec::new();
        events.push(AppEvent::StatusMessage { message: msg });
        events
    }

    /// Whether a screen cell lies inside the centered command palette
    /// modal.
    pub fn is_click_in_command_palette(&self, mouse_x: u16, mouse_y: u16, screen_width: u16, screen_height: u16) -> (r: bool)
        requires
            screen_height >= 3,
        ensures
            ({
                let modal_width = (screen_width as int) * 60 / 100;
                let modal_height = 3int;
                let modal_x = (screen_width as int - modal_width) / 2;
                let modal_y = (screen_height as int - modal_height) / 2;
                r == (mouse_x as int >= modal_x && (mouse_x as int) < modal_x + modal_width
                    && mouse_y as int >= modal_y && (mouse_y as int) < modal_y + modal_height)
            }),
    {
        let modal_width = (screen_width as u32) * 60 / 100;
        let modal_height: u32 = 3;
        let modal_x = (screen_width as u32 - modal_width) / 2;
        let modal_y = (screen_height as u32 - modal_height) / 2;
        mouse_x as u32 >= modal_x && (mouse_x as u32) < modal_x + modal_width && mouse_y
            as u32 >= modal_y && (mouse_y as u32) < modal_y + modal_height
    }

    /// The events that close the palette after a click outside it.
    pub fn close_command_palette(&self) -> (events: Vec<AppEvent>)
        ensures
            palette_closed_events(events@),
    {
        let mut events: Vec<AppEvent> = Vec::new();
        events.push(AppEvent::HideCommandPalette);
        events.push(AppEvent::ModeChanged { new_mode: String::from_str("normal") });
        events.push(AppEvent::CursorHide { context: String::from_str("command_palette") });
        events.push(AppEvent::CursorShow { context: String::from_str("editor") });
        events
    }

    /// A mouse event in normal mode: left press, drag and release drive
    /// selection; the wheel scrolls by eight lines; the other buttons only
    /// report themselves.
    pub fn handle_normal_mode_mouse(&mut self, mouse: MouseInput, editor_area: Area, show_line_numbers: bool, visible_rows: usize) -> (events: Vec<AppEvent>)
        requires
            old(self).wf(),
            crate::buffer::has_room(old(self).active()),
            old(self).active().selection_wf(),
            editor_area.wf(),
            old(self).scroll_offset.0 + editor_area.height as int <= usize::MAX,
            old(self).scroll_offset.1 + editor_area.width as int <= usize::MAX,
            old(self).scroll_offset.0 + 0x8001 <= usize::MAX,
        ensures
            final(self).wf(),
            normal_mouse_post(
                *old(self),
                *final(self),
                mouse,
                editor_area,
                show_line_numbers,
                visible_rows,
                events@,
            ),
    {
        match mouse.kind {
            MouseKind::LeftDown => self.handle_click(
                mouse.column,
                mouse.row,
                editor_area,
                show_line_numbers,
            ),
            MouseKind::LeftDrag => self.handle_drag(
                mouse.column,
                mouse.row,
                editor_area,
                show_line_numbers,
            ),
            MouseKind::LeftUp => self.handle_release(mouse.column, mouse.row),
            MouseKind::ScrollUp => self.handle_scroll(-8, visible_rows),
            MouseKind::ScrollDown => self.handle_scroll(8, visible_rows),
            MouseKind::RightDown => {
                let mut events: Vec<AppEvent> = Vec::new();
                events.push(
                    AppEvent::StatusMessage { message: String::from_str("Right click detected") },
                );
                events
            },
            MouseKind::MiddleDown => {
                let mut events: Vec<AppEvent> = Vec::new();
                events.push(
                    AppEvent::StatusMessage { message: String::from_str("Middle click detected") },
                );
                events
            },
            MouseKind::Other => Vec::new(),
        }
    }

    /// A mouse event while the palette is open: a left click outside the
    /// modal closes it; everything else is ignored.
    pub fn handle_command_mode_mouse(&mut self, mouse: MouseInput, screen_width: u16, screen_height: u16) -> (events: Vec<AppEvent>)
        requires
            screen_height >= 3,
        ensures
            command_mouse_post(
                *old(self),
                *final(self),
                mouse,
                screen_width,
                screen_height,
                events@,
            ),
    {
        match mouse.kind {
            MouseKind::LeftDown => {
                if !self.is_click_in_command_palette(
                    mouse.column,
                    mouse.row,
                    screen_width,
                    screen_height,
                ) {
                    self.close_command_palette()
                } else {
                    Vec::new()
                }
            },
            _ => Vec::new(),
        }
    }

    /// A mouse event in file-search mode: a left click returns to normal
    /// mode.
    pub fn handle_file_search_mode_mouse(&mut self, mouse: MouseInput) -> (events: Vec<AppEvent>)
        ensures
            *final(self) == *old(self),
            mouse.kind is LeftDown ==> search_exit_events(events@, "file_search"@),
            !(mouse.kind is LeftDown) ==> events@.len() == 0,
    {
        let mut events: Vec<AppEvent> = Vec::new();
        match mouse.kind {
            MouseKind::LeftDown => {
                events.push(AppEvent::ModeChanged { new_mode: String::from_str("normal") });
                events.push(AppEvent::CursorHide { context: String::from_str("file_search") });
                events.push(AppEvent::CursorShow { context: String::from_str("editor") });
            },
            _ => (),
        }
        events
    }

    /// A mouse event in text-search mode: a left click returns to normal
    /// mode.
    pub fn handle_text_search_mode_mouse(&mut self, mouse: MouseInput) -> (events: Vec<AppEvent>)
        ensures
            *final(self) == *old(self),
            mouse.kind is LeftDown ==> search_exit_events(events@, "text_search"@),
            !(mouse.kind is LeftDown) ==> events@.len() == 0,
    {
        let mut events: Vec<AppEvent> = Vec::new();
        match mouse.kind {
            MouseKind::LeftDown => {
                events.push(AppEvent::ModeChanged { new_mode: String::from_str("normal") });
                events.push(AppEvent::CursorHide { context: String::from_str("text_search") });
                events.push(AppEvent::CursorShow { context: String::from_str("editor") });
            },
            _ => (),
        }
        events
    }

    /// A mouse event under the current mode.
    pub fn handle_mouse_event(&mut self, mouse: MouseInput, editor_area: Area, show_line_numbers: bool, visible_rows: usize, screen_width: u16, screen_height: u16) -> (events: Vec<
        AppEvent,
    >)
        requires
            old(self).wf(),
            crate::buffer::has_room(old(self).active()),
            old(self).active().selection_wf(),
            editor_area.wf(),
            screen_height >= 3,
            old(self).scroll_offset.0 + editor_area.height as int <= usize::MAX,
            old(self).scroll_offset.1 + editor_area.width as int <= usize::MAX,
            old(self).scroll_offset.0 + 0x8001 <= usize::MAX,
        ensures
            final(self).wf(),
            old(self).command_mode is Normal ==> normal_mouse_post(
                *old(self),
                *final(self),
                mouse,
                editor_area,
                show_line_numbers,
                visible_rows,
                events@,
            ),
            old(self).command_mode is Command ==> command_mouse_post(
                *old(self),
                *final(self),
                mouse,
                screen_width,
                screen_height,
                events@,
            ),
            old(self).command_mode is FileSearch ==> *final(self) == *old(self) && (mouse.kind
                is LeftDown ==> search_exit_events(events@, "file_search"@)) && (!(mouse.kind
                is LeftDown) ==> events@.len() == 0),
            old(self).command_mode is TextSearch ==> *final(self) == *old(self) && (mouse.kind
                is LeftDown ==> search_exit_events(events@, "text_search"@)) && (!(mouse.kind
                is LeftDown) ==> events@.len() == 0),
    {
        match self.command_mode {
            CommandMode::Normal => self.handle_normal_mode_mouse(
                mouse,
                editor_area,
                show_line_numbers,
                visible_rows,
            ),
            CommandMode::Command => self.handle_command_mode_mouse(
                mouse,
                screen_width,
                screen_height,
            ),
            CommandMode::FileSearch => self.handle_file_search_mode_mouse(mouse),
            CommandMode::TextSearch => self.handle_text_search_mode_mouse(mouse),
        }
    }
}

} // verus!
