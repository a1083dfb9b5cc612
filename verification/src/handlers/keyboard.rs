//! The keyboard interpreter: each key press, under the current mode,
//! mutates the editor state and yields the follow-up events to publish and
//! at most one file-system request for the surrounding binary.

use crate::app::App;
use crate::app::CommandMode;
use crate::buffer::backspace_post;
use crate::buffer::delete_post;
use crate::buffer::delete_selection_post;
use crate::buffer::doc;
use crate::buffer::has_room;
use crate::buffer::insert_char_post;
use crate::buffer::insert_newline_post;
use crate::buffer::move_cursor_post;
use crate::buffer::spec_clear_selection;
use crate::buffer::toggle_visual_post;
use crate::buffer::Buffer;
use crate::buffer::CursorMovement;
use crate::events::is_buffer_changed;
use crate::events::is_buffer_cursor_moved;
use crate::events::is_status_message;
use crate::events::is_toast_message;
use crate::events::palette_opened_events;
use crate::events::AppEvent;
use crate::events::KeyCode;
use crate::events::KeyInput;
use crate::text::spec_decimal;
use vstd::prelude::*;

verus! {

/// A request the core cannot perform itself: the surrounding binary does
/// the file or configuration work and reports back.
#[derive(Debug)]
pub enum IoAction {
    SaveFile { path: String, content: String },
    OpenFile { path: String },
    ToggleLineNumbers,
}

/// What handling one key yields: events to publish after the state lock
/// is released, and at most one I/O request.
#[derive(Debug)]
pub struct KeyOutcome {
    pub events: Vec<AppEvent>,
    pub action: Option<IoAction>,
}

/// The buffer is in visual mode with a selection anchor present.
pub open spec fn sel_active(b: Buffer) -> bool {
    b.visual_mode && b.selection_start is Some
}

/// Everything but the buffer list is untouched.
pub open spec fn same_except_buffers(pre: App, post: App) -> bool {
    post == (App { buffers: post.buffers, ..pre })
}

/// Everything but the buffer list, active index and scroll is untouched.
pub open spec fn same_except_buffer_focus(pre: App, post: App) -> bool {
    post == (App {
        buffers: post.buffers,
        active_buffer: post.active_buffer,
        scroll_offset: post.scroll_offset,
        ..pre
    })
}

/// What handling this input guarantees.
pub open spec fn escape_post(pre: App, post: App, events: Seq<AppEvent>) -> bool {
    &&& (post.wf())
    &&& (pre.active().visual_mode ==> {
                &&& same_except_buffers(pre, post)
                &&& post.buffers@ == pre.buffers@.update(
                    pre.active_buffer as int,
                    spec_clear_selection(pre.active()),
                )
                &&& events.len() == 1
                &&& is_status_message(events[0], "Selection cleared"@)
            })
    &&& (!pre.active().visual_mode ==> post == pre && events.len() == 0)
}

/// What handling this input guarantees.
pub open spec fn movement_key_post(pre: App, post: App, movement: CursorMovement, shift: bool, events: Seq<AppEvent>) -> bool {
    &&& (post.wf())
    &&& (same_except_buffers(pre, post))
    &&& (post.buffers@ == pre.buffers@.update(
                pre.active_buffer as int,
                post.active(),
            ))
    &&& (({
                let mid = if shift && !pre.active().visual_mode {
                    Buffer {
                        visual_mode: true,
                        selection_start: Some(pre.active().cursor_pos),
                        ..pre.active()
                    }
                } else {
                    pre.active()
                };
                move_cursor_post(mid, post.active(), movement)
            }))
    &&& (events.len() == 1)
    &&& (is_buffer_cursor_moved(
                events[0],
                0,
                post.active().cursor_pos.0 as int,
                post.active().cursor_pos.1 as int,
            ))
}

/// What handling this input guarantees.
pub open spec fn char_key_post(pre: App, post: App, c: char, events: Seq<AppEvent>) -> bool {
    &&& (post.wf())
    &&& (same_except_buffers(pre, post))
    &&& (post.buffers@ == pre.buffers@.update(
                pre.active_buffer as int,
                post.active(),
            ))
    &&& (sel_active(pre.active()) ==> exists|mid: Buffer|
                delete_selection_post(pre.active(), mid) && insert_char_post(
                    mid,
                    post.active(),
                    c,
                ))
    &&& (pre.active().visual_mode && pre.active().selection_start is None
                ==> insert_char_post(
                spec_clear_selection(pre.active()),
                post.active(),
                c,
            ))
    &&& (!pre.active().visual_mode ==> insert_char_post(
                pre.active(),
                post.active(),
                c,
            ))
    &&& (events.len() == 1)
    &&& (is_buffer_changed(events[0], 0, doc(post.active().lines())))
}

/// What handling this input guarantees.
pub open spec fn enter_key_post(pre: App, post: App, events: Seq<AppEvent>) -> bool {
    &&& (post.wf())
    &&& (same_except_buffers(pre, post))
    &&& (post.buffers@ == pre.buffers@.update(
                pre.active_buffer as int,
                post.active(),
            ))
    &&& (sel_active(pre.active()) ==> exists|mid: Buffer|
                delete_selection_post(pre.active(), mid) && insert_newline_post(
                    mid,
                    post.active(),
                ))
    &&& (pre.active().visual_mode && pre.active().selection_start is None
                ==> insert_newline_post(
                spec_clear_selection(pre.active()),
                post.active(),
            ))
    &&& (!pre.active().visual_mode ==> insert_newline_post(
                pre.active(),
                post.active(),
            ))
    &&& (events.len() == 1)
    &&& (is_buffer_changed(events[0], 0, doc(post.active().lines())))
}

/// What handling this input guarantees.
pub open spec fn backspace_key_post(pre: App, post: App, events: Seq<AppEvent>) -> bool {
    &&& (post.wf())
    &&& (same_except_buffers(pre, post))
    &&& (post.buffers@ == pre.buffers@.update(
                pre.active_buffer as int,
                post.active(),
            ))
    &&& (sel_active(pre.active()) ==> delete_selection_post(
                pre.active(),
                post.active(),
            ))
    &&& (pre.active().visual_mode && pre.active().selection_start is None ==> post.active() == spec_clear_selection(pre.active()))
    &&& (!pre.active().visual_mode ==> backspace_post(
                pre.active(),
                post.active(),
            ))
    &&& (events.len() == 1)
    &&& (is_buffer_changed(events[0], 0, doc(post.active().lines())))
}

/// What handling this input guarantees.
pub open spec fn delete_key_post(pre: App, post: App, events: Seq<AppEvent>) -> bool {
    &&& (post.wf())
    &&& (same_except_buffers(pre, post))
    &&& (post.buffers@ == pre.buffers@.update(
                pre.active_buffer as int,
                post.active(),
            ))
    &&& (sel_active(pre.active()) ==> delete_selection_post(
                pre.active(),
                post.active(),
            ))
    &&& (pre.active().visual_mode && pre.active().selection_start is None ==> post.active() == spec_clear_selection(pre.active()))
    &&& (!pre.active().visual_mode ==> delete_post(
                pre.active(),
                post.active(),
            ))
    &&& (events.len() == 1)
    &&& (is_buffer_changed(events[0], 0, doc(post.active().lines())))
}

/// What handling this input guarantees.
pub open spec fn new_buffer_post(pre: App, post: App, events: Seq<AppEvent>) -> bool {
    &&& (pre.wf() ==> post.wf())
    &&& (post.buffers@.len() == pre.buffers@.len() + 1)
    &&& (forall|i: int| 0 <= i < pre.buffers@.len() ==> post.buffers@[i] == pre.buffers@[i])
    &&& (post.active() == post.buffers@.last())
    &&& (post.active().content@.len() == 1)
    &&& (post.active().line_at(0).len() == 0)
    &&& (!post.active().modified)
    &&& (post.active_buffer == pre.buffers@.len())
    &&& (post.scroll_offset == (0usize, 0usize))
    &&& (same_except_buffer_focus(pre, post))
    &&& (events.len() == 1)
    &&& (is_status_message(events[0], "New buffer created"@))
}

/// What handling this input guarantees.
pub open spec fn toggle_visual_key_post(pre: App, post: App, events: Seq<AppEvent>) -> bool {
    &&& (post.wf())
    &&& (same_except_buffers(pre, post))
    &&& (post.buffers@ == pre.buffers@.update(
                pre.active_buffer as int,
                post.active(),
            ))
    &&& (toggle_visual_post(pre.active(), post.active()))
    &&& (events.len() == 1)
    &&& (post.active().visual_mode ==> is_status_message(
                events[0],
                "Visual mode enabled"@,
            ))
    &&& (!post.active().visual_mode ==> is_status_message(
                events[0],
                "Visual mode disabled"@,
            ))
}

/// What handling this input guarantees.
pub open spec fn cut_post(pre: App, post: App, events: Seq<AppEvent>) -> bool {
    &&& (post.wf())
    &&& (pre.active().selection_start is Some ==> {
                &&& same_except_buffers(pre, post)
                &&& post.buffers@ == pre.buffers@.update(
                    pre.active_buffer as int,
                    post.active(),
                )
                &&& delete_selection_post(pre.active(), post.active())
                &&& events.len() == 2
                &&& is_buffer_changed(events[0], 0, doc(post.active().lines()))
                &&& is_status_message(
                    events[1],
                    "Cut "@ + spec_decimal(pre.active().sel_text().len()) + " characters"@,
                )
            })
    &&& (pre.active().selection_start is None ==> {
                &&& post == pre
                &&& events.len() == 1
                &&& is_status_message(events[0], "No text selected"@)
            })
}

/// What handling this input guarantees.
pub open spec fn next_buffer_post(pre: App, post: App, events: Seq<AppEvent>) -> bool {
    &&& (post.wf())
    &&& (pre.buffers@.len() <= 1 ==> post == pre && events.len() == 0)
    &&& (pre.buffers@.len() > 1 ==> {
                &&& same_except_buffer_focus(pre, post)
                &&& post.buffers@ == pre.buffers@
                &&& post.active_buffer as int == (pre.active_buffer as int + 1) % (
                pre.buffers@.len() as int)
                &&& post.scroll_offset == (0usize, 0usize)
                &&& events.len() == 1
                &&& is_status_message(
                    events[0],
                    "Switched to buffer: "@ + post.active().name@,
                )
            })
}

/// What handling this input guarantees.
pub open spec fn prev_buffer_post(pre: App, post: App, events: Seq<AppEvent>) -> bool {
    &&& (post.wf())
    &&& (pre.buffers@.len() <= 1 ==> post == pre && events.len() == 0)
    &&& (pre.buffers@.len() > 1 ==> {
                &&& same_except_buffer_focus(pre, post)
                &&& post.buffers@ == pre.buffers@
                &&& post.active_buffer as int == if pre.active_buffer == 0 {
                    pre.buffers@.len() - 1
                } else {
                    pre.active_buffer - 1
                }
                &&& post.scroll_offset == (0usize, 0usize)
                &&& events.len() == 1
                &&& is_status_message(
                    events[0],
                    "Switched to buffer: "@ + post.active().name@,
                )
            })
}

/// What handling this input guarantees.
pub open spec fn open_command_post(pre: App, post: App, events: Seq<AppEvent>) -> bool {
    &&& (post == (App {
                command_mode: CommandMode::Command,
                command_input: post.command_input,
                show_command_palette: true,
                ..pre
            }))
    &&& (post.command_input@ == "open "@)
    &&& (palette_opened_events(events))
}

/// What handling this input guarantees.
pub open spec fn copy_post(pre: App, events: Seq<AppEvent>) -> bool {
    &&& (events.len() == 1)
    &&& (pre.active().selection_start is Some ==> is_status_message(
                events[0],
                "Copied "@ + spec_decimal(pre.active().sel_text().len()) + " characters"@,
            ))
    &&& (pre.active().selection_start is None ==> is_status_message(
                events[0],
                "No text selected"@,
            ))
}

/// What handling this input guarantees.
pub open spec fn save_command_post(pre: App, events: Seq<AppEvent>, action: Option<IoAction>) -> bool {
    &&& (pre.active().path matches Some(p) ==> {
                &&& events.len() == 0
                &&& action matches Some(a) && a matches IoAction::SaveFile {
                    path,
                    content,
                } && path@ == p@ && content@ == doc(pre.active().lines())
            })
    &&& (pre.active().path is None ==> {
                &&& action is None
                &&& events.len() == 1
                &&& is_status_message(events[0], "No file path - use save as command"@)
            })
}

impl App {
    /// Escape: a live selection is cleared and announced; otherwise nothing
    /// happens.
    pub fn handle_escape(&mut self) -> (events: Vec<AppEvent>)
        requires
            old(self).wf(),
        ensures
            escape_post(*old(self), *final(self), events@),
    {
        let mut events: Vec<AppEvent> = Vec::new();
        let idx = self.active_buffer;
        if self.buffers[idx].visual_mode {
            let buffer = &mut self.buffers[idx];
            buffer.clear_selection();
            events.push(
                AppEvent::StatusMessage { message: String::from_str("Selection cleared") },
            );
            proof {
                assert(self.buffers@ =~= old(self).buffers@.update(
                    old(self).active_buffer as int,
                    spec_clear_selection(old(self).active()),
                ));
            }
        }
        events
    }

    /// A cursor movement key: with Shift held and no selection active,
    /// visual mode is entered first (anchoring at the old cursor); then
    /// the cursor moves and its new position is announced.
    pub fn handle_cursor_movement(&mut self, movement: CursorMovement, shift: bool) -> (events:
        Vec<AppEvent>)
        requires
            old(self).wf(),
        ensures
            movement_key_post(*old(self), *final(self), movement, shift, events@),
    {
        let mut events: Vec<AppEvent> = Vec::new();
        let idx = self.active_buffer;
        let buffer = &mut self.buffers[idx];
        if shift && !buffer.visual_mode {
            buffer.toggle_visual_mode();
        }
        buffer.move_cursor(movement);
        let (row, col) = buffer.cursor_pos;
        events.push(AppEvent::BufferCursorMoved { buffer_id: 0, row, col });
        proof {
            assert(self.buffers@ =~= old(self).buffers@.update(
                old(self).active_buffer as int,
                self.active(),
            ));
        }
        events
    }

    /// A printable character: a live selection is deleted first, then the
    /// character is inserted at the cursor, and the new document content
    /// is announced.
    pub fn handle_char_input(&mut self, c: char) -> (events: Vec<AppEvent>)
        requires
            old(self).wf(),
            old(self).active().selection_wf(),
            has_room(old(self).active()),
        ensures
            char_key_post(*old(self), *final(self), c, events@),
    {
        let mut events: Vec<AppEvent> = Vec::new();
        let idx = self.active_buffer;
        let buffer = &mut self.buffers[idx];
        if buffer.visual_mode {
            buffer.delete_selection();
            buffer.visual_mode = false;
            buffer.selection_start = None;
            let ghost mid = *buffer;
            buffer.insert_char(c);
            proof {
                if sel_active(old(self).active()) {
                    assert(delete_selection_post(old(self).active(), mid) && insert_char_post(
                        mid,
                        *buffer,
                        c,
                    ));
                }
            }
        } else {
            buffer.insert_char(c);
        }
        let content = buffer.content_as_string();
        events.push(AppEvent::BufferChanged { buffer_id: 0, content });
        proof {
            assert(self.buffers@ =~= old(self).buffers@.update(
                old(self).active_buffer as int,
                self.active(),
            ));
        }
        events
    }

    /// Enter: a live selection is deleted first, then the line is split at
    /// the cursor, and the new document content is announced.
    pub fn handle_enter(&mut self) -> (events: Vec<AppEvent>)
        requires
            old(self).wf(),
            old(self).active().selection_wf(),
            has_room(old(self).active()),
        ensures
            enter_key_post(*old(self), *final(self), events@),
    {
        let mut events: Vec<AppEvent> = Vec::new();
        let idx = self.active_buffer;
        let buffer = &mut self.buffers[idx];
        if buffer.visual_mode {
            buffer.delete_selection();
            buffer.visual_mode = false;
            buffer.selection_start = None;
            let ghost mid = *buffer;
            buffer.insert_newline();
            proof {
                if sel_active(old(self).active()) {
                    assert(delete_selection_post(old(self).active(), mid) && insert_newline_post(
                        mid,
                        *buffer,
                    ));
                }
            }
        } else {
            buffer.insert_newline();
        }
        let content = buffer.content_as_string();
        events.push(AppEvent::BufferChanged { buffer_id: 0, content });
        proof {
            assert(self.buffers@ =~= old(self).buffers@.update(
                old(self).active_buffer as int,
                self.active(),
            ));
        }
        events
    }

    /// Backspace: deletes a live selection wholesale, otherwise the
    /// character before the cursor; the new document content is announced.
    pub fn handle_backspace(&mut self) -> (events: Vec<AppEvent>)
        requires
            old(self).wf(),
            old(self).active().selection_wf(),
            has_room(old(self).active()),
        ensures
            backspace_key_post(*old(self), *final(self), events@),
    {
        let mut events: Vec<AppEvent> = Vec::new();
        let idx = self.active_buffer;
        let buffer = &mut self.buffers[idx];
        if buffer.visual_mode {
            buffer.delete_selection();
            buffer.visual_mode = false;
            buffer.selection_start = None;
        } else {
            buffer.backspace();
        }
        let content = buffer.content_as_string();
        events.push(AppEvent::BufferChanged { buffer_id: 0, content });
        proof {
            assert(self.buffers@ =~= old(self).buffers@.update(
                old(self).active_buffer as int,
                self.active(),
            ));
        }
        events
    }

    /// Delete: deletes a live selection wholesale, otherwise the character
    /// under the cursor; the new document content is announced.
    pub fn handle_delete(&mut self) -> (events: Vec<AppEvent>)
        requires
            old(self).wf(),
            old(self).active().selection_wf(),
            has_room(old(self).active()),
        ensures
            delete_key_post(*old(self), *final(self), events@),
    {
        let mut events: Vec<AppEvent> = Vec::new();
        let idx = self.active_buffer;
        let buffer = &mut self.buffers[idx];
        if buffer.visual_mode {
            buffer.delete_selection();
            buffer.visual_mode = false;
            buffer.selection_start = None;
        } else {
            buffer.delete();
        }
        let content = buffer.content_as_string();
        events.push(AppEvent::BufferChanged { buffer_id: 0, content });
        proof {
            assert(self.buffers@ =~= old(self).buffers@.update(
                old(self).active_buffer as int,
                self.active(),
            ));
        }
        events
    }

    /// Open a new empty buffer and announce it.
    pub fn handle_new_buffer(&mut self) -> (events: Vec<AppEvent>)
        requires
            old(self).buffers@.len() < usize::MAX,
        ensures
            new_buffer_post(*old(self), *final(self), events@),
    {
        let mut events: Vec<AppEvent> = Vec::new();
        let new_buffer = Buffer::new();
        self.add_buffer(new_buffer);
        events.push(AppEvent::StatusMessage { message: String::from_str("New buffer created") });
        events
    }

    /// Toggle visual mode on the active buffer and announce the new state.
    pub fn handle_toggle_visual_mode(&mut self) -> (events: Vec<AppEvent>)
        requires
            old(self).wf(),
        ensures
            toggle_visual_key_post(*old(self), *final(self), events@),
    {
        let mut events: Vec<AppEvent> = Vec::new();
        let idx = self.active_buffer;
        let buffer = &mut self.buffers[idx];
        buffer.toggle_visual_mode();
        let message = if buffer.visual_mode {
            "Visual mode enabled"
        } else {
            "Visual mode disabled"
        };
        events.push(AppEvent::StatusMessage { message: message.to_owned() });
        proof {
            assert(self.buffers@ =~= old(self).buffers@.update(
                old(self).active_buffer as int,
                self.active(),
            ));
        }
        events
    }

    /// Copy: report how many characters the selection holds, or that
    /// nothing is selected. The state is untouched.
    pub fn handle_copy(&self) -> (events: Vec<AppEvent>)
        requires
            self.wf(),
            self.active().selection_wf(),
        ensures
            copy_post(*self, events@),
    {
        let mut events: Vec<AppEvent> = Vec::new();
        let idx = self.active_buffer;
        let selected = self.buffers[idx].get_selected_text();
        match selected {
            Some(text) => {
                let count = text.as_str().unicode_len();
                let mut msg = String::from_str("Copied ");
                let n = crate::text::usize_to_string(count);
                msg.append(n.as_str());
                msg.append(" characters");
                events.push(AppEvent::StatusMessage { message: msg });
            },
            None => {
                events.push(
                    AppEvent::StatusMessage { message: String::from_str("No text selected") },
                );
            },
        }
        events
    }

    /// Cut: delete the selection, announce the new content and how many
    /// characters were removed; with no selection, only a notice is sent.
    pub fn handle_cut(&mut self) -> (events: Vec<AppEvent>)
        requires
            old(self).wf(),
            old(self).active().selection_wf(),
            has_room(old(self).active()),
        ensures
            cut_post(*old(self), *final(self), events@),
    {
        let mut events: Vec<AppEvent> = Vec::new();
        let idx = self.active_buffer;
        let selected = self.buffers[idx].get_selected_text();
        match selected {
            Some(text) => {
                let buffer = &mut self.buffers[idx];
                buffer.delete_selection();
                buffer.visual_mode = false;
                buffer.selection_start = None;
                let content = buffer.content_as_string();
                events.push(AppEvent::BufferChanged { buffer_id: 0, content });
                let count = text.as_str().unicode_len();
                let mut msg = String::from_str("Cut ");
                let n = crate::text::usize_to_string(count);
                msg.append(n.as_str());
                msg.append(" characters");
                events.push(AppEvent::StatusMessage { message: msg });
                proof {
                    assert(self.buffers@ =~= old(self).buffers@.update(
                        old(self).active_buffer as int,
                        self.active(),
                    ));
                }
            },
            None => {
                events.push(
                    AppEvent::StatusMessage { message: String::from_str("No text selected") },
                );
            },
        }
        events
    }

    /// Cycle to the next buffer and announce it; with a single buffer
    /// nothing happens.
    pub fn handle_next_buffer(&mut self) -> (events: Vec<AppEvent>)
        requires
            old(self).wf(),
        ensures
            next_buffer_post(*old(self), *final(self), events@),
    {
        let mut events: Vec<AppEvent> = Vec::new();
        let buffer_count = self.buffers.len();
        if buffer_count > 1 {
            self.active_buffer = (self.active_buffer + 1) % buffer_count;
            self.scroll_offset = (0, 0);
            let name = self.buffers[self.active_buffer].name.clone();
            let mut msg = String::from_str("Switched to buffer: ");
            msg.append(name.as_str());
            events.push(AppEvent::StatusMessage { message: msg });
        }
        events
    }

    /// Cycle to the previous buffer and announce it; with a single buffer
    /// nothing happens.
    pub fn handle_prev_buffer(&mut self) -> (events: Vec<AppEvent>)
        requires
            old(self).wf(),
        ensures
            prev_buffer_post(*old(self), *final(self), events@),
    {
        let mut events: Vec<AppEvent> = Vec::new();
        let buffer_count = self.buffers.len();
        if buffer_count > 1 {
            self.active_buffer = if self.active_buffer == 0 {
                buffer_count - 1
            } else {
                self.active_buffer - 1
            };
            self.scroll_offset = (0, 0);
            let name = self.buffers[self.active_buffer].name.clone();
            let mut msg = String::from_str("Switched to buffer: ");
            msg.append(name.as_str());
            events.push(AppEvent::StatusMessage { message: msg });
        }
        events
    }

    /// Switch to command mode with the palette prefilled for opening a
    /// file, and publish the palette-opening events.
    pub fn handle_open_command(&mut self) -> (events: Vec<AppEvent>)
        ensures
            open_command_post(*old(self), *final(self), events@),
    {
        self.command_mode = CommandMode::Command;
        self.command_input = String::from_str("open ");
        self.show_command_palette = true;
        let mut events: Vec<AppEvent> = Vec::new();
        events.push(AppEvent::ModeChanged { new_mode: String::from_str("command") });
        events.push(AppEvent::ShowCommandPalette);
        events.push(AppEvent::CursorHide { context: String::from_str("editor") });
        events.push(AppEvent::CursorShow { context: String::from_str("command_palette") });
        events
    }

    /// Decide how to save the active buffer: with a known path, request
    /// the write of the joined document; without one, only report that a
    /// path is missing. The state itself is untouched. Saving always
    /// targets the buffer's own recorded path; no surface of the editor
    /// offers saving under a different path.
    pub fn handle_save_command(&self) -> (r: KeyOutcome)
        requires
            self.wf(),
        ensures
            save_command_post(*self, r.events@, r.action),
    {
        let idx = self.active_buffer;
        match &self.buffers[idx].path {
            Some(p) => {
                let path = p.clone();
                let content = self.buffers[idx].content_as_string();
                KeyOutcome {
                    events: Vec::new(),
                    action: Some(IoAction::SaveFile { path, content }),
                }
            },
            None => {
                let mut events: Vec<AppEvent> = Vec::new();
                events.push(
                    AppEvent::StatusMessage {
                        message: String::from_str("No file path - use save as command"),
                    },
                );
                KeyOutcome { events, action: None }
            },
        }
    }

    /// Record the outcome of a save the surrounding binary performed: on
    /// success the active buffer is marked clean and a success toast and
    /// status message name the file; on failure the state is unchanged and
    /// the error is reported.
    pub fn finish_save(&mut self, path: &str, ok: bool, error_message: &str) -> (events: Vec<
        AppEvent,
    >)
        requires
            old(self).wf(),
        ensures
            final(self).wf(),
            ok ==> {
                &&& same_except_buffers(*old(self), *final(self))
                &&& final(self).buffers@ == old(self).buffers@.update(
                    old(self).active_buffer as int,
                    Buffer { modified: false, ..old(self).active() },
                )
                &&& events@.len() == 2
                &&& is_toast_message(events@[0], "File saved: "@ + path@, "success"@)
                &&& is_status_message(events@[1], "File saved: "@ + path@)
            },
            !ok ==> {
                &&& *final(self) == *old(self)
                &&& events@.len() == 1
                &&& is_status_message(events@[0], "Error saving file: "@ + error_message@)
            },
    {
        let mut events: Vec<AppEvent> = Vec::new();
        if ok {
            let idx = self.active_buffer;
            let buffer = &mut self.buffers[idx];
            buffer.modified = false;
            let mut msg = String::from_str("File saved: ");
            msg.append(path);
            events.push(
                AppEvent::ToastMessage {
                    message: msg.clone(),
                    toast_type: String::from_str("success"),
                },
            );
            events.push(AppEvent::StatusMessage { message: msg });
            proof {
                assert(self.buffers@ =~= old(self).buffers@.update(
                    old(self).active_buffer as int,
                    Buffer { modified: false, ..old(self).active() },
                ));
            }
        } else {
            let mut msg = String::from_str("Error saving file: ");
            msg.append(error_message);
            events.push(AppEvent::StatusMessage { message: msg });
        }
        events
    }
}

/// What executing a palette command guarantees, by its first word:
/// `quit`/`q` publishes a quit event; `save`/`w` behaves as the save
/// decision; `new` opens a buffer; `open`/`o` with a path requests the
/// file, without one reports usage; `next`/`n` and `prev`/`p` cycle
/// buffers; the line-number verbs request a configuration toggle; any
/// other word is reported as unknown. The typed command line is cleared
/// except when the input held no word at all.
pub open spec fn execute_command_post(
    pre: App,
    post: App,
    cmd: Seq<char>,
    events: Seq<AppEvent>,
    action: Option<IoAction>,
) -> bool {
    let ts = crate::text::spec_tokens(cmd);
    if ts.len() == 0 {
        post == pre && events.len() == 0 && action is None
    } else {
        let t0 = ts[0];
        let cleared = App { command_input: post.command_input, ..pre };
        &&& post.command_input@ == Seq::<char>::empty()
        &&& if t0 == "quit"@ || t0 == "q"@ {
            post == cleared && events.len() == 1 && events[0] is Quit && action is None
        } else if t0 == "save"@ || t0 == "w"@ {
            post == cleared && save_command_post(pre, events, action)
        } else if t0 == "new"@ {
            &&& new_buffer_post(pre, App { command_input: pre.command_input, ..post }, events)
            &&& action is None
        } else if t0 == "open"@ || t0 == "o"@ {
            if ts.len() > 1 {
                &&& post == cleared
                &&& events.len() == 0
                &&& action matches Some(a) && a matches IoAction::OpenFile { path } && path@
                    == crate::text::join_spaces(ts.skip(1))
            } else {
                &&& post == cleared
                &&& events.len() == 1
                &&& is_status_message(events[0], "Usage: open <file_path>"@)
                &&& action is None
            }
        } else if t0 == "next"@ || t0 == "n"@ {
            &&& next_buffer_post(pre, App { command_input: pre.command_input, ..post }, events)
            &&& action is None
        } else if t0 == "prev"@ || t0 == "p"@ {
            &&& prev_buffer_post(pre, App { command_input: pre.command_input, ..post }, events)
            &&& action is None
        } else if t0 == "toggle_line_numbers"@ || t0 == "line_numbers"@ {
            &&& post == cleared
            &&& events.len() == 0
            &&& action == Some(IoAction::ToggleLineNumbers)
        } else {
            &&& post == cleared
            &&& events.len() == 1
            &&& is_status_message(events[0], "Unknown command: "@ + t0)
            &&& action is None
        }
    }
}

impl App {
    /// Run one whitespace-tokenized palette command and clear the command
    /// line; an empty input does nothing at all.
    pub fn execute_command(&mut self, command: &str) -> (r: KeyOutcome)
        requires
            old(self).wf(),
            old(self).buffers@.len() < usize::MAX,
        ensures
            final(self).wf(),
            execute_command_post(*old(self), *final(self), command@, r.events@, r.action),
    {
        let tokens = crate::text::tokenize(command);
        if tokens.len() == 0 {
            return KeyOutcome { events: Vec::new(), action: None };
        }
        let mut events: Vec<AppEvent> = Vec::new();
        let mut action: Option<IoAction> = None;
        let first = &tokens[0];
        proof {
            assert(tokens.deep_view()[0] == tokens@[0]@);
        }
        if crate::text::str_eq(first.as_str(), "quit") || crate::text::str_eq(first.as_str(), "q") {
            events.push(AppEvent::Quit);
        } else if crate::text::str_eq(first.as_str(), "save") || crate::text::str_eq(
            first.as_str(),
            "w",
        ) {
            let outcome = self.handle_save_command();
            events = outcome.events;
            action = outcome.action;
        } else if crate::text::str_eq(first.as_str(), "new") {
            events = self.handle_new_buffer();
        } else if crate::text::str_eq(first.as_str(), "open") || crate::text::str_eq(
            first.as_str(),
            "o",
        ) {
            if tokens.len() > 1 {
                let file_path = crate::text::join_from(&tokens, 1);
                proof {
                    assert(tokens.deep_view().skip(1) =~= crate::text::spec_tokens(
                        command@,
                    ).skip(1));
                }
                action = Some(IoAction::OpenFile { path: file_path });
            } else {
                events.push(
                    AppEvent::StatusMessage {
                        message: String::from_str("Usage: open <file_path>"),
                    },
                );
            }
        } else if crate::text::str_eq(first.as_str(), "next") || crate::text::str_eq(
            first.as_str(),
            "n",
        ) {
            events = self.handle_next_buffer();
        } else if crate::text::str_eq(first.as_str(), "prev") || crate::text::str_eq(
            first.as_str(),
            "p",
        ) {
            events = self.handle_prev_buffer();
        } else if crate::text::str_eq(first.as_str(), "toggle_line_numbers") || crate::text::str_eq(
            first.as_str(),
            "line_numbers",
        ) {
            action = Some(IoAction::ToggleLineNumbers);
        } else {
            let mut msg = String::from_str("Unknown command: ");
            msg.append(first.as_str());
            events.push(AppEvent::StatusMessage { message: msg });
        }
        self.command_input = String::new();
        KeyOutcome { events, action }
    }

    /// Record the outcome of the line-number toggle the surrounding binary
    /// performed on the configuration: an informational toast on success,
    /// an error toast on failure. The state is untouched.
    pub fn finish_toggle_line_numbers(&self, ok: bool, enabled: bool, error_message: &str) -> (events:
        Vec<AppEvent>)
        ensures
            events@.len() == 1,
            ok && enabled ==> is_toast_message(events@[0], "Line numbers enabled"@, "info"@),
            ok && !enabled ==> is_toast_message(events@[0], "Line numbers disabled"@, "info"@),
            !ok ==> is_toast_message(
                events@[0],
                "Error saving config: "@ + error_message@,
                "error"@,
            ),
    {
        let mut events: Vec<AppEvent> = Vec::new();
        if ok {
            let message = if enabled {
                "Line numbers enabled"
            } else {
                "Line numbers disabled"
            };
            events.push(
                AppEvent::ToastMessage {
                    message: message.to_owned(),
                    toast_type: String::from_str("info"),
                },
            );
        } else {
            let mut msg = String::from_str("Error saving config: ");
            msg.append(error_message);
            events.push(
                AppEvent::ToastMessage { message: msg, toast_type: String::from_str("error") },
            );
        }
        events
    }

    /// Adopt a file the surrounding binary has read: a new buffer over its
    /// lines becomes active, named after the path, and success is
    /// announced.
    pub fn handle_open_file(&mut self, path: &str, lines: Vec<String>) -> (events: Vec<AppEvent>)
        requires
            old(self).wf(),
            old(self).buffers@.len() < usize::MAX,
        ensures
            final(self).wf(),
            same_except_buffer_focus(*old(self), *final(self)),
            final(self).buffers@.len() == old(self).buffers@.len() + 1,
            forall|i: int| 0 <= i < old(self).buffers@.len() ==> final(self).buffers@[i] == old(self).buffers@[i],
            final(self).active_buffer == old(self).buffers@.len(),
            final(self).scroll_offset == (0usize, 0usize),
            ({
                let b = final(self).active();
                &&& b == final(self).buffers@.last()
                &&& lines@.len() == 0 ==> b.content@.len() == 1 && b.line_at(0).len() == 0
                &&& lines@.len() > 0 ==> b.content@ == lines@
                &&& b.name@ == crate::text::spec_file_name(path@)
                &&& b.path matches Some(p) && p@ == path@
                &&& !b.modified
            }),
            events@.len() == 2,
            is_toast_message(events@[0], "Opened file: "@ + path@, "success"@),
            is_status_message(events@[1], "Opened file: "@ + path@),
    {
        let name = crate::text::file_name_of(path);
        let buffer = Buffer::from_lines(lines, name, Some(path.to_owned()));
        self.add_buffer(buffer);
        let mut msg = String::from_str("Opened file: ");
        msg.append(path);
        let mut events: Vec<AppEvent> = Vec::new();
        events.push(
            AppEvent::ToastMessage { message: msg.clone(), toast_type: String::from_str("success") },
        );
        events.push(AppEvent::StatusMessage { message: msg });
        events
    }

    /// Report that a file could not be opened. The state is untouched.
    pub fn handle_open_file_error(&self, error_message: &str) -> (events: Vec<AppEvent>)
        ensures
            events@.len() == 2,
            is_toast_message(events@[0], "Error opening file: "@ + error_message@, "error"@),
            is_status_message(events@[1], "Error opening file: "@ + error_message@),
    {
        let mut msg = String::from_str("Error opening file: ");
        msg.append(error_message);
        let mut events: Vec<AppEvent> = Vec::new();
        events.push(
            AppEvent::ToastMessage { message: msg.clone(), toast_type: String::from_str("error") },
        );
        events.push(AppEvent::StatusMessage { message: msg });
        events
    }
}

/// What a key in command (palette) mode guarantees: Escape closes the
/// palette; Enter runs the typed command (if any) and then closes the
/// palette; a character extends the command line; Backspace shortens it;
/// any other key does nothing.
pub open spec fn command_mode_key_post(
    pre: App,
    post: App,
    key: KeyInput,
    events: Seq<AppEvent>,
    action: Option<IoAction>,
) -> bool {
    if key.code is Esc {
        post == pre && crate::events::palette_closed_events(events) && action is None
    } else if key.code is Enter {
        if pre.command_input@.len() == 0 {
            post == pre && crate::events::palette_closed_events(events) && action is None
        } else {
            exists|evs: Seq<AppEvent>|
                {
                    &&& execute_command_post(pre, post, pre.command_input@, evs, action)
                    &&& events.len() == evs.len() + 4
                    &&& events.take(evs.len() as int) == evs
                    &&& crate::events::palette_closed_events(events.skip(evs.len() as int))
                }
        }
    } else if key.code matches KeyCode::Char(c) {
        &&& post == (App { command_input: post.command_input, ..pre })
        &&& post.command_input@ == pre.command_input@.push(key.code->Char_0)
        &&& events.len() == 0
        &&& action is None
    } else if key.code is Backspace {
        &&& post == (App { command_input: post.command_input, ..pre })
        &&& post.command_input@ == (if pre.command_input@.len() == 0 {
            pre.command_input@
        } else {
            pre.command_input@.drop_last()
        })
        &&& events.len() == 0
        &&& action is None
    } else {
        post == pre && events.len() == 0 && action is None
    }
}

/// The three events that leave a search mode for normal mode.
pub open spec fn search_exit_events(events: Seq<AppEvent>, ctx: Seq<char>) -> bool {
    &&& events.len() == 3
    &&& crate::events::is_mode_changed(events[0], "normal"@)
    &&& crate::events::is_cursor_hide(events[1], ctx)
    &&& crate::events::is_cursor_show(events[2], "editor"@)
}

/// What a key in normal mode guarantees, by combination: palette and file
/// shortcuts, buffer cycling, Escape, the cursor movements (Shift
/// extending the selection, Control jumping to buffer bounds), text
/// input, and nothing for unknown combinations.
pub open spec fn normal_mode_key_post(
    pre: App,
    post: App,
    key: KeyInput,
    events: Seq<AppEvent>,
    action: Option<IoAction>,
) -> bool {
    let plain = !key.ctrl && !key.alt && !key.shift;
    if key.code == KeyCode::Char('p') && key.alt && !key.ctrl && !key.shift {
        post == pre && crate::events::palette_opened_events(events) && action is None
    } else if key.code == KeyCode::Char('q') && key.ctrl && !key.alt && !key.shift {
        post == pre && events.len() == 1 && events[0] is Quit && action is None
    } else if key.code == KeyCode::Char('s') && key.ctrl && !key.alt && !key.shift {
        post == pre && save_command_post(pre, events, action)
    } else if key.code == KeyCode::Char('o') && key.ctrl && !key.alt && !key.shift {
        open_command_post(pre, post, events) && action is None
    } else if key.code == KeyCode::Char('n') && key.ctrl && !key.alt && !key.shift {
        new_buffer_post(pre, post, events) && action is None
    } else if key.code == KeyCode::Char('v') && key.ctrl && !key.alt && !key.shift {
        toggle_visual_key_post(pre, post, events) && action is None
    } else if key.code == KeyCode::Char('c') && key.ctrl && !key.alt && !key.shift {
        post == pre && copy_post(pre, events) && action is None
    } else if key.code == KeyCode::Char('x') && key.ctrl && !key.alt && !key.shift {
        cut_post(pre, post, events) && action is None
    } else if key.code is Tab && !key.shift && !key.ctrl && !key.alt {
        next_buffer_post(pre, post, events) && action is None
    } else if key.code is Tab && key.shift && !key.ctrl && !key.alt {
        prev_buffer_post(pre, post, events) && action is None
    } else if key.code is Esc {
        escape_post(pre, post, events) && action is None
    } else if key.code is Up {
        movement_key_post(pre, post, CursorMovement::Up, key.shift, events) && action is None
    } else if key.code is Down {
        movement_key_post(pre, post, CursorMovement::Down, key.shift, events) && action is None
    } else if key.code is Left {
        movement_key_post(pre, post, CursorMovement::Left, key.shift, events) && action is None
    } else if key.code is Right {
        movement_key_post(pre, post, CursorMovement::Right, key.shift, events) && action is None
    } else if key.code is Home {
        let movement = if key.ctrl {
            CursorMovement::BufferStart
        } else {
            CursorMovement::LineStart
        };
        movement_key_post(pre, post, movement, key.shift, events) && action is None
    } else if key.code is End {
        let movement = if key.ctrl {
            CursorMovement::BufferEnd
        } else {
            CursorMovement::LineEnd
        };
        movement_key_post(pre, post, movement, key.shift, events) && action is None
    } else if key.code is PageUp {
        movement_key_post(pre, post, CursorMovement::PageUp, key.shift, events) && action is None
    } else if key.code is PageDown {
        movement_key_post(pre, post, CursorMovement::PageDown, key.shift, events) && action
            is None
    } else if key.code matches KeyCode::Char(c) && plain {
        char_key_post(pre, post, key.code->Char_0, events) && action is None
    } else if key.code is Enter && plain {
        enter_key_post(pre, post, events) && action is None
    } else if key.code is Backspace && plain {
        backspace_key_post(pre, post, events) && action is None
    } else if key.code is Delete && plain {
        delete_key_post(pre, post, events) && action is None
    } else {
        post == pre && events.len() == 0 && action is None
    }
}

impl App {
    /// Interpret one key press in normal mode.
    pub fn handle_normal_mode_key(&mut self, key: KeyInput) -> (r: KeyOutcome)
        requires
            old(self).wf(),
            old(self).active().selection_wf(),
            has_room(old(self).active()),
            old(self).buffers@.len() < usize::MAX,
        ensures
            final(self).wf(),
            normal_mode_key_post(*old(self), *final(self), key, r.events@, r.action),
    {
        match (key.code, key.ctrl, key.alt, key.shift) {
            (KeyCode::Char('p'), false, true, false) => {
                let mut events: Vec<AppEvent> = Vec::new();
                events.push(AppEvent::ModeChanged { new_mode: String::from_str("command") });
                events.push(AppEvent::ShowCommandPalette);
                events.push(AppEvent::CursorHide { context: String::from_str("editor") });
                events.push(
                    AppEvent::CursorShow { context: String::from_str("command_palette") },
                );
                KeyOutcome { events, action: None }
            },
            (KeyCode::Char('q'), true, false, false) => {
                let mut events: Vec<AppEvent> = Vec::new();
                events.push(AppEvent::Quit);
                KeyOutcome { events, action: None }
            },
            (KeyCode::Char('s'), true, false, false) => self.handle_save_command(),
            (KeyCode::Char('o'), true, false, false) => KeyOutcome {
                events: self.handle_open_command(),
                action: None,
            },
            (KeyCode::Char('n'), true, false, false) => KeyOutcome {
                events: self.handle_new_buffer(),
                action: None,
            },
            (KeyCode::Char('v'), true, false, false) => KeyOutcome {
                events: self.handle_toggle_visual_mode(),
                action: None,
            },
            (KeyCode::Char('c'), true, false, false) => KeyOutcome {
                events: self.handle_copy(),
                action: None,
            },
            (KeyCode::Char('x'), true, false, false) => KeyOutcome {
                events: self.handle_cut(),
                action: None,
            },
            (KeyCode::Tab, false, false, false) => KeyOutcome {
                events: self.handle_next_buffer(),
                action: None,
            },
            (KeyCode::Tab, false, false, true) => KeyOutcome {
                events: self.handle_prev_buffer(),
                action: None,
            },
            (KeyCode::Esc, _, _, _) => KeyOutcome { events: self.handle_escape(), action: None },
            (KeyCode::Up, _, _, shift) => KeyOutcome {
                events: self.handle_cursor_movement(CursorMovement::Up, shift),
                action: None,
            },
            (KeyCode::Down, _, _, shift) => KeyOutcome {
                events: self.handle_cursor_movement(CursorMovement::Down, shift),
                action: None,
            },
            (KeyCode::Left, _, _, shift) => KeyOutcome {
                events: self.handle_cursor_movement(CursorMovement::Left, shift),
                action: None,
            },
            (KeyCode::Right, _, _, shift) => KeyOutcome {
                events: self.handle_cursor_movement(CursorMovement::Right, shift),
                action: None,
            },
            (KeyCode::Home, ctrl, _, shift) => {
                let movement = if ctrl {
                    CursorMovement::BufferStart
                } else {
                    CursorMovement::LineStart
                };
                KeyOutcome { events: self.handle_cursor_movement(movement, shift), action: None }
            },
            (KeyCode::End, ctrl, _, shift) => {
                let movement = if ctrl {
                    CursorMovement::BufferEnd
                } else {
                    CursorMovement::LineEnd
                };
                KeyOutcome { events: self.handle_cursor_movement(movement, shift), action: None }
            },
            (KeyCode::PageUp, _, _, shift) => KeyOutcome {
                events: self.handle_cursor_movement(CursorMovement::PageUp, shift),
                action: None,
            },
            (KeyCode::PageDown, _, _, shift) => KeyOutcome {
                events: self.handle_cursor_movement(CursorMovement::PageDown, shift),
                action: None,
            },
            (KeyCode::Char(c), false, false, false) => KeyOutcome {
                events: self.handle_char_input(c),
                action: None,
            },
            (KeyCode::Enter, false, false, false) => KeyOutcome {
                events: self.handle_enter(),
                action: None,
            },
            (KeyCode::Backspace, false, false, false) => KeyOutcome {
                events: self.handle_backspace(),
                action: None,
            },
            (KeyCode::Delete, false, false, false) => KeyOutcome {
                events: self.handle_delete(),
                action: None,
            },
            _ => KeyOutcome { events: Vec::new(), action: None },
        }
    }

    /// Interpret one key press in command (palette) mode.
    pub fn handle_command_mode_key(&mut self, key: KeyInput) -> (r: KeyOutcome)
        requires
            old(self).wf(),
            old(self).buffers@.len() < usize::MAX,
            old(self).command_input@.len() < usize::MAX,
        ensures
            final(self).wf(),
            command_mode_key_post(*old(self), *final(self), key, r.events@, r.action),
    {
        match key.code {
            KeyCode::Esc => {
                let mut events: Vec<AppEvent> = Vec::new();
                events.push(AppEvent::HideCommandPalette);
                events.push(AppEvent::ModeChanged { new_mode: String::from_str("normal") });
                events.push(
                    AppEvent::CursorHide { context: String::from_str("command_palette") },
                );
                events.push(AppEvent::CursorShow { context: String::from_str("editor") });
                KeyOutcome { events, action: None }
            },
            KeyCode::Enter => {
                let command = self.command_input.clone();
                let mut events: Vec<AppEvent> = Vec::new();
                let mut action: Option<IoAction> = None;
                if command.as_str().unicode_len() > 0 {
                    let outcome = self.execute_command(command.as_str());
                    events = outcome.events;
                    action = outcome.action;
                }
                let ghost evs = events@;
                events.push(AppEvent::HideCommandPalette);
                events.push(AppEvent::ModeChanged { new_mode: String::from_str("normal") });
                events.push(
                    AppEvent::CursorHide { context: String::from_str("command_palette") },
                );
                events.push(AppEvent::CursorShow { context: String::from_str("editor") });
                proof {
                    assert(events@.take(evs.len() as int) =~= evs);
                    assert(events@.skip(evs.len() as int) =~= events@.subrange(
                        evs.len() as int,
                        events@.len() as int,
                    ));
                }
                KeyOutcome { events, action }
            },
            KeyCode::Char(c) => {
                crate::text::push_char(&mut self.command_input, c);
                KeyOutcome { events: Vec::new(), action: None }
            },
            KeyCode::Backspace => {
                let len = self.command_input.as_str().unicode_len();
                if len > 0 {
                    let shorter = self.command_input.as_str().substring_char(
                        0,
                        len - 1,
                    ).to_owned();
                    self.command_input = shorter;
                    proof {
                        assert(self.command_input@ =~= old(self).command_input@.drop_last());
                    }
                }
                KeyOutcome { events: Vec::new(), action: None }
            },
            _ => KeyOutcome { events: Vec::new(), action: None },
        }
    }

    /// Interpret one key press in file-search mode: only Escape, which
    /// returns to normal mode, does anything yet.
    pub fn handle_file_search_key(&mut self, key: KeyInput) -> (events: Vec<AppEvent>)
        ensures
            *final(self) == *old(self),
            key.code is Esc ==> search_exit_events(events@, "file_search"@),
            !(key.code is Esc) ==> events@.len() == 0,
    {
        let mut events: Vec<AppEvent> = Vec::new();
        match key.code {
            KeyCode::Esc => {
                events.push(AppEvent::ModeChanged { new_mode: String::from_str("normal") });
                events.push(AppEvent::CursorHide { context: String::from_str("file_search") });
                events.push(AppEvent::CursorShow { context: String::from_str("editor") });
            },
            _ => (),
        }
        events
    }

    /// Interpret one key press in text-search mode: only Escape, which
    /// returns to normal mode, does anything yet.
    pub fn handle_text_search_key(&mut self, key: KeyInput) -> (events: Vec<AppEvent>)
        ensures
            *final(self) == *old(self),
            key.code is Esc ==> search_exit_events(events@, "text_search"@),
            !(key.code is Esc) ==> events@.len() == 0,
    {
        let mut events: Vec<AppEvent> = Vec::new();
        match key.code {
            KeyCode::Esc => {
                events.push(AppEvent::ModeChanged { new_mode: String::from_str("normal") });
                events.push(AppEvent::CursorHide { context: String::from_str("text_search") });
                events.push(AppEvent::CursorShow { context: String::from_str("editor") });
            },
            _ => (),
        }
        events
    }

    /// Interpret one key press under the current mode.
    pub fn handle_key_event(&mut self, key: KeyInput) -> (r: KeyOutcome)
        requires
            old(self).wf(),
            old(self).active().selection_wf(),
            has_room(old(self).active()),
            old(self).buffers@.len() < usize::MAX,
            old(self).command_input@.len() < usize::MAX,
        ensures
            final(self).wf(),
            old(self).command_mode == CommandMode::Normal ==> normal_mode_key_post(
                *old(self),
                *final(self),
                key,
                r.events@,
                r.action,
            ),
            old(self).command_mode == CommandMode::Command ==> command_mode_key_post(
                *old(self),
                *final(self),
                key,
                r.events@,
                r.action,
            ),
            old(self).command_mode == CommandMode::FileSearch ==> *final(self) == *old(self)
                && r.action is None && (key.code is Esc ==> search_exit_events(
                r.events@,
                "file_search"@,
            )) && (!(key.code is Esc) ==> r.events@.len() == 0),
            old(self).command_mode == CommandMode::TextSearch ==> *final(self) == *old(self)
                && r.action is None && (key.code is Esc ==> search_exit_events(
                r.events@,
                "text_search"@,
            )) && (!(key.code is Esc) ==> r.events@.len() == 0),
    {
        match self.command_mode {
            CommandMode::Normal => self.handle_normal_mode_key(key),
            CommandMode::Command => self.handle_command_mode_key(key),
            CommandMode::FileSearch => KeyOutcome {
                events: self.handle_file_search_key(key),
                action: None,
            },
            CommandMode::TextSearch => KeyOutcome {
                events: self.handle_text_search_key(key),
                action: None,
            },
        }
    }
}

} // verus!
