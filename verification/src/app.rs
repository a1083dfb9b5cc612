//! The shared editor state: the open buffers, the active buffer index, the
//! viewport scroll, the interaction mode, the command palette input, and
//! the widget managers. Exactly one owner mutates a value of this type at
//! a time; the run loop outside the core arbitrates that ownership.

use crate::buffer::Buffer;
use crate::widgets::cursor::CursorManager;
use crate::widgets::status_bar::spec_find;
use crate::widgets::status_bar::SlotAlignment;
use crate::widgets::status_bar::StatusBar;
use crate::widgets::status_bar::StatusSlot;
use crate::widgets::toast::ToastManager;
use vstd::prelude::*;

verus! {

/// The interaction modes of the editor.
#[derive(Debug, Clone, Copy, PartialEq, Eq, Structural)]
pub enum CommandMode {
    Normal,
    Command,
    FileSearch,
    TextSearch,
}

/// Handles for background work; the core itself spawns nothing.
#[derive(Debug, Default)]
pub struct BackgroundTasks {}

/// The single shared editor state.
#[derive(Debug)]
pub struct App {
    pub running: bool,
    pub buffers: Vec<Buffer>,
    pub active_buffer: usize,
    pub scroll_offset: (usize, usize),
    pub command_mode: CommandMode,
    pub command_input: String,
    pub status_message: Option<String>,
    pub user_dir: String,
    pub background_tasks: BackgroundTasks,
    pub toast_manager: ToastManager,
    pub show_command_palette: bool,
    pub cursor_manager: CursorManager,
    pub status_bar: StatusBar,
    pub mouse_drag_start: Option<(usize, usize)>,
}

impl App {
    /// Every buffer well formed and the active index inside the buffer
    /// list. A selection anchor may go stale after edits; operations that
    /// read the selection ask for its validity separately.
    pub open spec fn wf(self) -> bool {
        &&& self.buffers@.len() >= 1
        &&& self.active_buffer < self.buffers@.len()
        &&& forall|i: int| 0 <= i < self.buffers@.len() ==> (#[trigger] self.buffers@[i]).wf()
    }

    /// The active buffer.
    pub open spec fn active(self) -> Buffer {
        self.buffers@[self.active_buffer as int]
    }

    /// A fresh editor: one empty buffer, normal mode, running, with the
    /// default status bar slots installed.
    pub fn new() -> (r: App)
        ensures
            r.wf(),
            r.running,
            r.buffers@.len() == 1,
            r.buffers@[0].content@.len() == 1,
            r.buffers@[0].line_at(0).len() == 0,
            r.buffers@[0].name@ == "untitled"@,
            r.buffers@[0].path is None,
            !r.buffers@[0].modified,
            r.active_buffer == 0,
            r.scroll_offset == (0usize, 0usize),
            r.command_mode == CommandMode::Normal,
            r.command_input@ == Seq::<char>::empty(),
            r.status_message is None,
            r.user_dir@ == "."@,
            !r.show_command_palette,
            r.mouse_drag_start is None,
            r.toast_manager.toasts@.len() == 0,
            r.cursor_manager.active_context is None,
            r.status_bar.slots@.len() == 6,
    {
        let mut app = App {
            running: true,
            buffers: Vec::new(),
            active_buffer: 0,
            scroll_offset: (0, 0),
            command_mode: CommandMode::Normal,
            command_input: String::new(),
            status_message: None,
            user_dir: String::from_str("."),
            background_tasks: BackgroundTasks {  },
            toast_manager: ToastManager::new(),
            show_command_palette: false,
            cursor_manager: CursorManager::new(),
            status_bar: StatusBar::new(),
            mouse_drag_start: None,
        };
        app.buffers.push(Buffer::new());
        app.init_status_bar();
        app
    }

    /// A fresh editor showing one already loaded buffer.
    pub fn with_buffer(buffer: Buffer) -> (r: App)
        requires
            buffer.wf(),
            buffer.selection_wf(),
        ensures
            r.wf(),
            r.running,
            r.buffers@.len() == 1,
            r.buffers@[0] == buffer,
            r.active_buffer == 0,
            r.scroll_offset == (0usize, 0usize),
            r.command_mode == CommandMode::Normal,
            r.command_input@ == Seq::<char>::empty(),
            r.status_message is None,
            !r.show_command_palette,
            r.mouse_drag_start is None,
            r.status_bar.slots@.len() == 6,
    {
        let mut app = App {
            running: true,
            buffers: Vec::new(),
            active_buffer: 0,
            scroll_offset: (0, 0),
            command_mode: CommandMode::Normal,
            command_input: String::new(),
            status_message: None,
            user_dir: String::from_str("."),
            background_tasks: BackgroundTasks {  },
            toast_manager: ToastManager::new(),
            show_command_palette: false,
            cursor_manager: CursorManager::new(),
            status_bar: StatusBar::new(),
            mouse_drag_start: None,
        };
        app.buffers.push(buffer);
        app.init_status_bar();
        app
    }

    /// Install the six default status bar slots, replacing whatever the
    /// bar held: file, cursor and modified on the left, selection centered
    /// and hidden, mode and buffer count on the right.
    pub fn init_status_bar(&mut self)
        ensures
            final(self).status_bar.slots@.len() == 6,
            final(self).status_bar.separator == old(self).status_bar.separator,
            final(self).status_bar.show_separators == old(self).status_bar.show_separators,
            slot_spec(final(self).status_bar.slots@[0], "file"@, ""@, SlotAlignment::Left, 100, true),
            slot_spec(
                final(self).status_bar.slots@[1],
                "cursor"@,
                ""@,
                SlotAlignment::Left,
                90,
                true,
            ),
            slot_spec(
                final(self).status_bar.slots@[2],
                "modified"@,
                ""@,
                SlotAlignment::Left,
                80,
                true,
            ),
            slot_spec(
                final(self).status_bar.slots@[3],
                "selection"@,
                ""@,
                SlotAlignment::Center,
                70,
                false,
            ),
            slot_spec(
                final(self).status_bar.slots@[4],
                "mode"@,
                "NORMAL"@,
                SlotAlignment::Right,
                100,
                true,
            ),
            slot_spec(
                final(self).status_bar.slots@[5],
                "buffer_count"@,
                ""@,
                SlotAlignment::Right,
                60,
                true,
            ),
            final(self).running == old(self).running,
            final(self).buffers@ == old(self).buffers@,
            final(self).active_buffer == old(self).active_buffer,
            final(self).scroll_offset == old(self).scroll_offset,
            final(self).command_mode == old(self).command_mode,
            final(self).command_input == old(self).command_input,
            final(self).status_message == old(self).status_message,
            final(self).user_dir == old(self).user_dir,
            final(self).show_command_palette == old(self).show_command_palette,
            final(self).mouse_drag_start == old(self).mouse_drag_start,
            final(self).toast_manager == old(self).toast_manager,
            final(self).cursor_manager == old(self).cursor_manager,
    {
        let mut slots: Vec<StatusSlot> = Vec::new();
        slots.push(
            StatusSlot::new("file", "").with_alignment(SlotAlignment::Left).with_priority(100),
        );
        slots.push(
            StatusSlot::new("cursor", "").with_alignment(SlotAlignment::Left).with_priority(90),
        );
        slots.push(
            StatusSlot::new("modified", "").with_alignment(SlotAlignment::Left).with_priority(80),
        );
        slots.push(
            StatusSlot::new("selection", "").with_alignment(SlotAlignment::Center).with_priority(
                70,
            ).with_visibility(false),
        );
        slots.push(
            StatusSlot::new("mode", "NORMAL").with_alignment(SlotAlignment::Right).with_priority(
                100,
            ),
        );
        slots.push(
            StatusSlot::new("buffer_count", "").with_alignment(SlotAlignment::Right).with_priority(
                60,
            ),
        );
        self.status_bar.slots = slots;
    }

    /// The currently active buffer, if the index is in range.
    pub fn get_active_buffer(&self) -> (r: Option<&Buffer>)
        ensures
            self.active_buffer < self.buffers@.len() ==> (r matches Some(b) && *b
                == self.active()),
            self.active_buffer >= self.buffers@.len() ==> r is None,
    {
        if self.active_buffer < self.buffers.len() {
            Some(&self.buffers[self.active_buffer])
        } else {
            None
        }
    }

    /// A mutable borrow of the active buffer, if the index is in range.
    pub fn get_active_buffer_mut(&mut self) -> (r: Option<&mut Buffer>)
        ensures
            old(self).active_buffer >= old(self).buffers@.len() ==> r is None && *final(self)
                == *old(self),
            old(self).active_buffer < old(self).buffers@.len() ==> {
                &&& (r matches Some(b) && *b == old(self).active() && final(self).buffers@ == old(
                    self,
                ).buffers@.update(old(self).active_buffer as int, *final(b)))
                &&& final(self).running == old(self).running
                &&& final(self).active_buffer == old(self).active_buffer
                &&& final(self).scroll_offset == old(self).scroll_offset
                &&& final(self).command_mode == old(self).command_mode
                &&& final(self).command_input == old(self).command_input
                &&& final(self).status_message == old(self).status_message
                &&& final(self).user_dir == old(self).user_dir
                &&& final(self).toast_manager == old(self).toast_manager
                &&& final(self).show_command_palette == old(self).show_command_palette
                &&& final(self).cursor_manager == old(self).cursor_manager
                &&& final(self).status_bar == old(self).status_bar
                &&& final(self).mouse_drag_start == old(self).mouse_drag_start
            },
    {
        if self.active_buffer < self.buffers.len() {
            let idx = self.active_buffer;
            Some(&mut self.buffers[idx])
        } else {
            None
        }
    }

    /// Switch to the buffer at `index` and reset the scroll; an index out
    /// of range changes nothing and reports failure.
    pub fn switch_to_buffer(&mut self, index: usize) -> (r: bool)
        ensures
            r == (index < old(self).buffers@.len()),
            r ==> *final(self) == (App {
                active_buffer: index,
                scroll_offset: (0usize, 0usize),
                ..*old(self)
            }),
            !r ==> *final(self) == *old(self),
    {
        if index < self.buffers.len() {
            self.active_buffer = index;
            self.scroll_offset = (0, 0);
            true
        } else {
            false
        }
    }

    /// Close the active buffer, never the last one. The active index is
    /// clamped to the shrunken list and the scroll resets.
    pub fn close_current_buffer(&mut self) -> (r: bool)
        requires
            old(self).active_buffer < old(self).buffers@.len(),
        ensures
            r == (old(self).buffers@.len() > 1),
            !r ==> *final(self) == *old(self),
            r ==> {
                &&& final(self).buffers@ == old(self).buffers@.remove(
                    old(self).active_buffer as int,
                )
                &&& final(self).active_buffer == if old(self).active_buffer < old(
                    self,
                ).buffers@.len() - 1 {
                    old(self).active_buffer as int
                } else {
                    old(self).buffers@.len() - 2
                }
                &&& final(self).scroll_offset == (0usize, 0usize)
                &&& final(self).running == old(self).running
                &&& final(self).command_mode == old(self).command_mode
                &&& final(self).command_input == old(self).command_input
                &&& final(self).status_message == old(self).status_message
                &&& final(self).status_bar == old(self).status_bar
            },
    {
        if self.buffers.len() <= 1 {
            return false;
        }
        self.buffers.remove(self.active_buffer);
        if self.active_buffer >= self.buffers.len() {
            self.active_buffer = self.buffers.len() - 1;
        }
        self.scroll_offset = (0, 0);
        true
    }

    /// Append a buffer, make it active and reset the scroll; returns its
    /// index.
    pub fn add_buffer(&mut self, buffer: Buffer) -> (r: usize)
        requires
            old(self).buffers@.len() < usize::MAX,
        ensures
            final(self).buffers@ == old(self).buffers@.push(buffer),
            final(self).active_buffer == old(self).buffers@.len(),
            r == final(self).active_buffer,
            final(self).scroll_offset == (0usize, 0usize),
            final(self).running == old(self).running,
            final(self).command_mode == old(self).command_mode,
            final(self).command_input == old(self).command_input,
            final(self).status_message == old(self).status_message,
            final(self).user_dir == old(self).user_dir,
            final(self).toast_manager == old(self).toast_manager,
            final(self).show_command_palette == old(self).show_command_palette,
            final(self).cursor_manager == old(self).cursor_manager,
            final(self).status_bar == old(self).status_bar,
            final(self).mouse_drag_start == old(self).mouse_drag_start,
    {
        self.buffers.push(buffer);
        let new_index = self.buffers.len() - 1;
        self.active_buffer = new_index;
        self.scroll_offset = (0, 0);
        new_index
    }

    /// Show a message on the status bar.
    pub fn set_status_message(&mut self, message: String)
        ensures
            *final(self) == (App { status_message: Some(message), ..*old(self) }),
    {
        self.status_message = Some(message);
    }

    /// Clear the status bar message.
    pub fn clear_status_message(&mut self)
        ensures
            *final(self) == (App { status_message: None, ..*old(self) }),
    {
        self.status_message = None;
    }

    /// Whether any open buffer has unsaved changes.
    pub fn has_unsaved_changes(&self) -> (r: bool)
        ensures
            r == exists|i: int| 0 <= i < self.buffers@.len() && (#[trigger] self.buffers@[i]).modified,
    {
        let mut i: usize = 0;
        while i < self.buffers.len()
            invariant
                i <= self.buffers@.len(),
                forall|j: int| 0 <= j < i ==> !(#[trigger] self.buffers@[j]).modified,
            decreases self.buffers@.len() - i,
        {
            if self.buffers[i].is_dirty() {
                return true;
            }
            i += 1;
        }
        false
    }

    /// How many buffers are open.
    pub fn buffer_count(&self) -> (r: usize)
        ensures
            r == self.buffers@.len(),
    {
        self.buffers.len()
    }

    /// The mode indicator text for the current mode.
    pub fn mode_text(&self) -> (r: &'static str)
        ensures
            r@ == mode_text_spec(self.command_mode),
    {
        match self.command_mode {
            CommandMode::Normal => "NORMAL",
            CommandMode::Command => "COMMAND",
            CommandMode::FileSearch => "FILE SEARCH",
            CommandMode::TextSearch => "TEXT SEARCH",
        }
    }

    /// Refresh the six standard slots from the current state: file name,
    /// one-based cursor position, the modified flag, the selection summary
    /// (shown only while a selection exists), the mode indicator and the
    /// buffer counter.
    pub fn update_status_bar(&mut self)
        requires
            old(self).wf(),
            old(self).active().selection_wf(),
            standard_bar(old(self).status_bar),
            old(self).active().cursor_pos.0 < usize::MAX,
            old(self).active().cursor_pos.1 < usize::MAX,
            old(self).active().selection_start is Some ==> old(self).active().sel_text().len()
                < usize::MAX,
        ensures
            final(self).status_bar.slots@.len() == 6,
            standard_bar(final(self).status_bar),
            ({
                let b = old(self).active();
                let slots = final(self).status_bar.slots@;
                let old_slots = old(self).status_bar.slots@;
                &&& slots[0] == (StatusSlot { content: b.name, ..old_slots[0] })
                &&& slots[1].content@ == cursor_info_spec(
                    b.cursor_pos.0 as int,
                    b.cursor_pos.1 as int,
                )
                &&& slots[1].id == old_slots[1].id && slots[1].alignment == old_slots[1].alignment
                    && slots[1].priority == old_slots[1].priority && slots[1].visible
                    == old_slots[1].visible
                &&& slots[2].content@ == (if b.modified {
                    "Unsaved"@
                } else {
                    "Saved"@
                })
                &&& b.selection_start is Some ==> slots[3].content@ == selection_info_spec(
                    b.sel_text(),
                ) && slots[3].visible
                &&& b.selection_start is None ==> !slots[3].visible
                &&& slots[4].content@ == mode_text_spec(old(self).command_mode)
                &&& slots[5].content@ == buffer_info_spec(
                    old(self).active_buffer as int,
                    old(self).buffers@.len() as int,
                )
            }),
            final(self).running == old(self).running,
            final(self).buffers@ == old(self).buffers@,
            final(self).active_buffer == old(self).active_buffer,
            final(self).scroll_offset == old(self).scroll_offset,
            final(self).command_mode == old(self).command_mode,
            final(self).command_input == old(self).command_input,
            final(self).status_message == old(self).status_message,
            final(self).toast_manager == old(self).toast_manager,
            final(self).show_command_palette == old(self).show_command_palette,
            final(self).cursor_manager == old(self).cursor_manager,
            final(self).mouse_drag_start == old(self).mouse_drag_start,
    {
        proof {
            lemma_standard_find(old(self).status_bar);
        }
        let idx = self.active_buffer;
        let name = self.buffers[idx].name.clone();
        let (row, col) = self.buffers[idx].cursor_pos;
        let modified = self.buffers[idx].modified;

        self.status_bar.update_slot_content("file", name);
        proof {
            lemma_standard_find(self.status_bar);
        }

        let mut cursor_info = String::from_str("Ln ");
        let row_s = crate::text::u64_to_string(row as u64 + 1);
        cursor_info.append(row_s.as_str());
        cursor_info.append(", Col ");
        let col_s = crate::text::u64_to_string(col as u64 + 1);
        cursor_info.append(col_s.as_str());
        self.status_bar.update_slot_content("cursor", cursor_info);
        proof {
            lemma_standard_find(self.status_bar);
        }

        let modified_text = if modified {
            "Unsaved"
        } else {
            "Saved"
        };
        self.status_bar.update_slot_content("modified", modified_text.to_owned());
        proof {
            lemma_standard_find(self.status_bar);
        }

        let selected = self.buffers[idx].get_selected_text();
        match selected {
            Some(text) => {
                let char_count = text.as_str().unicode_len();
                let newline_count = crate::text::count_char(text.as_str(), '\n');
                proof {
                    assert(newline_count <= char_count);
                    assert(char_count < usize::MAX);
                }
                let mut info = String::from_str("Selection: ");
                if newline_count > 0 {
                    let lines_s = crate::text::u64_to_string(newline_count as u64 + 1);
                    info.append(lines_s.as_str());
                    info.append(" lines, ");
                }
                let chars_s = crate::text::u64_to_string(char_count as u64);
                info.append(chars_s.as_str());
                info.append(" chars");
                self.status_bar.update_slot_content("selection", info);
                proof {
                    lemma_standard_find(self.status_bar);
                }
                self.status_bar.show_slot("selection");
            },
            None => {
                self.status_bar.hide_slot("selection");
            },
        }
        proof {
            lemma_standard_find(self.status_bar);
        }

        let mode = self.mode_text();
        self.status_bar.update_slot_content("mode", mode.to_owned());
        proof {
            lemma_standard_find(self.status_bar);
        }

        let mut buffer_info = String::from_str("Buffer ");
        let total = self.buffers.len();
        proof {
            assert(idx < total);
        }
        let active_s = crate::text::u64_to_string(idx as u64 + 1);
        buffer_info.append(active_s.as_str());
        buffer_info.append("/");
        let total_s = crate::text::u64_to_string(total as u64);
        buffer_info.append(total_s.as_str());
        self.status_bar.update_slot_content("buffer_count", buffer_info);
    }
}

/// On a standard bar, each of the six ids is found at its standard
/// position.
pub proof fn lemma_standard_find(bar: StatusBar)
    requires
        standard_bar(bar),
    ensures
        spec_find(bar.slots@, "file"@) == Some(0int),
        spec_find(bar.slots@, "cursor"@) == Some(1int),
        spec_find(bar.slots@, "modified"@) == Some(2int),
        spec_find(bar.slots@, "selection"@) == Some(3int),
        spec_find(bar.slots@, "mode"@) == Some(4int),
        spec_find(bar.slots@, "buffer_count"@) == Some(5int),
{
    reveal_strlit("file");
    reveal_strlit("cursor");
    reveal_strlit("modified");
    reveal_strlit("selection");
    reveal_strlit("mode");
    reveal_strlit("buffer_count");
    assert("file"@.len() == 4);
    assert("cursor"@.len() == 6);
    assert("modified"@.len() == 8);
    assert("selection"@.len() == 9);
    assert("mode"@.len() == 4);
    assert("buffer_count"@.len() == 12);
    assert("file"@ != "mode"@) by {
        assert("file"@[0] == 'f');
        assert("mode"@[0] == 'm');
    }
    let s = bar.slots@;
    lemma_spec_find_prefix(s, "file"@, 0);
    lemma_spec_find_prefix(s, "cursor"@, 1);
    lemma_spec_find_prefix(s, "modified"@, 2);
    lemma_spec_find_prefix(s, "selection"@, 3);
    lemma_spec_find_prefix(s, "mode"@, 4);
    lemma_spec_find_prefix(s, "buffer_count"@, 5);
}

/// If position `i` holds the id and no earlier slot does, `spec_find`
/// returns `i`.
proof fn lemma_spec_find_prefix(slots: Seq<StatusSlot>, id: Seq<char>, i: int)
    requires
        0 <= i < slots.len(),
        slots[i].id@ == id,
        forall|j: int| 0 <= j < i ==> slots[j].id@ != id,
    ensures
        spec_find(slots, id) == Some(i),
    decreases i,
{
    if i > 0 {
        lemma_spec_find_prefix(slots.drop_first(), id, i - 1);
    }
}

/// The status bar holds the six default slots in their standard order.
pub open spec fn standard_bar(bar: StatusBar) -> bool {
    &&& bar.slots@.len() == 6
    &&& bar.slots@[0].id@ == "file"@
    &&& bar.slots@[1].id@ == "cursor"@
    &&& bar.slots@[2].id@ == "modified"@
    &&& bar.slots@[3].id@ == "selection"@
    &&& bar.slots@[4].id@ == "mode"@
    &&& bar.slots@[5].id@ == "buffer_count"@
}

/// The cursor position line of the status bar, one-based.
pub open spec fn cursor_info_spec(row: int, col: int) -> Seq<char> {
    "Ln "@ + crate::text::spec_decimal((row + 1) as nat) + ", Col "@ + crate::text::spec_decimal(
        (col + 1) as nat,
    )
}

/// The selection summary: character count, and the line count when the
/// selection spans several lines.
pub open spec fn selection_info_spec(sel: Seq<char>) -> Seq<char> {
    let line_count = crate::text::spec_count(sel, '\n') + 1;
    if line_count > 1 {
        "Selection: "@ + crate::text::spec_decimal(line_count) + " lines, "@
            + crate::text::spec_decimal(sel.len()) + " chars"@
    } else {
        "Selection: "@ + crate::text::spec_decimal(sel.len()) + " chars"@
    }
}

/// The mode indicator text.
pub open spec fn mode_text_spec(mode: CommandMode) -> Seq<char> {
    match mode {
        CommandMode::Normal => "NORMAL"@,
        CommandMode::Command => "COMMAND"@,
        CommandMode::FileSearch => "FILE SEARCH"@,
        CommandMode::TextSearch => "TEXT SEARCH"@,
    }
}

/// The buffer counter text, one-based over the total.
pub open spec fn buffer_info_spec(active: int, total: int) -> Seq<char> {
    "Buffer "@ + crate::text::spec_decimal((active + 1) as nat) + "/"@
        + crate::text::spec_decimal(total as nat)
}

/// A slot carries the given id, content, alignment, priority and
/// visibility, without width constraints.
pub open spec fn slot_spec(
    s: StatusSlot,
    id: Seq<char>,
    content: Seq<char>,
    alignment: SlotAlignment,
    priority: u8,
    visible: bool,
) -> bool {
    &&& s.id@ == id
    &&& s.content@ == content
    &&& s.alignment == alignment
    &&& s.priority == priority
    &&& s.visible == visible
    &&& s.min_width is None
    &&& s.max_width is None
}

} // verus!
