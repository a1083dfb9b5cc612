//! The state-mutating event subscribers: mode changes, status and toast
//! messages, palette visibility, quitting, and keeping the cursor in view
//! after programmatic moves. Every mode change flows through here, so each
//! one is observable on the bus.

use crate::app::App;
use crate::app::CommandMode;
use crate::events::AppEvent;
use crate::input::Area;
use crate::text::spec_contains_ci;
use crate::widgets::toast::Toast;
use crate::widgets::toast::ToastManager;
use crate::widgets::toast::ToastType;
use crate::widgets::toast::DEFAULT_TOAST_DURATION_MS;
use vstd::prelude::*;

verus! {

/// The mode a mode-changed event's name selects; unknown names fall back
/// to normal mode.
pub open spec fn mode_of_name(name: Seq<char>) -> CommandMode {
    if name == "normal"@ {
        CommandMode::Normal
    } else if name == "command"@ {
        CommandMode::Command
    } else if name == "file_search"@ {
        CommandMode::FileSearch
    } else if name == "text_search"@ {
        CommandMode::TextSearch
    } else {
        CommandMode::Normal
    }
}

/// The toast flavor a status message is classified as: error beats
/// success (or a mention of saving), which beats warning; everything else
/// is informational. Letters compare without regard to ASCII case.
pub open spec fn classify_message(msg: Seq<char>) -> ToastType {
    if spec_contains_ci(msg, "error"@) {
        ToastType::Error
    } else if spec_contains_ci(msg, "success"@) || spec_contains_ci(msg, "saved"@) {
        ToastType::Success
    } else if spec_contains_ci(msg, "warning"@) {
        ToastType::Warning
    } else {
        ToastType::Info
    }
}

/// The toast flavor named by a toast event's tag; unknown tags are
/// informational.
pub open spec fn toast_type_of_name(name: Seq<char>) -> ToastType {
    if name == "error"@ {
        ToastType::Error
    } else if name == "success"@ {
        ToastType::Success
    } else if name == "warning"@ {
        ToastType::Warning
    } else {
        ToastType::Info
    }
}

/// The toast list after appending one toast under the manager's cap.
pub open spec fn toasts_after(m: ToastManager, t: Toast) -> Seq<Toast> {
    let appended = m.toasts@.push(t);
    if appended.len() > m.max_toasts {
        appended.skip(appended.len() - m.max_toasts)
    } else {
        appended
    }
}

impl App {
    /// Switch the interaction mode to the named one; entering normal mode
    /// clears the command line.
    pub fn handle_mode_changed(&mut self, new_mode: &str)
        ensures
            final(self).command_mode == mode_of_name(new_mode@),
            final(self).command_mode == CommandMode::Normal ==> final(self).command_input@
                == Seq::<char>::empty(),
            final(self).command_mode != CommandMode::Normal ==> final(self).command_input == old(self).command_input,
            *final(self) == (App {
                command_mode: final(self).command_mode,
                command_input: final(self).command_input,
                ..*old(self)
            }),
    {
        self.command_mode = if crate::text::str_eq(new_mode, "normal") {
            CommandMode::Normal
        } else if crate::text::str_eq(new_mode, "command") {
            CommandMode::Command
        } else if crate::text::str_eq(new_mode, "file_search") {
            CommandMode::FileSearch
        } else if crate::text::str_eq(new_mode, "text_search") {
            CommandMode::TextSearch
        } else {
            CommandMode::Normal
        };
        let is_normal = match self.command_mode {
            CommandMode::Normal => true,
            _ => false,
        };
        if is_normal {
            self.command_input = String::new();
        }
    }

    /// Show a status message and also surface it as a toast, typed by what
    /// the message mentions.
    pub fn handle_status_message(&mut self, message: &str, now_ms: u64)
        requires
            old(self).toast_manager.max_toasts >= 1,
        ensures
            final(self).status_message matches Some(m) && m@ == message@,
            final(self).toast_manager.max_toasts == old(self).toast_manager.max_toasts,
            final(self).toast_manager.toasts@ == toasts_after(
                old(self).toast_manager,
                Toast {
                    message: final(self).toast_manager.toasts@.last().message,
                    toast_type: classify_message(message@),
                    created_at_ms: now_ms,
                    duration_ms: DEFAULT_TOAST_DURATION_MS,
                },
            ),
            final(self).toast_manager.toasts@.last().message@ == message@,
            *final(self) == (App {
                status_message: final(self).status_message,
                toast_manager: final(self).toast_manager,
                ..*old(self)
            }),
    {
        self.status_message = Some(message.to_owned());
        let toast_type = if crate::text::contains_ci(message, "error") {
            ToastType::Error
        } else if crate::text::contains_ci(message, "success") || crate::text::contains_ci(
            message,
            "saved",
        ) {
            ToastType::Success
        } else if crate::text::contains_ci(message, "warning") {
            ToastType::Warning
        } else {
            ToastType::Info
        };
        let toast = Toast::new(message.to_owned(), toast_type, now_ms);
        self.toast_manager.add_toast(toast);
        proof {
            let appended = old(self).toast_manager.toasts@.push(
                Toast {
                    message: self.toast_manager.toasts@.last().message,
                    toast_type: classify_message(message@),
                    created_at_ms: now_ms,
                    duration_ms: DEFAULT_TOAST_DURATION_MS,
                },
            );
            assert(self.toast_manager.toasts@.len() > 0);
            assert(self.toast_manager.toasts@ =~= toasts_after(
                old(self).toast_manager,
                Toast {
                    message: self.toast_manager.toasts@.last().message,
                    toast_type: classify_message(message@),
                    created_at_ms: now_ms,
                    duration_ms: DEFAULT_TOAST_DURATION_MS,
                },
            ));
        }
    }

    /// Surface a toast event as a toast of the named flavor.
    pub fn handle_toast_message(&mut self, message: &str, toast_type: &str, now_ms: u64)
        requires
            old(self).toast_manager.max_toasts >= 1,
        ensures
            final(self).toast_manager.max_toasts == old(self).toast_manager.max_toasts,
            final(self).toast_manager.toasts@ == toasts_after(
                old(self).toast_manager,
                Toast {
                    message: final(self).toast_manager.toasts@.last().message,
                    toast_type: toast_type_of_name(toast_type@),
                    created_at_ms: now_ms,
                    duration_ms: DEFAULT_TOAST_DURATION_MS,
                },
            ),
            final(self).toast_manager.toasts@.last().message@ == message@,
            *final(self) == (App { toast_manager: final(self).toast_manager, ..*old(self) }),
    {
        let ty = if crate::text::str_eq(toast_type, "error") {
            ToastType::Error
        } else if crate::text::str_eq(toast_type, "success") {
            ToastType::Success
        } else if crate::text::str_eq(toast_type, "warning") {
            ToastType::Warning
        } else {
            ToastType::Info
        };
        let toast = Toast::new(message.to_owned(), ty, now_ms);
        self.toast_manager.add_toast(toast);
        proof {
            assert(self.toast_manager.toasts@.len() > 0);
            assert(self.toast_manager.toasts@ =~= toasts_after(
                old(self).toast_manager,
                Toast {
                    message: self.toast_manager.toasts@.last().message,
                    toast_type: toast_type_of_name(toast_type@),
                    created_at_ms: now_ms,
                    duration_ms: DEFAULT_TOAST_DURATION_MS,
                },
            ));
        }
    }

    /// Show the command palette and clear the command line.
    pub fn handle_show_command_palette(&mut self)
        ensures
            *final(self) == (App {
                show_command_palette: true,
                command_input: final(self).command_input,
                ..*old(self)
            }),
            final(self).command_input@ == Seq::<char>::empty(),
    {
        self.show_command_palette = true;
        self.command_input = String::new();
    }

    /// Hide the command palette and clear the command line.
    pub fn handle_hide_command_palette(&mut self)
        ensures
            *final(self) == (App {
                show_command_palette: false,
                command_input: final(self).command_input,
                ..*old(self)
            }),
            final(self).command_input@ == Seq::<char>::empty(),
    {
        self.show_command_palette = false;
        self.command_input = String::new();
    }

    /// Stop the run loop on its next iteration.
    pub fn handle_quit(&mut self)
        ensures
            *final(self) == (App { running: false, ..*old(self) }),
    {
        self.running = false;
    }

    /// Apply one dispatched event to the state, as the subscribed
    /// handlers would: mode changes, status and toast messages, palette
    /// visibility, quitting, and scrolling after a cursor move. Input and
    /// other events leave the state untouched here; the input handlers
    /// consume them separately.
    pub fn apply_event(&mut self, event: &AppEvent, area: Area, show_line_numbers: bool, now_ms: u64)
        requires
            old(self).wf(),
            old(self).toast_manager.max_toasts >= 1,
            area.height >= 3,
            old(self).scroll_offset.0 + area.height as int <= usize::MAX,
            show_line_numbers ==> old(self).active().line_number_width_spec() < area.width as int,
            !show_line_numbers ==> area.width > 0,
        ensures
            final(self).wf(),
            event matches AppEvent::ModeChanged { new_mode } ==> {
                &&& final(self).command_mode == mode_of_name(new_mode@)
                &&& final(self).command_mode == CommandMode::Normal ==> final(self).command_input@ == Seq::<char>::empty()
                &&& *final(self) == (App {
                    command_mode: final(self).command_mode,
                    command_input: final(self).command_input,
                    ..*old(self)
                })
            },
            event matches AppEvent::StatusMessage { message } ==> {
                &&& final(self).status_message matches Some(m) && m@ == message@
                &&& final(self).toast_manager.toasts@.len() > 0 && final(self).toast_manager.toasts@.last().message@ == message@ && final(self).toast_manager.toasts@.last().toast_type == classify_message(message@)
                &&& *final(self) == (App {
                    status_message: final(self).status_message,
                    toast_manager: final(self).toast_manager,
                    ..*old(self)
                })
            },
            event matches AppEvent::ToastMessage { message, toast_type } ==> {
                &&& final(self).toast_manager.toasts@.len() > 0 && final(self).toast_manager.toasts@.last().message@ == message@ && final(self).toast_manager.toasts@.last().toast_type == toast_type_of_name(toast_type@)
                &&& *final(self) == (App {
                    toast_manager: final(self).toast_manager,
                    ..*old(self)
                })
            },
            event is ShowCommandPalette ==> *final(self) == (App {
                show_command_palette: true,
                command_input: final(self).command_input,
                ..*old(self)
            }) && final(self).command_input@ == Seq::<char>::empty(),
            event is HideCommandPalette ==> *final(self) == (App {
                show_command_palette: false,
                command_input: final(self).command_input,
                ..*old(self)
            }) && final(self).command_input@ == Seq::<char>::empty(),
            event is Quit ==> *final(self) == (App { running: false, ..*old(self) }),
            event matches AppEvent::BufferCursorMoved { .. } ==> crate::ui::cursor_in_view_post(
                *old(self),
                *final(self),
                area,
                show_line_numbers,
            ),
            !(event matches AppEvent::ModeChanged { .. }) && !(event
                matches AppEvent::StatusMessage { .. }) && !(event
                matches AppEvent::ToastMessage { .. }) && !(event is ShowCommandPalette) && !(
            event is HideCommandPalette) && !(event is Quit) && !(event
                matches AppEvent::BufferCursorMoved { .. }) ==> *final(self) == *old(self),
    {
        match event {
            AppEvent::ModeChanged { new_mode } => self.handle_mode_changed(new_mode.as_str()),
            AppEvent::StatusMessage { message } => self.handle_status_message(
                message.as_str(),
                now_ms,
            ),
            AppEvent::ToastMessage { message, toast_type } => self.handle_toast_message(
                message.as_str(),
                toast_type.as_str(),
                now_ms,
            ),
            AppEvent::ShowCommandPalette => self.handle_show_command_palette(),
            AppEvent::HideCommandPalette => self.handle_hide_command_palette(),
            AppEvent::Quit => self.handle_quit(),
            AppEvent::BufferCursorMoved { .. } => self.handle_buffer_cursor_moved(
                area,
                show_line_numbers,
            ),
            _ => (),
        }
    }

    /// After a programmatic cursor move, scroll so the cursor stays in
    /// view.
    pub fn handle_buffer_cursor_moved(&mut self, area: Area, show_line_numbers: bool)
        requires
            old(self).wf(),
            area.height >= 3,
            old(self).scroll_offset.0 + area.height as int <= usize::MAX,
            show_line_numbers ==> old(self).active().line_number_width_spec() < area.width as int,
            !show_line_numbers ==> area.width > 0,
        ensures
            crate::ui::cursor_in_view_post(*old(self), *final(self), area, show_line_numbers),
    {
        self.ensure_cursor_visible(area, show_line_numbers);
    }
}

} // verus!
