//! Tests for the input interpreters: palette commands, keyboard handling
//! under the modes, mouse selection and scrolling, and the event-applying
//! subscribers.

use editor::app::CommandMode;
use editor::buffer::Buffer;
use editor::buffer::CursorMovement;
use editor::events::AppEvent;
use editor::events::KeyCode;
use editor::events::KeyInput;
use editor::events::MouseInput;
use editor::events::MouseKind;
use editor::handlers::keyboard::IoAction;
use editor::input::Area;
use editor::widgets::toast::ToastType;
use editor::App;

fn plain_key(code: KeyCode) -> KeyInput {
    KeyInput { code, ctrl: false, alt: false, shift: false }
}

#[test]
fn test_execute_unknown_command_reports_token() {
    let mut app = App::new();
    let outcome = app.execute_command("frobnicate now");

    assert!(outcome.action.is_none());
    assert_eq!(outcome.events.len(), 1);
    match &outcome.events[0] {
        AppEvent::StatusMessage { message } => {
            assert_eq!(message, "Unknown command: frobnicate");
        },
        other => panic!("unexpected event: {:?}", other),
    }
    assert_eq!(app.command_input, "");
}

#[test]
fn test_execute_quit_command() {
    let mut app = App::new();
    let outcome = app.execute_command("quit");

    assert_eq!(outcome.events.len(), 1);
    assert!(matches!(outcome.events[0], AppEvent::Quit));
    // Quitting flows through the bus; the flag flips when the event is applied.
    assert!(app.running);
}

#[test]
fn test_execute_new_command_adds_buffer() {
    let mut app = App::new();
    let outcome = app.execute_command("new");

    assert_eq!(app.buffers.len(), 2);
    assert_eq!(app.active_buffer, 1);
    assert_eq!(outcome.events.len(), 1);
}

#[test]
fn test_execute_open_without_path_reports_usage() {
    let mut app = App::new();
    let outcome = app.execute_command("open");

    assert!(outcome.action.is_none());
    match &outcome.events[0] {
        AppEvent::StatusMessage { message } => {
            assert_eq!(message, "Usage: open <file_path>");
        },
        other => panic!("unexpected event: {:?}", other),
    }
}

#[test]
fn test_execute_open_command_scenario() {
    // The palette line "open notes.txt" asks for the file; adopting the
    // loaded lines appends a named buffer and announces success.
    let mut app = App::new();
    let outcome = app.execute_command("open notes.txt");

    assert!(outcome.events.is_empty());
    let path = match outcome.action {
        Some(IoAction::OpenFile { path }) => path,
        other => panic!("unexpected action: {:?}", other),
    };
    assert_eq!(path, "notes.txt");

    // The file held "a\nb".
    let lines: Vec<String> = vec!["a".to_string(), "b".to_string()];
    let events = app.handle_open_file(&path, lines);

    assert_eq!(app.buffers.len(), 2);
    assert_eq!(app.active_buffer, 1);
    let opened = &app.buffers[1];
    assert_eq!(opened.content, vec!["a".to_string(), "b".to_string()]);
    assert_eq!(opened.name, "notes.txt");
    assert_eq!(events.len(), 2);
    assert!(matches!(
        &events[0],
        AppEvent::ToastMessage { message, toast_type }
            if message == "Opened file: notes.txt" && toast_type == "success"
    ));
    assert!(matches!(
        &events[1],
        AppEvent::StatusMessage { message } if message == "Opened file: notes.txt"
    ));
}

#[test]
fn test_execute_save_without_path() {
    let mut app = App::new();
    let outcome = app.execute_command("save");

    assert!(outcome.action.is_none());
    assert!(matches!(
        &outcome.events[0],
        AppEvent::StatusMessage { message } if message == "No file path - use save as command"
    ));
}

#[test]
fn test_save_command_with_path_requests_write() {
    let lines: Vec<String> = vec!["alpha".to_string(), "beta".to_string()];
    let buffer = Buffer::from_lines(lines, "a.txt".to_string(), Some("dir/a.txt".to_string()));
    let app = App::with_buffer(buffer);

    let outcome = app.handle_save_command();
    match outcome.action {
        Some(IoAction::SaveFile { path, content }) => {
            assert_eq!(path, "dir/a.txt");
            assert_eq!(content, "alpha\nbeta");
        },
        other => panic!("unexpected action: {:?}", other),
    }
}

#[test]
fn test_finish_save_marks_clean() {
    let lines: Vec<String> = vec!["x".to_string()];
    let buffer = Buffer::from_lines(lines, "a.txt".to_string(), Some("a.txt".to_string()));
    let mut app = App::with_buffer(buffer);
    app.buffers[0].insert_char('y');
    assert!(app.buffers[0].modified);

    let events = app.finish_save("a.txt", true, "");
    assert!(!app.buffers[0].modified);
    assert_eq!(events.len(), 2);
    assert!(matches!(
        &events[0],
        AppEvent::ToastMessage { message, toast_type }
            if message == "File saved: a.txt" && toast_type == "success"
    ));

    let events = app.finish_save("a.txt", false, "disk full");
    assert!(matches!(
        &events[0],
        AppEvent::StatusMessage { message } if message == "Error saving file: disk full"
    ));
}

#[test]
fn test_scenario_insert_and_newline() {
    // New buffer, insert "Hi", newline, insert "Bye".
    let mut app = App::new();
    for ch in "Hi".chars() {
        app.handle_char_input(ch);
    }
    app.handle_enter();
    for ch in "Bye".chars() {
        app.handle_char_input(ch);
    }

    assert_eq!(app.buffers[0].content, vec!["Hi".to_string(), "Bye".to_string()]);
    assert_eq!(app.buffers[0].cursor_pos, (1, 3));
}

#[test]
fn test_scenario_visual_selection() {
    // "Hello World", cursor at the start, visual mode, move to column 5.
    let mut buffer = Buffer::new();
    for ch in "Hello World".chars() {
        buffer.insert_char(ch);
    }
    buffer.cursor_pos = (0, 0);
    buffer.toggle_visual_mode();
    for _ in 0..5 {
        buffer.move_cursor(CursorMovement::Right);
    }

    assert_eq!(buffer.get_selected_text(), Some("Hello".to_string()));
}

#[test]
fn test_scenario_scroll_clamps_on_short_buffer() {
    // Scrolling down by eight on a three-line buffer with a ten-row
    // viewport: the offset stays clamped at the top.
    let lines: Vec<String> = vec!["1".to_string(), "2".to_string(), "3".to_string()];
    let mut app = App::with_buffer(Buffer::from_lines(lines, "untitled".to_string(), None));

    let events = app.handle_scroll(8, 10);

    assert_eq!(app.scroll_offset.0, 0);
    assert!(app.scroll_offset.0 + 10 / 2 <= 5);
    assert!(matches!(
        &events[0],
        AppEvent::StatusMessage { message } if message == "Scrolled to line 1"
    ));
    assert_eq!(app.buffers[0].cursor_pos, (0, 0));
}

#[test]
fn test_mouse_scroll_respects_slack() {
    let lines: Vec<String> = (0..40).map(|i| format!("line {}", i)).collect();
    let mut app = App::with_buffer(Buffer::from_lines(lines, "untitled".to_string(), None));

    app.handle_mouse_scroll(100, Area::new(0, 0, 80, 10), 0);
    // Forty lines, viewport ten: the view stops at 40 + 5 - 10 = 35.
    assert_eq!(app.scroll_offset.0, 35);

    app.handle_mouse_scroll(-100, Area::new(0, 0, 80, 10), 0);
    assert_eq!(app.scroll_offset.0, 0);
}

#[test]
fn test_escape_clears_selection() {
    let mut app = App::new();
    for ch in "abcd".chars() {
        app.handle_char_input(ch);
    }
    app.buffers[0].cursor_pos = (0, 0);
    app.buffers[0].toggle_visual_mode();
    app.buffers[0].cursor_pos = (0, 2);

    let events = app.handle_escape();

    assert_eq!(app.buffers[0].selection_start, None);
    assert!(!app.buffers[0].visual_mode);
    assert!(matches!(
        &events[0],
        AppEvent::StatusMessage { message } if message == "Selection cleared"
    ));
}

#[test]
fn test_cut_removes_selection() {
    let mut app = App::new();
    for ch in "Hello World".chars() {
        app.handle_char_input(ch);
    }
    app.buffers[0].cursor_pos = (0, 0);
    app.buffers[0].toggle_visual_mode();
    app.buffers[0].cursor_pos = (0, 6);

    let events = app.handle_cut();

    assert_eq!(app.buffers[0].content[0], "World");
    assert_eq!(events.len(), 2);
    assert!(matches!(
        &events[1],
        AppEvent::StatusMessage { message } if message == "Cut 6 characters"
    ));

    let events = app.handle_cut();
    assert!(matches!(
        &events[0],
        AppEvent::StatusMessage { message } if message == "No text selected"
    ));
}

#[test]
fn test_copy_reports_length() {
    let mut app = App::new();
    for ch in "Hello".chars() {
        app.handle_char_input(ch);
    }
    app.buffers[0].cursor_pos = (0, 1);
    app.buffers[0].toggle_visual_mode();
    app.buffers[0].cursor_pos = (0, 4);

    let events = app.handle_copy();
    assert!(matches!(
        &events[0],
        AppEvent::StatusMessage { message } if message == "Copied 3 characters"
    ));
    assert_eq!(app.buffers[0].content[0], "Hello");
}

#[test]
fn test_buffer_cycling_keys() {
    let mut app = App::new();
    app.buffers[0].name = "first".to_string();
    let lines: Vec<String> = vec!["".to_string()];
    let mut second = Buffer::from_lines(lines, "second".to_string(), None);
    second.name = "second".to_string();
    app.add_buffer(second);

    let events = app.handle_next_buffer();
    assert_eq!(app.active_buffer, 0);
    assert!(matches!(
        &events[0],
        AppEvent::StatusMessage { message } if message == "Switched to buffer: first"
    ));

    app.handle_prev_buffer();
    assert_eq!(app.active_buffer, 1);
}

#[test]
fn test_normal_mode_key_dispatch() {
    let mut app = App::new();

    let outcome = app.handle_key_event(plain_key(KeyCode::Char('h')));
    assert_eq!(app.buffers[0].content[0], "h");
    assert_eq!(outcome.events.len(), 1);

    let outcome = app.handle_key_event(KeyInput {
        code: KeyCode::Char('q'),
        ctrl: true,
        alt: false,
        shift: false,
    });
    assert!(matches!(outcome.events[0], AppEvent::Quit));

    let outcome = app.handle_key_event(KeyInput {
        code: KeyCode::Char('p'),
        ctrl: false,
        alt: true,
        shift: false,
    });
    assert_eq!(outcome.events.len(), 4);
    assert!(matches!(
        &outcome.events[0],
        AppEvent::ModeChanged { new_mode } if new_mode == "command"
    ));
}

#[test]
fn test_command_mode_typing_and_backspace() {
    let mut app = App::new();
    app.command_mode = CommandMode::Command;

    app.handle_key_event(plain_key(KeyCode::Char('n')));
    app.handle_key_event(plain_key(KeyCode::Char('e')));
    app.handle_key_event(plain_key(KeyCode::Char('w')));
    assert_eq!(app.command_input, "new");

    app.handle_key_event(plain_key(KeyCode::Backspace));
    assert_eq!(app.command_input, "ne");

    let outcome = app.handle_key_event(plain_key(KeyCode::Esc));
    assert_eq!(outcome.events.len(), 4);
}

#[test]
fn test_command_mode_enter_runs_command() {
    let mut app = App::new();
    app.command_mode = CommandMode::Command;
    app.command_input = "new".to_string();

    let outcome = app.handle_key_event(plain_key(KeyCode::Enter));

    assert_eq!(app.buffers.len(), 2);
    assert_eq!(app.command_input, "");
    // One status event from the command, then the four closing events.
    assert_eq!(outcome.events.len(), 5);
}

#[test]
fn test_open_command_prefills_palette() {
    let mut app = App::new();
    let events = app.handle_open_command();

    assert!(matches!(app.command_mode, CommandMode::Command));
    assert_eq!(app.command_input, "open ");
    assert!(app.show_command_palette);
    assert_eq!(events.len(), 4);
}

#[test]
fn test_mode_changed_event_drives_mode() {
    let mut app = App::new();
    app.command_input = "leftover".to_string();

    app.handle_mode_changed("command");
    assert!(matches!(app.command_mode, CommandMode::Command));
    assert_eq!(app.command_input, "leftover");

    app.handle_mode_changed("normal");
    assert!(matches!(app.command_mode, CommandMode::Normal));
    assert_eq!(app.command_input, "");

    app.handle_mode_changed("mystery");
    assert!(matches!(app.command_mode, CommandMode::Normal));
}

#[test]
fn test_status_message_classifies_toasts() {
    let mut app = App::new();

    app.handle_status_message("Error opening file: missing", 0);
    assert_eq!(app.toast_manager.toasts.last().unwrap().toast_type, ToastType::Error);

    app.handle_status_message("File saved: a.txt", 0);
    assert_eq!(app.toast_manager.toasts.last().unwrap().toast_type, ToastType::Success);

    app.handle_status_message("WARNING ahead", 0);
    assert_eq!(app.toast_manager.toasts.last().unwrap().toast_type, ToastType::Warning);

    app.handle_status_message("hello there", 0);
    assert_eq!(app.toast_manager.toasts.last().unwrap().toast_type, ToastType::Info);
    assert_eq!(app.status_message, Some("hello there".to_string()));
}

#[test]
fn test_apply_event_quit_and_palette() {
    let mut app = App::new();
    let area = Area::new(0, 0, 80, 24);

    app.apply_event(&AppEvent::ShowCommandPalette, area, true, 0);
    assert!(app.show_command_palette);

    app.apply_event(&AppEvent::HideCommandPalette, area, true, 0);
    assert!(!app.show_command_palette);

    app.apply_event(&AppEvent::Quit, area, true, 0);
    assert!(!app.running);

    app.apply_event(
        &AppEvent::ModeChanged { new_mode: "text_search".to_string() },
        area,
        true,
        0,
    );
    assert!(matches!(app.command_mode, CommandMode::TextSearch));
}

#[test]
fn test_mouse_click_positions_cursor() {
    let lines: Vec<String> = vec!["Hello World".to_string(), "Second".to_string()];
    let mut app = App::with_buffer(Buffer::from_lines(lines, "untitled".to_string(), None));
    let area = Area::new(0, 0, 80, 23);

    // Gutter is five columns wide; clicking at x=7, y=1 hits row 1, col 2.
    let events = app.handle_click(7, 1, area, true);

    assert_eq!(app.buffers[0].cursor_pos, (1, 2));
    assert_eq!(app.mouse_drag_start, Some((1, 2)));
    assert_eq!(events.len(), 2);
    assert!(matches!(
        &events[1],
        AppEvent::StatusMessage { message } if message == "Cursor positioned at 2:3"
    ));
}

#[test]
fn test_mouse_drag_grows_selection() {
    let lines: Vec<String> = vec!["Hello World".to_string()];
    let mut app = App::with_buffer(Buffer::from_lines(lines, "untitled".to_string(), None));
    let area = Area::new(0, 0, 80, 23);

    app.handle_click(5, 0, area, true);
    assert_eq!(app.buffers[0].cursor_pos, (0, 0));

    let events = app.handle_drag(10, 0, area, true);
    assert!(app.buffers[0].visual_mode);
    assert_eq!(app.buffers[0].selection_start, Some((0, 0)));
    assert_eq!(app.buffers[0].cursor_pos, (0, 5));
    assert_eq!(events.len(), 1);

    let events = app.handle_release(10, 0);
    assert_eq!(app.mouse_drag_start, None);
    assert!(matches!(
        &events[0],
        AppEvent::StatusMessage { message } if message == "Selected 5 characters across 1 lines"
    ));
}

#[test]
fn test_mouse_event_dispatch() {
    let mut app = App::new();
    let area = Area::new(0, 0, 80, 23);
    let right = MouseInput { kind: MouseKind::RightDown, column: 1, row: 1 };
    let events = app.handle_mouse_event(right, area, true, 23, 80, 24);
    assert!(matches!(
        &events[0],
        AppEvent::StatusMessage { message } if message == "Right click detected"
    ));
}

#[test]
fn test_toggle_line_numbers_finish() {
    let app = App::new();
    let events = app.finish_toggle_line_numbers(true, true, "");
    assert!(matches!(
        &events[0],
        AppEvent::ToastMessage { message, toast_type }
            if message == "Line numbers enabled" && toast_type == "info"
    ));
    let events = app.finish_toggle_line_numbers(false, false, "no space");
    assert!(matches!(
        &events[0],
        AppEvent::ToastMessage { message, toast_type }
            if message == "Error saving config: no space" && toast_type == "error"
    ));
}

#[test]
fn test_open_file_error_reports() {
    let app = App::new();
    let events = app.handle_open_file_error("No such file");
    assert_eq!(events.len(), 2);
    assert!(matches!(
        &events[0],
        AppEvent::ToastMessage { message, toast_type }
            if message == "Error opening file: No such file" && toast_type == "error"
    ));
}

#[test]
fn test_execute_empty_command_is_noop() {
    let mut app = App::new();
    app.command_input = "pending".to_string();

    let outcome = app.execute_command("   ");

    assert!(outcome.events.is_empty());
    assert!(outcome.action.is_none());
    // An empty command returns before the command line is cleared.
    assert_eq!(app.command_input, "pending");
}

#[test]
fn test_command_mode_enter_with_empty_input_only_closes() {
    let mut app = App::new();
    app.command_mode = CommandMode::Command;

    let outcome = app.handle_key_event(plain_key(KeyCode::Enter));

    assert_eq!(app.buffers.len(), 1);
    assert_eq!(outcome.events.len(), 4);
    assert!(matches!(outcome.events[0], AppEvent::HideCommandPalette));
}

#[test]
fn test_execute_toggle_line_numbers_requests_config_change() {
    let mut app = App::new();
    let outcome = app.execute_command("line_numbers");

    assert!(outcome.events.is_empty());
    assert!(matches!(outcome.action, Some(IoAction::ToggleLineNumbers)));
}

#[test]
fn test_buffer_to_screen_round_trip() {
    let lines: Vec<String> = vec!["Hello World".to_string()];
    let mut app = App::with_buffer(Buffer::from_lines(lines, "untitled".to_string(), None));
    app.scroll_offset = (0, 0);
    let area = Area::new(0, 0, 80, 23);

    let cell = editor::input::coordinates::buffer_to_screen_coords(&app, 0, 3, area, true);
    // Gutter is five columns: buffer column 3 lands at screen column 8.
    assert_eq!(cell, Some((8, 0)));

    let back = editor::input::coordinates::screen_to_buffer_coords(&app, 8, 0, area, true);
    assert_eq!(back, Some((0, 3)));

    let out_of_view =
        editor::input::coordinates::buffer_to_screen_coords(&app, 50, 0, area, true);
    assert_eq!(out_of_view, None);
}

#[test]
fn test_key_scroll_uses_page_size() {
    let lines: Vec<String> = (0..100).map(|i| format!("{}", i)).collect();
    let mut app = App::with_buffer(Buffer::from_lines(lines, "untitled".to_string(), None));

    // A request of eight or more rows scrolls by the viewport height.
    app.handle_key_scroll(8, Area::new(0, 0, 80, 20), 0);
    assert_eq!(app.scroll_offset.0, 20);

    app.handle_key_scroll(-3, Area::new(0, 0, 80, 20), 0);
    assert_eq!(app.scroll_offset.0, 17);
}
