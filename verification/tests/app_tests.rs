//! Tests for the shared editor state: buffer management, status bar
//! refresh and the basic state fields.

use editor::app::CommandMode;
use editor::buffer::Buffer;
use editor::App;

#[test]
fn test_app_creation() {
    let app = App::new();

    assert!(app.running);
    assert_eq!(app.buffers.len(), 1);
    assert_eq!(app.active_buffer, 0);
    assert_eq!(app.scroll_offset, (0, 0));
    assert!(matches!(app.command_mode, CommandMode::Normal));
    assert_eq!(app.command_input, "");
    assert!(app.status_message.is_none());
    assert!(!app.show_command_palette);
    assert!(app.mouse_drag_start.is_none());

    assert!(app.status_bar.slot_count() > 0);
}

#[test]
fn test_app_with_file() {
    let lines: Vec<String> = vec!["Hello World".to_string(), "Second Line".to_string()];
    let buffer = Buffer::from_lines(lines, "test.txt".to_string(), Some("test.txt".to_string()));
    let app = App::with_buffer(buffer);

    assert!(app.running);
    assert_eq!(app.buffers.len(), 1);
    assert_eq!(app.buffers[0].name, "test.txt");
    assert_eq!(app.buffers[0].content.len(), 2);
    assert_eq!(app.buffers[0].content[0], "Hello World");
    assert_eq!(app.buffers[0].content[1], "Second Line");
    assert!(!app.buffers[0].modified);

    assert!(app.status_bar.slot_count() > 0);
}

#[test]
fn test_app_buffer_management() {
    let mut app = App::new();

    assert_eq!(app.buffers.len(), 1);
    assert_eq!(app.active_buffer, 0);

    let buffer = &mut app.buffers[0];
    buffer.insert_char('H');
    buffer.insert_char('i');

    assert_eq!(buffer.content[0], "Hi");
    assert!(buffer.modified);
}

#[test]
fn test_app_status_bar_updates() {
    let mut app = App::new();

    let buffer = &mut app.buffers[0];
    buffer.insert_char('T');
    buffer.insert_char('e');
    buffer.insert_char('s');
    buffer.insert_char('t');
    buffer.cursor_pos = (0, 2);

    app.update_status_bar();

    assert!(app.status_bar.get_slot("file").is_some());

    let cursor_slot = app.status_bar.get_slot("cursor");
    assert!(cursor_slot.is_some());
    assert!(cursor_slot.unwrap().content.contains("Ln 1, Col 3"));

    let modified_slot = app.status_bar.get_slot("modified");
    assert!(modified_slot.is_some());
    assert!(modified_slot.unwrap().content.contains("Unsaved"));

    let mode_slot = app.status_bar.get_slot("mode");
    assert!(mode_slot.is_some());
    assert!(mode_slot.unwrap().content.contains("NORMAL"));
}

#[test]
fn test_app_status_bar_selection_info() {
    let mut app = App::new();

    let buffer = &mut app.buffers[0];
    for ch in "Hello World".chars() {
        buffer.insert_char(ch);
    }

    buffer.cursor_pos = (0, 0);
    buffer.toggle_visual_mode();
    buffer.cursor_pos = (0, 5);

    app.update_status_bar();

    let selection_slot = app.status_bar.get_slot("selection");
    assert!(selection_slot.is_some());
    assert!(selection_slot.unwrap().visible);
    assert!(selection_slot.unwrap().content.contains("5 chars"));
}

#[test]
fn test_app_status_bar_no_selection() {
    let mut app = App::new();

    let buffer = &mut app.buffers[0];
    buffer.insert_char('T');
    buffer.insert_char('e');
    buffer.insert_char('s');
    buffer.insert_char('t');

    app.update_status_bar();

    let selection_slot = app.status_bar.get_slot("selection");
    assert!(selection_slot.is_some());
    assert!(!selection_slot.unwrap().visible);
}

#[test]
fn test_app_command_mode_switching() {
    let mut app = App::new();

    assert!(matches!(app.command_mode, CommandMode::Normal));

    app.command_mode = CommandMode::Command;
    assert!(matches!(app.command_mode, CommandMode::Command));

    app.command_mode = CommandMode::FileSearch;
    assert!(matches!(app.command_mode, CommandMode::FileSearch));

    app.command_mode = CommandMode::TextSearch;
    assert!(matches!(app.command_mode, CommandMode::TextSearch));
}

#[test]
fn test_app_command_palette_state() {
    let mut app = App::new();

    assert!(!app.show_command_palette);
    assert_eq!(app.command_input, "");

    app.show_command_palette = true;
    app.command_input = "test command".to_string();

    assert!(app.show_command_palette);
    assert_eq!(app.command_input, "test command");
}

#[test]
fn test_app_scroll_offset() {
    let mut app = App::new();

    assert_eq!(app.scroll_offset, (0, 0));

    app.scroll_offset = (10, 5);
    assert_eq!(app.scroll_offset, (10, 5));
}

#[test]
fn test_app_status_message() {
    let mut app = App::new();

    assert!(app.status_message.is_none());

    app.set_status_message("Test message".to_string());
    assert_eq!(app.status_message, Some("Test message".to_string()));

    app.clear_status_message();
    assert!(app.status_message.is_none());
}

#[test]
fn test_app_multiple_buffers() {
    let mut app = App::new();

    app.add_buffer(Buffer::new());
    app.add_buffer(Buffer::new());

    assert_eq!(app.buffers.len(), 3);
    assert_eq!(app.active_buffer, 2);

    assert!(app.switch_to_buffer(1));
    assert_eq!(app.active_buffer, 1);
    assert!(!app.switch_to_buffer(9));

    app.update_status_bar();
    let buffer_count_slot = app.status_bar.get_slot("buffer_count");
    assert!(buffer_count_slot.is_some());
    assert!(buffer_count_slot.unwrap().content.contains("3"));
}

#[test]
fn test_app_close_buffer_never_closes_last() {
    let mut app = App::new();
    assert!(!app.close_current_buffer());

    app.add_buffer(Buffer::new());
    assert!(app.close_current_buffer());
    assert_eq!(app.buffers.len(), 1);
    assert_eq!(app.active_buffer, 0);
}

#[test]
fn test_app_unsaved_changes() {
    let mut app = App::new();
    assert!(!app.has_unsaved_changes());

    app.buffers[0].insert_char('x');
    assert!(app.has_unsaved_changes());
    assert_eq!(app.buffer_count(), 1);
}

#[test]
fn test_app_get_active_buffer() {
    let mut app = App::new();
    app.buffers[0].insert_char('q');

    assert_eq!(app.get_active_buffer().unwrap().content[0], "q");
    app.get_active_buffer_mut().unwrap().insert_char('r');
    assert_eq!(app.buffers[0].content[0], "qr");
}
