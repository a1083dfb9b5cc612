//! End-to-end exercises over the whole state, plus the small helpers:
//! timing statistics, configuration defaults and text utilities.

use editor::app::CommandMode;
use editor::buffer::Buffer;
use editor::buffer::CursorMovement;
use editor::config::EditorConfig;
use editor::config::UiConfig;
use editor::performance::PerformanceMonitor;
use editor::App;

#[test]
fn test_app_smoke_test() {
    let app = App::new();

    assert!(app.running);
    assert!(!app.buffers.is_empty());
    assert!(app.status_bar.slot_count() > 0);
}

#[test]
fn test_file_loading_smoke_test() {
    let lines: Vec<String> =
        vec!["Line 1".to_string(), "Line 2".to_string(), "Line 3".to_string()];
    let buffer = Buffer::from_lines(
        lines,
        "smoke_test.txt".to_string(),
        Some("smoke_test.txt".to_string()),
    );
    let app = App::with_buffer(buffer);

    assert_eq!(app.buffers[0].content.len(), 3);
    assert_eq!(app.buffers[0].content[0], "Line 1");
    assert_eq!(app.buffers[0].name, "smoke_test.txt");
}

#[test]
fn test_basic_editing_smoke_test() {
    let mut app = App::new();

    let buffer = &mut app.buffers[0];

    for ch in "Hello World".chars() {
        buffer.insert_char(ch);
    }

    assert_eq!(buffer.content[0], "Hello World");
    assert!(buffer.modified);

    buffer.cursor_pos = (0, 0);
    buffer.move_cursor(CursorMovement::Right);
    buffer.move_cursor(CursorMovement::Right);
    assert_eq!(buffer.cursor_pos, (0, 2));

    buffer.backspace();
    assert_eq!(buffer.content[0], "Hllo World");
    assert_eq!(buffer.cursor_pos, (0, 1));
}

#[test]
fn test_status_bar_integration_smoke_test() {
    let mut app = App::new();

    let buffer = &mut app.buffers[0];
    buffer.insert_char('T');
    buffer.insert_char('e');
    buffer.insert_char('s');
    buffer.insert_char('t');

    app.update_status_bar();

    assert!(app.status_bar.get_slot("file").is_some());
    assert!(app.status_bar.get_slot("cursor").is_some());
    assert!(app.status_bar.get_slot("modified").is_some());
    assert!(app.status_bar.get_slot("mode").is_some());

    let cursor_slot = app.status_bar.get_slot("cursor").unwrap();
    assert!(cursor_slot.content.contains("Ln"));
    assert!(cursor_slot.content.contains("Col"));

    let modified_slot = app.status_bar.get_slot("modified").unwrap();
    assert!(modified_slot.content.contains("Unsaved"));
}

#[test]
fn test_selection_smoke_test() {
    let mut app = App::new();

    let buffer = &mut app.buffers[0];
    for ch in "Hello World Test".chars() {
        buffer.insert_char(ch);
    }

    buffer.cursor_pos = (0, 6);
    buffer.toggle_visual_mode();
    buffer.cursor_pos = (0, 11);

    let selected_text = buffer.get_selected_text();
    assert_eq!(selected_text, Some("World".to_string()));

    app.update_status_bar();
    let selection_slot = app.status_bar.get_slot("selection").unwrap();
    assert!(selection_slot.visible);
    assert!(selection_slot.content.contains("5 chars"));
}

#[test]
fn test_multiline_editing_smoke_test() {
    let mut app = App::new();

    let buffer = &mut app.buffers[0];

    for ch in "Line 1".chars() {
        buffer.insert_char(ch);
    }
    buffer.insert_newline();
    for ch in "Line 2".chars() {
        buffer.insert_char(ch);
    }

    assert_eq!(buffer.content.len(), 2);
    assert_eq!(buffer.content[0], "Line 1");
    assert_eq!(buffer.content[1], "Line 2");
    assert_eq!(buffer.cursor_pos, (1, 6));

    buffer.move_cursor(CursorMovement::Up);
    assert_eq!(buffer.cursor_pos, (0, 6));

    buffer.move_cursor(CursorMovement::Down);
    assert_eq!(buffer.cursor_pos, (1, 6));
}

#[test]
fn test_app_state_consistency() {
    let mut app = App::new();

    let buffer = &mut app.buffers[0];

    assert_eq!(buffer.cursor_pos, (0, 0));
    assert!(!buffer.modified);

    buffer.insert_char('A');
    assert!(buffer.modified);
    assert_eq!(buffer.cursor_pos, (0, 1));

    buffer.insert_newline();
    assert_eq!(buffer.cursor_pos, (1, 0));
    assert_eq!(buffer.content.len(), 2);

    buffer.backspace();
    assert_eq!(buffer.cursor_pos, (0, 1));
    assert_eq!(buffer.content.len(), 1);

    assert!(buffer.modified);
}

#[test]
fn test_command_mode_smoke_test() {
    let mut app = App::new();

    assert!(matches!(app.command_mode, CommandMode::Normal));
    assert!(!app.show_command_palette);
    assert_eq!(app.command_input, "");

    app.command_mode = CommandMode::Command;
    app.show_command_palette = true;
    app.command_input = "test".to_string();

    assert!(matches!(app.command_mode, CommandMode::Command));
    assert!(app.show_command_palette);
    assert_eq!(app.command_input, "test");
}

#[test]
fn test_performance_monitor_averages() {
    let mut monitor = PerformanceMonitor::new(3);
    assert!(monitor.average_frame_time().is_none());
    assert!(!monitor.is_performance_degraded());

    monitor.add_frame_time(10000);
    monitor.add_frame_time(20000);
    assert_eq!(monitor.average_frame_time(), Some(15000));

    monitor.add_frame_time(30000);
    monitor.add_frame_time(40000);
    // The window keeps the last three samples.
    assert_eq!(monitor.average_frame_time(), Some(30000));

    monitor.add_event_time(500);
    assert_eq!(monitor.average_event_time(), Some(500));
}

#[test]
fn test_performance_monitor_frame_timing() {
    let mut monitor = PerformanceMonitor::new(8);
    monitor.frame_start(1000);
    monitor.frame_end(3500);
    assert_eq!(monitor.average_frame_time(), Some(2500));
    assert!(monitor.last_frame_start.is_none());
}

#[test]
fn test_performance_degradation_threshold() {
    let mut monitor = PerformanceMonitor::new(4);
    // Sixty frames per second: fine.
    monitor.add_frame_time(16667);
    assert!(!monitor.is_performance_degraded());

    // Twenty frames per second: degraded.
    let mut slow = PerformanceMonitor::new(4);
    slow.add_frame_time(50000);
    assert!(slow.is_performance_degraded());
}

#[test]
fn test_performance_stats_string() {
    let mut monitor = PerformanceMonitor::new(4);
    assert_eq!(monitor.stats_string(), "Frame: N/A | Events: N/A | FPS: N/A");

    monitor.add_frame_time(20000);
    monitor.add_event_time(1500);
    assert_eq!(monitor.stats_string(), "Frame: 20ms | Events: 1ms | FPS: 50");
}

#[test]
fn test_config_defaults() {
    let editor_config = EditorConfig::default();
    assert_eq!(editor_config.tab_size, 4);
    assert!(editor_config.use_spaces);
    assert!(editor_config.show_line_numbers);
    assert!(editor_config.highlight_current_line);
    assert!(!editor_config.word_wrap);
    assert!(!editor_config.auto_save);
    assert_eq!(editor_config.auto_save_delay, 1000);

    let ui_config = UiConfig::default();
    assert_eq!(ui_config.theme, "default");
    assert_eq!(ui_config.font, "Jetbrains Mono");
    assert_eq!(ui_config.font_size, 12);
    assert!(ui_config.show_status_bar);
    assert!(ui_config.show_menu_bar);
    assert!(!ui_config.show_minimap);
}

#[test]
fn test_text_helpers() {
    assert_eq!(editor::text::usize_to_string(0), "0");
    assert_eq!(editor::text::usize_to_string(42), "42");
    assert_eq!(editor::text::u64_to_string(90107), "90107");

    assert!(editor::text::str_eq("abc", "abc"));
    assert!(!editor::text::str_eq("abc", "abd"));

    assert_eq!(editor::text::count_char("a\nb\nc", '\n'), 2);

    assert_eq!(editor::text::file_name_of("dir/sub/notes.txt"), "notes.txt");
    assert_eq!(editor::text::file_name_of("notes.txt"), "notes.txt");
    assert_eq!(editor::text::file_name_of("dir/"), "untitled");

    let tokens = editor::text::tokenize("  open   my notes.txt ");
    assert_eq!(tokens, vec!["open".to_string(), "my".to_string(), "notes.txt".to_string()]);

    assert!(editor::text::contains_ci("File SAVED ok", "saved"));
    assert!(!editor::text::contains_ci("File spared ok", "saved"));

    assert_eq!(editor::text::join_from(&vec!["a".to_string(), "b c".to_string()], 0), "a b c");
}
