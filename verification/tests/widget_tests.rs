//! Tests for the widget state: editor view, cursor manager, command
//! palette and toast notifications.

use editor::buffer::Buffer;
use editor::widgets::cursor::CursorContext;
use editor::widgets::cursor::CursorManager;
use editor::widgets::cursor::CursorState;
use editor::widgets::editor::Editor;
use editor::widgets::modal::CommandPalette;
use editor::widgets::toast::ToastManager;
use editor::widgets::toast::ToastType;
use editor::input::Area;

#[test]
fn test_cursor_manager_creation() {
    let cursor_manager = CursorManager::new();

    assert_eq!(cursor_manager.get_active_context(), None);
}

#[test]
fn test_cursor_manager_context_switching() {
    let mut cursor_manager = CursorManager::new();

    cursor_manager.set_active_context(CursorContext::Editor);
    assert_eq!(cursor_manager.get_active_context(), Some(CursorContext::Editor));

    cursor_manager.set_active_context(CursorContext::CommandPalette);
    assert_eq!(cursor_manager.get_active_context(), Some(CursorContext::CommandPalette));
}

#[test]
fn test_cursor_manager_position_updates() {
    let mut cursor_manager = CursorManager::new();

    cursor_manager.set_active_context(CursorContext::Editor);
    cursor_manager.update_cursor_position(CursorContext::Editor, 10, 5, 0);

    let position = cursor_manager.get_cursor_position(CursorContext::Editor);
    assert!(position.is_some());
    assert_eq!(position.unwrap().x, 10);
    assert_eq!(position.unwrap().y, 5);
}

#[test]
fn test_cursor_manager_visibility() {
    let mut cursor_manager = CursorManager::new();

    cursor_manager.update_cursor_position(CursorContext::Editor, 10, 5, 0);
    cursor_manager.set_active_context(CursorContext::Editor);

    cursor_manager.hide_cursor(CursorContext::Editor);
    assert_eq!(cursor_manager.get_cursor_position(CursorContext::Editor), None);

    cursor_manager.show_cursor(CursorContext::Editor);
    assert_eq!(cursor_manager.get_active_context(), None);
}

#[test]
fn test_cursor_manager_multiple_contexts() {
    let mut cursor_manager = CursorManager::new();

    cursor_manager.update_cursor_position(CursorContext::Editor, 10, 5, 0);
    cursor_manager.update_cursor_position(CursorContext::CommandPalette, 20, 0, 0);
    cursor_manager.update_cursor_position(CursorContext::TextSearch, 0, 15, 0);

    cursor_manager.set_active_context(CursorContext::Editor);
    assert_eq!(cursor_manager.get_active_context(), Some(CursorContext::Editor));
    cursor_manager.update_cursor_position(CursorContext::Editor, 10, 5, 0);

    cursor_manager.set_active_context(CursorContext::CommandPalette);
    assert_eq!(cursor_manager.get_active_context(), Some(CursorContext::CommandPalette));
    cursor_manager.update_cursor_position(CursorContext::CommandPalette, 20, 0, 0);

    cursor_manager.set_active_context(CursorContext::TextSearch);
    assert_eq!(cursor_manager.get_active_context(), Some(CursorContext::TextSearch));
    cursor_manager.update_cursor_position(CursorContext::TextSearch, 0, 15, 0);

    cursor_manager.set_active_context(CursorContext::Editor);
    let editor_pos = cursor_manager.get_cursor_position(CursorContext::Editor);
    assert!(editor_pos.is_some());
    assert_eq!(editor_pos.unwrap().x, 10);
    assert_eq!(editor_pos.unwrap().y, 5);

    cursor_manager.set_active_context(CursorContext::CommandPalette);
    let palette_pos = cursor_manager.get_cursor_position(CursorContext::CommandPalette);
    assert!(palette_pos.is_some());
    assert_eq!(palette_pos.unwrap().x, 20);
    assert_eq!(palette_pos.unwrap().y, 0);

    cursor_manager.set_active_context(CursorContext::TextSearch);
    let search_pos = cursor_manager.get_cursor_position(CursorContext::TextSearch);
    assert!(search_pos.is_some());
    assert_eq!(search_pos.unwrap().x, 0);
    assert_eq!(search_pos.unwrap().y, 15);
}

#[test]
fn test_cursor_manager_single_visible_cursor() {
    let mut cursor_manager = CursorManager::new();

    let contexts = [
        CursorContext::Editor,
        CursorContext::CommandPalette,
        CursorContext::FileSearch,
        CursorContext::TextSearch,
        CursorContext::Editor,
        CursorContext::FileSearch,
    ];
    for ctx in contexts {
        cursor_manager.set_active_context(ctx);
        let visible = [
            cursor_manager.editor.visible,
            cursor_manager.command_palette.visible,
            cursor_manager.file_search.visible,
            cursor_manager.text_search.visible,
        ];
        let count = visible.iter().filter(|v| **v).count();
        assert_eq!(count, 1);
    }
}

#[test]
fn test_cursor_blink_phases() {
    let mut state = CursorState::default();
    state.last_activity = 1000;
    state.last_blink = 1000;

    // Within the activity window the cursor is always drawn.
    assert!(state.render_visible(1500));
    assert!(state.blink_on);

    // Past the window, the phase flips once the blink interval elapses.
    assert!(!state.render_visible(2600));
    assert!(!state.blink_on);
    assert_eq!(state.last_blink, 2600);

    assert!(state.render_visible(3200));
    assert!(state.blink_on);
}

#[test]
fn test_editor_widget_creation() {
    let buffer = Buffer::new();
    let _editor = Editor::new(&buffer);
}

#[test]
fn test_editor_widget_with_content() {
    let mut buffer = Buffer::new();

    buffer.insert_char('H');
    buffer.insert_char('e');
    buffer.insert_char('l');
    buffer.insert_char('l');
    buffer.insert_char('o');
    buffer.insert_newline();
    buffer.insert_char('W');
    buffer.insert_char('o');
    buffer.insert_char('r');
    buffer.insert_char('l');
    buffer.insert_char('d');

    let _editor = Editor::new(&buffer);
}

#[test]
fn test_editor_widget_scroll_offset() {
    let buffer = Buffer::new();

    let _editor1 = Editor::new(&buffer);
    let _editor2 = Editor::new(&buffer);
    let _editor3 = Editor::new(&buffer);
}

#[test]
fn test_editor_widget_with_selection() {
    let mut buffer = Buffer::new();

    for ch in "Hello World".chars() {
        buffer.insert_char(ch);
    }

    buffer.cursor_pos = (0, 0);
    buffer.toggle_visual_mode();
    buffer.cursor_pos = (0, 5);

    let _editor = Editor::new(&buffer);
}

#[test]
fn test_editor_widget_keeps_cursor_in_view() {
    let lines: Vec<String> = (0..40).map(|i| format!("line {}", i)).collect();
    let mut buffer = Buffer::from_lines(lines, "untitled".to_string(), None);
    buffer.cursor_pos = (30, 0);

    let mut editor = Editor::new(&buffer);
    editor.ensure_cursor_visible(Area::new(0, 0, 80, 10));

    assert_eq!(editor.scroll_offset.0, 21);
    assert_eq!(editor.scroll_offset.1, 0);
}

#[test]
fn test_command_palette_creation() {
    let command_input = "test command".to_string();
    let _palette = CommandPalette::new(&command_input);
}

#[test]
fn test_command_palette_builders() {
    let palette = CommandPalette::new("open ")
        .suggestions(vec!["open".to_string(), "save".to_string()])
        .selected(5)
        .focused(false);

    assert_eq!(palette.input, "open ");
    assert_eq!(palette.suggestions.len(), 2);
    assert_eq!(palette.selected, 1);
    assert!(!palette.focused);
}

#[test]
fn test_toast_manager_creation() {
    let toast_manager = ToastManager::new();

    assert!(!toast_manager.has_active_toasts());
}

#[test]
fn test_toast_manager_adding_toasts() {
    let mut toast_manager = ToastManager::new();

    toast_manager.add_info("Test message".to_string(), 0);
    assert!(toast_manager.has_active_toasts());

    toast_manager.add_success("Success message".to_string(), 0);
    toast_manager.add_warning("Warning message".to_string(), 0);
    toast_manager.add_error("Error message".to_string(), 0);

    assert!(toast_manager.has_active_toasts());
}

#[test]
fn test_toast_manager_update_and_expiry() {
    let mut toast_manager = ToastManager::new();

    toast_manager.add_info("Test message".to_string(), 1000);
    assert!(toast_manager.has_active_toasts());

    // Within the three-second lifetime nothing is dropped.
    toast_manager.update(1000);
    assert!(toast_manager.has_active_toasts());

    // Past it, the toast goes away.
    toast_manager.update(4001);
    assert!(!toast_manager.has_active_toasts());
}

#[test]
fn test_toast_manager_multiple_toasts() {
    let mut toast_manager = ToastManager::new();

    toast_manager.add_info("Info 1".to_string(), 0);
    toast_manager.add_info("Info 2".to_string(), 0);
    toast_manager.add_success("Success 1".to_string(), 0);
    toast_manager.add_warning("Warning 1".to_string(), 0);
    toast_manager.add_error("Error 1".to_string(), 0);

    assert!(toast_manager.has_active_toasts());

    for _ in 0..5 {
        toast_manager.update(0);
    }

    assert!(toast_manager.has_active_toasts());
}

#[test]
fn test_toast_manager_caps_at_five() {
    let mut toast_manager = ToastManager::new();
    for i in 0..7 {
        toast_manager.add_info(format!("message {}", i), 0);
    }
    assert_eq!(toast_manager.toasts.len(), 5);
    assert_eq!(toast_manager.toasts[0].message, "message 2");
    assert_eq!(toast_manager.toasts[4].message, "message 6");
}

#[test]
fn test_toast_values() {
    let toast =
        editor::widgets::toast::Toast::new("hi".to_string(), ToastType::Warning, 100)
            .with_duration(500);
    assert!(!toast.is_expired(600));
    assert!(toast.is_expired(601));
    assert_eq!(toast.remaining_time(350), 250);
    assert_eq!(ToastType::Warning.icon(), "!");
}
