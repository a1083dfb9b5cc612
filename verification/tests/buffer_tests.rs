//! Tests for the core text buffer: creation, editing, cursor movement,
//! selections and the line/cursor invariants behind them.

use editor::buffer::Buffer;
use editor::buffer::CursorMovement;
use editor::buffer::Position;

#[test]
fn test_buffer_creation() {
    let buffer = Buffer::new();

    assert_eq!(buffer.name, "untitled");
    assert_eq!(buffer.content.len(), 1);
    assert_eq!(buffer.cursor_pos, (0, 0));
    assert!(!buffer.modified);
    assert_eq!(buffer.selection_start, None);
}

#[test]
fn test_buffer_text_insertion() {
    let mut buffer = Buffer::new();

    buffer.insert_char('H');
    buffer.insert_char('e');
    buffer.insert_char('l');
    buffer.insert_char('l');
    buffer.insert_char('o');

    assert_eq!(buffer.content[0], "Hello");
    assert_eq!(buffer.cursor_pos, (0, 5));
    assert!(buffer.modified);
}

#[test]
fn test_buffer_newline_insertion() {
    let mut buffer = Buffer::new();

    buffer.insert_char('H');
    buffer.insert_char('i');
    buffer.insert_newline();
    buffer.insert_char('B');
    buffer.insert_char('y');
    buffer.insert_char('e');

    assert_eq!(buffer.content.len(), 2);
    assert_eq!(buffer.content[0], "Hi");
    assert_eq!(buffer.content[1], "Bye");
    assert_eq!(buffer.cursor_pos, (1, 3));
}

#[test]
fn test_buffer_backspace() {
    let mut buffer = Buffer::new();

    buffer.insert_char('H');
    buffer.insert_char('e');
    buffer.insert_char('l');
    buffer.insert_char('l');
    buffer.insert_char('o');

    buffer.backspace();
    buffer.backspace();

    assert_eq!(buffer.content[0], "Hel");
    assert_eq!(buffer.cursor_pos, (0, 3));
}

#[test]
fn test_buffer_cursor_movement() {
    let mut buffer = Buffer::new();

    buffer.insert_char('H');
    buffer.insert_char('e');
    buffer.insert_char('l');
    buffer.insert_char('l');
    buffer.insert_char('o');
    buffer.insert_newline();
    buffer.insert_char('W');
    buffer.insert_char('o');
    buffer.insert_char('r');
    buffer.insert_char('l');
    buffer.insert_char('d');

    buffer.move_cursor(CursorMovement::Left);
    assert_eq!(buffer.cursor_pos, (1, 4));

    buffer.move_cursor(CursorMovement::Up);
    assert_eq!(buffer.cursor_pos, (0, 4));

    buffer.move_cursor(CursorMovement::Right);
    assert_eq!(buffer.cursor_pos, (0, 5));

    buffer.move_cursor(CursorMovement::Down);
    assert_eq!(buffer.cursor_pos, (1, 5));
}

#[test]
fn test_buffer_text_selection() {
    let mut buffer = Buffer::new();

    for ch in "Hello World".chars() {
        buffer.insert_char(ch);
    }

    buffer.cursor_pos = (0, 0);
    buffer.toggle_visual_mode();

    buffer.cursor_pos = (0, 5);

    let selected_text = buffer.get_selected_text();
    assert_eq!(selected_text, Some("Hello".to_string()));
}

#[test]
fn test_buffer_file_operations() {
    let lines: Vec<String> =
        vec!["Hello".to_string(), "World".to_string(), "Test".to_string()];
    let buffer = Buffer::from_lines(lines, "test.txt".to_string(), Some("test.txt".to_string()));

    assert_eq!(buffer.name, "test.txt");
    assert_eq!(buffer.content.len(), 3);
    assert_eq!(buffer.content[0], "Hello");
    assert_eq!(buffer.content[1], "World");
    assert_eq!(buffer.content[2], "Test");
    assert!(!buffer.modified);

    let mut buffer = buffer;
    buffer.insert_char('!');
    assert!(buffer.modified);

    assert_eq!(buffer.content_as_string(), "!Hello\nWorld\nTest");
}

#[test]
fn test_buffer_multiline_selection() {
    let mut buffer = Buffer::new();

    for ch in "Line 1\nLine 2\nLine 3".chars() {
        if ch == '\n' {
            buffer.insert_newline();
        } else {
            buffer.insert_char(ch);
        }
    }

    buffer.cursor_pos = (0, 0);
    buffer.toggle_visual_mode();
    buffer.cursor_pos = (1, 3);

    let selected_text = buffer.get_selected_text();
    assert_eq!(selected_text, Some("Line 1\nLin".to_string()));
}

#[test]
fn test_buffer_line_boundaries() {
    let mut buffer = Buffer::new();

    buffer.move_cursor(CursorMovement::Left);
    assert_eq!(buffer.cursor_pos, (0, 0));

    buffer.move_cursor(CursorMovement::Up);
    assert_eq!(buffer.cursor_pos, (0, 0));

    buffer.insert_char('H');
    buffer.insert_char('i');
    buffer.cursor_pos = (0, 0);

    buffer.move_cursor(CursorMovement::Right);
    buffer.move_cursor(CursorMovement::Right);
    buffer.move_cursor(CursorMovement::Right);
    assert_eq!(buffer.cursor_pos, (0, 2));
}

#[test]
fn test_backspace_joins_lines() {
    let lines: Vec<String> = vec!["Line 1".to_string(), "Line 2".to_string()];
    let mut buffer = Buffer::from_lines(lines, "untitled".to_string(), None);
    buffer.cursor_pos = (1, 0);

    buffer.backspace();

    assert_eq!(buffer.content.len(), 1);
    assert_eq!(buffer.content[0], "Line 1Line 2");
    assert_eq!(buffer.cursor_pos, (0, 6));
}

#[test]
fn test_delete_joins_lines_at_line_end() {
    let lines: Vec<String> = vec!["ab".to_string(), "cd".to_string()];
    let mut buffer = Buffer::from_lines(lines, "untitled".to_string(), None);
    buffer.cursor_pos = (0, 2);

    buffer.delete();

    assert_eq!(buffer.content.len(), 1);
    assert_eq!(buffer.content[0], "abcd");
    assert_eq!(buffer.cursor_pos, (0, 2));
}

#[test]
fn test_delete_at_buffer_end_is_noop() {
    let mut buffer = Buffer::new();
    buffer.insert_char('x');

    buffer.delete();

    assert_eq!(buffer.content[0], "x");
    assert_eq!(buffer.cursor_pos, (0, 1));
}

#[test]
fn test_backspace_at_buffer_start_is_noop() {
    let mut buffer = Buffer::new();

    buffer.backspace();

    assert_eq!(buffer.content.len(), 1);
    assert_eq!(buffer.content[0], "");
    assert!(!buffer.modified);
}

#[test]
fn test_insert_pads_past_line_end() {
    let mut buffer = Buffer::new();
    buffer.cursor_pos = (0, 3);

    buffer.insert_char('x');

    assert_eq!(buffer.content[0], "   x");
    assert_eq!(buffer.cursor_pos, (0, 4));
}

#[test]
fn test_selection_round_trip_removes_returned_length() {
    let lines: Vec<String> = vec!["Line 1".to_string(), "Line 2".to_string(), "Line 3".to_string()];
    let mut buffer = Buffer::from_lines(lines, "untitled".to_string(), None);
    buffer.cursor_pos = (0, 2);
    buffer.toggle_visual_mode();
    buffer.cursor_pos = (2, 3);

    let before = buffer.content_as_string().chars().count();
    let selected = buffer.get_selected_text().unwrap();
    assert!(buffer.delete_selection());
    let after = buffer.content_as_string().chars().count();

    assert_eq!(before - after, selected.chars().count());
    assert_eq!(buffer.cursor_pos, (0, 2));
    assert_eq!(buffer.selection_start, None);
    assert!(!buffer.visual_mode);
}

#[test]
fn test_clear_selection_is_idempotent() {
    let mut buffer = Buffer::new();
    for ch in "abc".chars() {
        buffer.insert_char(ch);
    }
    buffer.cursor_pos = (0, 0);
    buffer.toggle_visual_mode();
    buffer.cursor_pos = (0, 2);

    buffer.clear_selection();
    let once = (
        buffer.content.clone(),
        buffer.cursor_pos,
        buffer.selection_start,
        buffer.visual_mode,
        buffer.modified,
    );
    buffer.clear_selection();
    let twice = (
        buffer.content.clone(),
        buffer.cursor_pos,
        buffer.selection_start,
        buffer.visual_mode,
        buffer.modified,
    );

    assert_eq!(once, twice);
    assert_eq!(buffer.selection_start, None);
    assert!(!buffer.visual_mode);
}

#[test]
fn test_invariant_after_edit_sequences() {
    let mut buffer = Buffer::new();
    for ch in "one\ntwo\nthree".chars() {
        if ch == '\n' {
            buffer.insert_newline();
        } else {
            buffer.insert_char(ch);
        }
    }
    buffer.backspace();
    buffer.backspace();
    buffer.delete();
    buffer.insert_newline();
    buffer.insert_char('z');
    buffer.backspace();

    assert!(!buffer.content.is_empty());
    let (row, col) = buffer.cursor_pos;
    assert!(row < buffer.content.len());
    assert!(col <= buffer.content[row].chars().count());
}

#[test]
fn test_get_selection_range_normalizes() {
    let mut buffer = Buffer::new();
    for ch in "abcdef".chars() {
        buffer.insert_char(ch);
    }
    buffer.cursor_pos = (0, 5);
    buffer.toggle_visual_mode();
    buffer.cursor_pos = (0, 1);

    let (start, end) = buffer.get_selection_range().unwrap();
    assert_eq!(start, Position::new(0, 1));
    assert_eq!(end, Position::new(0, 5));
}

#[test]
fn test_count_digits_and_gutter_width() {
    assert_eq!(Buffer::count_digits(0), 1);
    assert_eq!(Buffer::count_digits(9), 1);
    assert_eq!(Buffer::count_digits(10), 2);
    assert_eq!(Buffer::count_digits(12345), 5);

    let buffer = Buffer::new();
    assert_eq!(buffer.line_number_width(), 5);
}

#[test]
fn test_position_tuple_round_trip() {
    let p = Position::from_tuple((3, 7));
    assert_eq!(p.row, 3);
    assert_eq!(p.col, 7);
    assert_eq!(p.to_tuple(), (3, 7));
    assert!(Position::new(1, 9) < Position::new(2, 0));
}

#[test]
fn test_page_and_edge_movements() {
    let lines: Vec<String> = (0..20).map(|i| format!("row {}", i)).collect();
    let mut buffer = Buffer::from_lines(lines, "untitled".to_string(), None);
    buffer.cursor_pos = (0, 3);

    buffer.move_cursor(CursorMovement::PageDown);
    assert_eq!(buffer.cursor_pos, (8, 3));

    buffer.move_cursor(CursorMovement::PageDown);
    buffer.move_cursor(CursorMovement::PageDown);
    assert_eq!(buffer.cursor_pos, (19, 3));

    buffer.move_cursor(CursorMovement::PageUp);
    assert_eq!(buffer.cursor_pos, (11, 3));

    buffer.move_cursor(CursorMovement::LineEnd);
    assert_eq!(buffer.cursor_pos, (11, 6));

    buffer.move_cursor(CursorMovement::LineStart);
    assert_eq!(buffer.cursor_pos, (11, 0));

    buffer.move_cursor(CursorMovement::BufferEnd);
    assert_eq!(buffer.cursor_pos, (19, 6));

    buffer.move_cursor(CursorMovement::BufferStart);
    assert_eq!(buffer.cursor_pos, (0, 0));
}

#[test]
fn test_newline_splits_line_at_cursor() {
    let lines: Vec<String> = vec!["HelloWorld".to_string()];
    let mut buffer = Buffer::from_lines(lines, "untitled".to_string(), None);
    buffer.cursor_pos = (0, 5);

    buffer.insert_newline();

    assert_eq!(buffer.content, vec!["Hello".to_string(), "World".to_string()]);
    assert_eq!(buffer.cursor_pos, (1, 0));
}

#[test]
fn test_left_right_wrap_across_lines() {
    let lines: Vec<String> = vec!["ab".to_string(), "cd".to_string()];
    let mut buffer = Buffer::from_lines(lines, "untitled".to_string(), None);
    buffer.cursor_pos = (1, 0);

    buffer.move_cursor(CursorMovement::Left);
    assert_eq!(buffer.cursor_pos, (0, 2));

    buffer.move_cursor(CursorMovement::Right);
    assert_eq!(buffer.cursor_pos, (1, 0));
}
