//! Tests for the slot-based status bar.

use editor::widgets::status_bar::SlotAlignment;
use editor::widgets::status_bar::StatusBar;
use editor::widgets::status_bar::StatusSlot;

#[test]
fn test_status_bar_creation() {
    let status_bar = StatusBar::new();

    assert_eq!(status_bar.slot_count(), 0);
}

#[test]
fn test_status_slot_creation() {
    let slot = StatusSlot::new("test", "content")
        .with_alignment(SlotAlignment::Right)
        .with_priority(100);

    assert_eq!(slot.id, "test");
    assert_eq!(slot.content, "content");
    assert_eq!(slot.alignment, SlotAlignment::Right);
    assert_eq!(slot.priority, 100);
}

#[test]
fn status_bar_tests_test_status_slot_creation() {
    let slot = StatusSlot::new("test", "Test Content")
        .with_alignment(SlotAlignment::Right)
        .with_priority(90)
        .with_visibility(false);

    assert_eq!(slot.id, "test");
    assert_eq!(slot.content, "Test Content");
    assert_eq!(slot.alignment, SlotAlignment::Right);
    assert_eq!(slot.priority, 90);
    assert!(!slot.visible);
}

#[test]
fn test_status_bar_slot_management() {
    let mut status_bar = StatusBar::new();

    let slot1 = StatusSlot::new("file", "main.rs")
        .with_alignment(SlotAlignment::Left)
        .with_priority(100);

    let slot2 = StatusSlot::new("cursor", "Ln 1, Col 1")
        .with_alignment(SlotAlignment::Left)
        .with_priority(90);

    let slot3 = StatusSlot::new("mode", "NORMAL")
        .with_alignment(SlotAlignment::Right)
        .with_priority(100);

    status_bar.set_slot(slot1);
    status_bar.set_slot(slot2);
    status_bar.set_slot(slot3);

    assert_eq!(status_bar.slot_count(), 3);

    assert!(status_bar.get_slot("file").is_some());
    assert!(status_bar.get_slot("nonexistent").is_none());

    status_bar.remove_slot("cursor");
    assert_eq!(status_bar.slot_count(), 2);
    assert!(status_bar.get_slot("cursor").is_none());
}

#[test]
fn status_bar_test_status_bar_slot_management() {
    let mut status_bar = StatusBar::new();

    let slot = StatusSlot::new("test", "content");
    status_bar.set_slot(slot);

    assert!(status_bar.get_slot("test").is_some());

    status_bar.hide_slot("test");
    assert!(!status_bar.get_slot("test").unwrap().visible);

    status_bar.show_slot("test");
    assert!(status_bar.get_slot("test").unwrap().visible);

    status_bar.update_slot_content("test", "new content".to_string());
    assert_eq!(status_bar.get_slot("test").unwrap().content, "new content");
}

#[test]
fn test_status_bar_slot_visibility() {
    let mut status_bar = StatusBar::new();

    let slot = StatusSlot::new("test", "Test Content").with_visibility(true);

    status_bar.set_slot(slot);

    status_bar.hide_slot("test");
    assert!(!status_bar.get_slot("test").unwrap().visible);

    status_bar.show_slot("test");
    assert!(status_bar.get_slot("test").unwrap().visible);
}

#[test]
fn test_status_bar_content_update() {
    let mut status_bar = StatusBar::new();

    let slot = StatusSlot::new("counter", "0");
    status_bar.set_slot(slot);

    status_bar.update_slot_content("counter", "42".to_string());
    assert_eq!(status_bar.get_slot("counter").unwrap().content, "42");

    status_bar.update_slot_content("nonexistent", "value".to_string());
}

#[test]
fn test_status_bar_slot_priorities() {
    let mut status_bar = StatusBar::new();

    let high_priority = StatusSlot::new("high", "High")
        .with_alignment(SlotAlignment::Left)
        .with_priority(100);

    let low_priority = StatusSlot::new("low", "Low")
        .with_alignment(SlotAlignment::Left)
        .with_priority(50);

    let medium_priority = StatusSlot::new("medium", "Medium")
        .with_alignment(SlotAlignment::Left)
        .with_priority(75);

    status_bar.set_slot(low_priority);
    status_bar.set_slot(high_priority);
    status_bar.set_slot(medium_priority);

    let (left_slots, _, _) = status_bar.get_organized_slots();

    assert_eq!(left_slots[0].id, "high");
    assert_eq!(left_slots[1].id, "medium");
    assert_eq!(left_slots[2].id, "low");
}

#[test]
fn test_status_bar_alignment_groups() {
    let mut status_bar = StatusBar::new();

    let left_slot = StatusSlot::new("left", "Left").with_alignment(SlotAlignment::Left);
    let center_slot = StatusSlot::new("center", "Center").with_alignment(SlotAlignment::Center);
    let right_slot = StatusSlot::new("right", "Right").with_alignment(SlotAlignment::Right);

    status_bar.set_slot(left_slot);
    status_bar.set_slot(center_slot);
    status_bar.set_slot(right_slot);

    let (left_slots, center_slots, right_slots) = status_bar.get_organized_slots();

    assert_eq!(left_slots.len(), 1);
    assert_eq!(center_slots.len(), 1);
    assert_eq!(right_slots.len(), 1);

    assert_eq!(left_slots[0].id, "left");
    assert_eq!(center_slots[0].id, "center");
    assert_eq!(right_slots[0].id, "right");
}

#[test]
fn test_status_bar_hidden_slots() {
    let mut status_bar = StatusBar::new();

    let visible_slot = StatusSlot::new("visible", "Visible")
        .with_alignment(SlotAlignment::Left)
        .with_visibility(true);

    let hidden_slot = StatusSlot::new("hidden", "Hidden")
        .with_alignment(SlotAlignment::Left)
        .with_visibility(false);

    status_bar.set_slot(visible_slot);
    status_bar.set_slot(hidden_slot);

    let (left_slots, _, _) = status_bar.get_organized_slots();

    assert_eq!(left_slots.len(), 1);
    assert_eq!(left_slots[0].id, "visible");
}

#[test]
fn test_status_bar_width_constraints() {
    let slot = StatusSlot::new("test", "Test Content")
        .with_min_width(10)
        .with_max_width(20);

    assert_eq!(slot.min_width, Some(10));
    assert_eq!(slot.max_width, Some(20));
}

#[test]
fn test_status_bar_clone() {
    let mut status_bar = StatusBar::new();

    let slot = StatusSlot::new("test", "Test Content");
    status_bar.set_slot(slot);

    let cloned_bar = status_bar.clone();
    assert_eq!(cloned_bar.slot_count(), 1);
    assert!(cloned_bar.get_slot("test").is_some());
}

#[test]
fn test_status_bar_set_slot_replaces_by_id() {
    let mut status_bar = StatusBar::new();

    status_bar.set_slot(StatusSlot::new("mode", "NORMAL"));
    status_bar.set_slot(StatusSlot::new("mode", "COMMAND"));

    assert_eq!(status_bar.slot_count(), 1);
    assert_eq!(status_bar.get_slot("mode").unwrap().content, "COMMAND");
}
