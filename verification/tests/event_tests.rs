//! Tests for the event bus: FIFO delivery, dispatch order of subscribers,
//! and the once-only processing guard.

use editor::events::AppEvent;
use editor::events::BusError;
use editor::events::EventBus;
use editor::events::EventKind;
use editor::events::EventPriority;
use editor::events::PrioritizedEvent;

#[test]
fn test_publish_is_fifo() {
    let mut bus = EventBus::new();

    bus.publish(AppEvent::Quit).unwrap();
    bus.publish(AppEvent::Refresh).unwrap();
    bus.publish(AppEvent::ShowCommandPalette).unwrap();

    assert!(matches!(bus.take_next(), Some(AppEvent::Quit)));
    assert!(matches!(bus.take_next(), Some(AppEvent::Refresh)));
    assert!(matches!(bus.take_next(), Some(AppEvent::ShowCommandPalette)));
    assert!(bus.take_next().is_none());
}

#[test]
fn test_start_processing_only_once() {
    let mut bus = EventBus::new();

    assert!(bus.start_processing().is_ok());
    assert_eq!(bus.start_processing(), Err(BusError::AlreadyStarted));
}

#[test]
fn test_handlers_run_in_registration_order() {
    let mut bus = EventBus::new();

    bus.subscribe(EventKind::Quit, 11);
    bus.subscribe(EventKind::Quit, 12);
    bus.subscribe(EventKind::Refresh, 21);
    bus.subscribe(EventKind::Quit, 13);

    let order = bus.handlers_for(EventKind::Quit);
    assert_eq!(order, vec![11, 12, 13]);
    assert_eq!(bus.handlers_for(EventKind::Refresh), vec![21]);
    assert!(bus.handlers_for(EventKind::StatusMessage).is_empty());
}

#[test]
fn test_sync_handlers_run_before_async_handlers() {
    let mut bus = EventBus::new();

    bus.subscribe_async(EventKind::Quit, 91);
    bus.subscribe(EventKind::Quit, 1);
    bus.subscribe_async(EventKind::Quit, 92);
    bus.subscribe(EventKind::Quit, 2);

    let order = bus.handlers_for(EventKind::Quit);
    assert_eq!(order, vec![1, 2, 91, 92]);
}

#[test]
fn test_dispatch_preserves_publish_order_across_kinds() {
    // Subscribers S1 (on quit) and S2 (on refresh): publishing quit before
    // refresh means S1's invocation comes out of the single consumer loop
    // before S2's.
    let mut bus = EventBus::new();
    bus.subscribe(EventKind::Quit, 1);
    bus.subscribe(EventKind::Refresh, 2);

    bus.publish(AppEvent::Quit).unwrap();
    bus.publish(AppEvent::Refresh).unwrap();

    let mut invocations: Vec<usize> = Vec::new();
    while let Some(event) = bus.take_next() {
        let kind = bus.get_event_type(&event);
        for handler in bus.handlers_for(kind) {
            invocations.push(handler);
        }
    }

    assert_eq!(invocations, vec![1, 2]);
}

#[test]
fn test_event_kinds() {
    let bus = EventBus::new();
    assert_eq!(bus.get_event_type(&AppEvent::Quit), EventKind::Quit);
    assert_eq!(
        bus.get_event_type(&AppEvent::StatusMessage { message: "hi".to_string() }),
        EventKind::StatusMessage
    );
    assert_eq!(
        bus.get_event_type(&AppEvent::BufferCursorMoved { buffer_id: 0, row: 1, col: 2 }),
        EventKind::BufferCursorMoved
    );
}

#[test]
fn test_prioritized_event_carries_priority() {
    let e = PrioritizedEvent::new(AppEvent::Refresh, 42);
    assert_eq!(e.priority, EventPriority::Normal);
    assert_eq!(e.timestamp_ms, 42);

    let e = PrioritizedEvent::with_priority(AppEvent::Quit, EventPriority::Critical, 7);
    assert_eq!(e.priority, EventPriority::Critical);
    assert!(EventPriority::Low < EventPriority::Critical);
    assert_eq!(EventPriority::default(), EventPriority::Normal);
}
