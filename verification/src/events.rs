//! The typed event bus: a closed set of application events, an unbounded
//! FIFO queue, and subscriber tables keyed by event kind.
//!
//! Handlers are registered as numeric identifiers; the surrounding binary
//! owns the actual callables and asks the bus, for each dequeued event, in
//! which order to run them. Dispatch is strict publish order; for one event
//! all synchronous subscribers run before the asynchronous ones, each group
//! in registration order.

use vstd::prelude::*;

verus! {

/// A key press as the editor core sees it.
#[derive(Clone, Copy, Debug, PartialEq, Eq, Structural)]
pub enum KeyCode {
    Char(char),
    Enter,
    Backspace,
    Delete,
    Esc,
    Up,
    Down,
    Left,
    Right,
    Home,
    End,
    PageUp,
    PageDown,
    Tab,
    Other,
}

/// A key press together with its modifier flags.
#[derive(Clone, Copy, Debug, PartialEq, Eq, Structural)]
pub struct KeyInput {
    pub code: KeyCode,
    pub ctrl: bool,
    pub alt: bool,
    pub shift: bool,
}

/// What a mouse event reports.
#[derive(Clone, Copy, Debug, PartialEq, Eq, Structural)]
pub enum MouseKind {
    LeftDown,
    LeftDrag,
    LeftUp,
    RightDown,
    MiddleDown,
    ScrollUp,
    ScrollDown,
    Other,
}

/// A mouse event at a screen cell.
#[derive(Clone, Copy, Debug, PartialEq, Eq, Structural)]
pub struct MouseInput {
    pub kind: MouseKind,
    pub column: u16,
    pub row: u16,
}

/// All events the application routes over the bus.
#[derive(Debug)]
pub enum AppEvent {
    KeyInput(KeyInput),
    MouseInput(MouseInput),
    BufferChanged { buffer_id: usize, content: String },
    BufferCursorMoved { buffer_id: usize, row: usize, col: usize },
    BufferSelectionChanged {
        buffer_id: usize,
        start: Option<(usize, usize)>,
        end: Option<(usize, usize)>,
    },
    ModeChanged { new_mode: String },
    StatusMessage { message: String },
    ToastMessage { message: String, toast_type: String },
    ShowCommandPalette,
    HideCommandPalette,
    CursorShow { context: String },
    CursorHide { context: String },
    CursorMove { context: String, row: usize, col: usize },
    Quit,
    Refresh,
}

/// The discriminant tag of an event, used for subscriber routing.
#[derive(Clone, Copy, Debug, PartialEq, Eq, Hash, Structural)]
pub enum EventKind {
    KeyInput,
    MouseInput,
    BufferChanged,
    BufferCursorMoved,
    BufferSelectionChanged,
    ModeChanged,
    StatusMessage,
    ToastMessage,
    ShowCommandPalette,
    HideCommandPalette,
    CursorShow,
    CursorHide,
    CursorMove,
    Quit,
    Refresh,
}

/// The kind of an event.
pub open spec fn spec_event_kind(e: AppEvent) -> EventKind {
    match e {
        AppEvent::KeyInput(..) => EventKind::KeyInput,
        AppEvent::MouseInput(..) => EventKind::MouseInput,
        AppEvent::BufferChanged { .. } => EventKind::BufferChanged,
        AppEvent::BufferCursorMoved { .. } => EventKind::BufferCursorMoved,
        AppEvent::BufferSelectionChanged { .. } => EventKind::BufferSelectionChanged,
        AppEvent::ModeChanged { .. } => EventKind::ModeChanged,
        AppEvent::StatusMessage { .. } => EventKind::StatusMessage,
        AppEvent::ToastMessage { .. } => EventKind::ToastMessage,
        AppEvent::ShowCommandPalette => EventKind::ShowCommandPalette,
        AppEvent::HideCommandPalette => EventKind::HideCommandPalette,
        AppEvent::CursorShow { .. } => EventKind::CursorShow,
        AppEvent::CursorHide { .. } => EventKind::CursorHide,
        AppEvent::CursorMove { .. } => EventKind::CursorMove,
        AppEvent::Quit => EventKind::Quit,
        AppEvent::Refresh => EventKind::Refresh,
    }
}

/// Priority levels carried on enriched events. Dispatch never consults
/// them: delivery is strictly first in, first out.
#[derive(Clone, Copy, Debug, PartialEq, Eq, PartialOrd, Ord, Default, Structural)]
pub enum EventPriority {
    Low,
    #[default]
    Normal,
    High,
    Critical,
}

/// An event enriched with a priority level and a creation timestamp in
/// milliseconds. The priority is carried but not consulted by dispatch.
#[derive(Debug)]
pub struct PrioritizedEvent {
    pub event: AppEvent,
    pub priority: EventPriority,
    pub timestamp_ms: u64,
}

impl PrioritizedEvent {
    /// Wrap an event at normal priority.
    pub fn new(event: AppEvent, now_ms: u64) -> (r: PrioritizedEvent)
        ensures
            r.event == event,
            r.priority == EventPriority::Normal,
            r.timestamp_ms == now_ms,
    {
        PrioritizedEvent { event, priority: EventPriority::Normal, timestamp_ms: now_ms }
    }

    /// Wrap an event at a chosen priority.
    pub fn with_priority(event: AppEvent, priority: EventPriority, now_ms: u64) -> (r:
        PrioritizedEvent)
        ensures
            r.event == event,
            r.priority == priority,
            r.timestamp_ms == now_ms,
    {
        PrioritizedEvent { event, priority, timestamp_ms: now_ms }
    }
}

/// The event is a status message with this text.
pub open spec fn is_status_message(e: AppEvent, msg: Seq<char>) -> bool {
    e matches AppEvent::StatusMessage { message } && message@ == msg
}

/// The event is a toast with this text and type tag.
pub open spec fn is_toast_message(e: AppEvent, msg: Seq<char>, ty: Seq<char>) -> bool {
    e matches AppEvent::ToastMessage { message, toast_type } && message@ == msg && toast_type@
        == ty
}

/// The event is a mode change to this mode name.
pub open spec fn is_mode_changed(e: AppEvent, mode: Seq<char>) -> bool {
    e matches AppEvent::ModeChanged { new_mode } && new_mode@ == mode
}

/// The event shows the cursor of this context.
pub open spec fn is_cursor_show(e: AppEvent, ctx: Seq<char>) -> bool {
    e matches AppEvent::CursorShow { context } && context@ == ctx
}

/// The event hides the cursor of this context.
pub open spec fn is_cursor_hide(e: AppEvent, ctx: Seq<char>) -> bool {
    e matches AppEvent::CursorHide { context } && context@ == ctx
}

/// The event reports this buffer content.
pub open spec fn is_buffer_changed(e: AppEvent, id: int, content: Seq<char>) -> bool {
    e matches AppEvent::BufferChanged { buffer_id, content: c } && buffer_id == id && c@ == content
}

/// The event reports this cursor position.
pub open spec fn is_buffer_cursor_moved(e: AppEvent, id: int, row: int, col: int) -> bool {
    e matches AppEvent::BufferCursorMoved { buffer_id, row: r, col: c } && buffer_id == id
        && r == row && c == col
}

/// The four events that open the command palette: switch the mode, show
/// the modal, hide the editor cursor and show the palette cursor.
pub open spec fn palette_opened_events(es: Seq<AppEvent>) -> bool {
    &&& es.len() == 4
    &&& is_mode_changed(es[0], "command"@)
    &&& es[1] is ShowCommandPalette
    &&& is_cursor_hide(es[2], "editor"@)
    &&& is_cursor_show(es[3], "command_palette"@)
}

/// The four events that close the command palette again.
pub open spec fn palette_closed_events(es: Seq<AppEvent>) -> bool {
    &&& es.len() == 4
    &&& es[0] is HideCommandPalette
    &&& is_mode_changed(es[1], "normal"@)
    &&& is_cursor_hide(es[2], "command_palette"@)
    &&& is_cursor_show(es[3], "editor"@)
}

/// One registered subscriber: an event kind, the caller's handler
/// identifier, and whether the handler is synchronous.
#[derive(Clone, Copy, Debug, PartialEq, Eq, Structural)]
pub struct Subscription {
    pub kind: EventKind,
    pub handler: usize,
    pub synchronous: bool,
}

/// The bus can fail only by being started a second time.
#[derive(Clone, Copy, Debug, PartialEq, Eq, Structural)]
pub enum BusError {
    AlreadyStarted,
}

/// The handlers of one kind and synchrony, in registration order.
pub open spec fn filtered_handlers(
    subs: Seq<Subscription>,
    kind: EventKind,
    synchronous: bool,
) -> Seq<usize>
    decreases subs.len(),
{
    if subs.len() == 0 {
        Seq::empty()
    } else {
        let rest = filtered_handlers(subs.drop_first(), kind, synchronous);
        if subs[0].kind == kind && subs[0].synchronous == synchronous {
            seq![subs[0].handler] + rest
        } else {
            rest
        }
    }
}

/// The order in which one event's handlers run: all synchronous
/// subscribers of its kind first, then all asynchronous ones, each group
/// in registration order.
pub open spec fn dispatch_order(subs: Seq<Subscription>, kind: EventKind) -> Seq<usize> {
    filtered_handlers(subs, kind, true) + filtered_handlers(subs, kind, false)
}

/// The handler invocations one event gives rise to.
pub open spec fn event_block(subs: Seq<Subscription>, e: AppEvent) -> Seq<(AppEvent, usize)> {
    dispatch_order(subs, spec_event_kind(e)).map_values(|h: usize| (e, h))
}

/// The full invocation trace of a queue of events, in publish order.
pub open spec fn dispatch_trace(subs: Seq<Subscription>, events: Seq<AppEvent>) -> Seq<
    (AppEvent, usize),
>
    decreases events.len(),
{
    if events.len() == 0 {
        Seq::empty()
    } else {
        event_block(subs, events[0]) + dispatch_trace(subs, events.drop_first())
    }
}

/// Registering one more event appends its block to the trace.
pub proof fn lemma_trace_push(subs: Seq<Subscription>, events: Seq<AppEvent>, e: AppEvent)
    ensures
        dispatch_trace(subs, events.push(e)) == dispatch_trace(subs, events) + event_block(
            subs,
            e,
        ),
    decreases events.len(),
{
    if events.len() == 0 {
        assert(events.push(e).drop_first() =~= Seq::<AppEvent>::empty());
        assert(events.push(e)[0] == e);
        assert(dispatch_trace(subs, Seq::<AppEvent>::empty()) == Seq::<(AppEvent, usize)>::empty());
        assert(dispatch_trace(subs, events) == Seq::<(AppEvent, usize)>::empty());
        assert(dispatch_trace(subs, events.push(e)) == event_block(subs, e) + dispatch_trace(
            subs,
            events.push(e).drop_first(),
        ));
        assert(dispatch_trace(subs, events.push(e)) =~= dispatch_trace(subs, events)
            + event_block(subs, e));
    } else {
        lemma_trace_push(subs, events.drop_first(), e);
        assert(events.push(e).drop_first() =~= events.drop_first().push(e));
        assert(events.push(e)[0] == events[0]);
        assert(dispatch_trace(subs, events.push(e)) =~= dispatch_trace(subs, events)
            + event_block(subs, e));
    }
}

/// Where the invocations of the event at position `k` start in the trace.
pub open spec fn trace_start(subs: Seq<Subscription>, events: Seq<AppEvent>, k: int) -> int {
    dispatch_trace(subs, events.take(k)).len() as int
}

/// One more queue position advances the start by exactly one block.
pub proof fn lemma_trace_start_step(subs: Seq<Subscription>, events: Seq<AppEvent>, k: int)
    requires
        0 <= k < events.len(),
    ensures
        trace_start(subs, events, k + 1) == trace_start(subs, events, k) + event_block(
            subs,
            events[k],
        ).len(),
{
    assert(events.take(k + 1) =~= events.take(k).push(events[k]));
    lemma_trace_push(subs, events.take(k), events[k]);
}

/// The trace splits at any queue position.
pub proof fn lemma_trace_split(subs: Seq<Subscription>, events: Seq<AppEvent>, k: int)
    requires
        0 <= k <= events.len(),
    ensures
        dispatch_trace(subs, events) == dispatch_trace(subs, events.take(k)) + dispatch_trace(
            subs,
            events.skip(k),
        ),
    decreases k,
{
    if k == 0 {
        assert(events.take(0) =~= Seq::<AppEvent>::empty());
        assert(events.skip(0) =~= events);
        assert(dispatch_trace(subs, events) =~= dispatch_trace(subs, events.take(0))
            + dispatch_trace(subs, events.skip(0)));
    } else {
        lemma_trace_split(subs, events.drop_first(), k - 1);
        assert(events.take(k).drop_first() =~= events.drop_first().take(k - 1));
        assert(events.skip(k) =~= events.drop_first().skip(k - 1));
        assert(events.take(k)[0] == events[0]);
        assert(events.take(k).len() == k);
        assert(dispatch_trace(subs, events) == event_block(subs, events[0]) + dispatch_trace(
            subs,
            events.drop_first(),
        ));
        assert(dispatch_trace(subs, events.take(k)) == event_block(subs, events[0])
            + dispatch_trace(subs, events.take(k).drop_first()));
        assert(dispatch_trace(subs, events) =~= dispatch_trace(subs, events.take(k))
            + dispatch_trace(subs, events.skip(k)));
    }
}

/// Ordered dispatch: in the invocation trace of one consumer loop, every
/// handler run for an earlier event strictly precedes every handler run
/// for a later one. The trace slice starting at an event's start position
/// is exactly that event's block, and blocks of earlier events end no
/// later than where blocks of later events begin.
pub proof fn lemma_dispatch_fifo(subs: Seq<Subscription>, events: Seq<AppEvent>, i: int, j: int)
    requires
        0 <= i < j < events.len(),
    ensures
        ({
            let t = dispatch_trace(subs, events);
            let lo_i = trace_start(subs, events, i);
            let lo_j = trace_start(subs, events, j);
            &&& 0 <= lo_i
            &&& lo_i + event_block(subs, events[i]).len() <= lo_j
            &&& lo_j + event_block(subs, events[j]).len() <= t.len()
            &&& t.subrange(lo_i, lo_i + event_block(subs, events[i]).len() as int) == event_block(
                subs,
                events[i],
            )
            &&& t.subrange(lo_j, lo_j + event_block(subs, events[j]).len() as int) == event_block(
                subs,
                events[j],
            )
        }),
    decreases j - i,
{
    lemma_block_at(subs, events, i);
    lemma_block_at(subs, events, j);
    lemma_start_monotonic(subs, events, i + 1, j);
    lemma_trace_start_step(subs, events, i);
}

/// Start positions never decrease along the queue.
pub proof fn lemma_start_monotonic(subs: Seq<Subscription>, events: Seq<AppEvent>, i: int, j: int)
    requires
        0 <= i <= j <= events.len(),
    ensures
        trace_start(subs, events, i) <= trace_start(subs, events, j),
    decreases j - i,
{
    if i < j {
        lemma_start_monotonic(subs, events, i + 1, j);
        lemma_trace_start_step(subs, events, i);
    }
}

/// The trace slice at an event's start position is exactly its block.
pub proof fn lemma_block_at(subs: Seq<Subscription>, events: Seq<AppEvent>, k: int)
    requires
        0 <= k < events.len(),
    ensures
        trace_start(subs, events, k) + event_block(subs, events[k]).len() <= dispatch_trace(
            subs,
            events,
        ).len(),
        dispatch_trace(subs, events).subrange(
            trace_start(subs, events, k),
            trace_start(subs, events, k) + event_block(subs, events[k]).len() as int,
        ) == event_block(subs, events[k]),
{
    lemma_trace_split(subs, events, k);
    lemma_trace_split(subs, events, k + 1);
    lemma_trace_start_step(subs, events, k);
    assert(events.take(k + 1) =~= events.take(k).push(events[k]));
    lemma_trace_push(subs, events.take(k), events[k]);
    let t = dispatch_trace(subs, events);
    let lo = trace_start(subs, events, k);
    let blk = event_block(subs, events[k]);
    assert(t == dispatch_trace(subs, events.take(k + 1)) + dispatch_trace(
        subs,
        events.skip(k + 1),
    ));
    assert(dispatch_trace(subs, events.take(k + 1)) == dispatch_trace(subs, events.take(k)) + blk);
    assert(t.subrange(lo, lo + blk.len() as int) =~= blk);
}

/// The publish/subscribe bus: a FIFO queue of pending events, the
/// registered subscriptions in registration order, and whether the single
/// consumer loop has been started.
pub struct EventBus {
    pub queue: Vec<AppEvent>,
    pub subscriptions: Vec<Subscription>,
    pub started: bool,
}

impl EventBus {
    /// A bus with no subscribers, an empty queue and no consumer yet.
    pub fn new() -> (r: EventBus)
        ensures
            r.queue@ == Seq::<AppEvent>::empty(),
            r.subscriptions@ == Seq::<Subscription>::empty(),
            !r.started,
    {
        EventBus { queue: Vec::new(), subscriptions: Vec::new(), started: false }
    }

    /// Register a synchronous handler for an event kind; handlers of one
    /// kind run in registration order.
    pub fn subscribe(&mut self, kind: EventKind, handler: usize)
        ensures
            final(self).subscriptions@ == old(self).subscriptions@.push(
                Subscription { kind, handler, synchronous: true },
            ),
            final(self).queue@ == old(self).queue@,
            final(self).started == old(self).started,
    {
        self.subscriptions.push(Subscription { kind, handler, synchronous: true });
    }

    /// Register an asynchronous handler for an event kind; for each event
    /// these run after all synchronous handlers of that kind.
    pub fn subscribe_async(&mut self, kind: EventKind, handler: usize)
        ensures
            final(self).subscriptions@ == old(self).subscriptions@.push(
                Subscription { kind, handler, synchronous: false },
            ),
            final(self).queue@ == old(self).queue@,
            final(self).started == old(self).started,
    {
        self.subscriptions.push(Subscription { kind, handler, synchronous: false });
    }

    /// Enqueue an event. Publishing appends to the unbounded queue, never
    /// blocks and never fails.
    pub fn publish(&mut self, event: AppEvent) -> (r: Result<(), BusError>)
        ensures
            r is Ok,
            final(self).queue@ == old(self).queue@.push(event),
            final(self).subscriptions@ == old(self).subscriptions@,
            final(self).started == old(self).started,
    {
        self.queue.push(event);
        Ok(())
    }

    /// Mark the single consumer loop as started. A second call fails with
    /// an already-started error and changes nothing.
    pub fn start_processing(&mut self) -> (r: Result<(), BusError>)
        ensures
            old(self).started ==> r == Result::<(), BusError>::Err(BusError::AlreadyStarted)
                && *final(self) == *old(self),
            !old(self).started ==> r is Ok && final(self).started && final(self).queue@ == old(
                self,
            ).queue@ && final(self).subscriptions@ == old(self).subscriptions@,
    {
        if self.started {
            Err(BusError::AlreadyStarted)
        } else {
            self.started = true;
            Ok(())
        }
    }

    /// The routing tag of an event.
    pub fn get_event_type(&self, event: &AppEvent) -> (k: EventKind)
        ensures
            k == spec_event_kind(*event),
    {
        match event {
            AppEvent::KeyInput(..) => EventKind::KeyInput,
            AppEvent::MouseInput(..) => EventKind::MouseInput,
            AppEvent::BufferChanged { .. } => EventKind::BufferChanged,
            AppEvent::BufferCursorMoved { .. } => EventKind::BufferCursorMoved,
            AppEvent::BufferSelectionChanged { .. } => EventKind::BufferSelectionChanged,
            AppEvent::ModeChanged { .. } => EventKind::ModeChanged,
            AppEvent::StatusMessage { .. } => EventKind::StatusMessage,
            AppEvent::ToastMessage { .. } => EventKind::ToastMessage,
            AppEvent::ShowCommandPalette => EventKind::ShowCommandPalette,
            AppEvent::HideCommandPalette => EventKind::HideCommandPalette,
            AppEvent::CursorShow { .. } => EventKind::CursorShow,
            AppEvent::CursorHide { .. } => EventKind::CursorHide,
            AppEvent::CursorMove { .. } => EventKind::CursorMove,
            AppEvent::Quit => EventKind::Quit,
            AppEvent::Refresh => EventKind::Refresh,
        }
    }

    /// The handler identifiers to run for one event of the given kind, in
    /// dispatch order: synchronous subscribers first, then asynchronous
    /// ones, each group in registration order.
    pub fn handlers_for(&self, kind: EventKind) -> (r: Vec<usize>)
        ensures
            r@ == dispatch_order(self.subscriptions@, kind),
    {
        let mut out: Vec<usize> = Vec::new();
        let mut i: usize = 0;
        while i < self.subscriptions.len()
            invariant
                i <= self.subscriptions@.len(),
                out@ == filtered_handlers(self.subscriptions@.take(i as int), kind, true),
            decreases self.subscriptions@.len() - i,
        {
            proof {
                lemma_filtered_push(self.subscriptions@.take(i as int), self.subscriptions@[
                    i as int], kind, true);
                assert(self.subscriptions@.take(i as int).push(self.subscriptions@[i as int])
                    =~= self.subscriptions@.take(i as int + 1));
            }
            let sub = self.subscriptions[i];
            if sub.kind == kind && sub.synchronous {
                out.push(sub.handler);
            }
            i += 1;
        }
        proof {
            assert(self.subscriptions@.take(self.subscriptions@.len() as int)
                =~= self.subscriptions@);
            assert(filtered_handlers(self.subscriptions@.take(0), kind, false) == Seq::<
                usize,
            >::empty());
            assert(out@ =~= filtered_handlers(self.subscriptions@, kind, true)
                + filtered_handlers(self.subscriptions@.take(0), kind, false));
        }
        let mut i: usize = 0;
        while i < self.subscriptions.len()
            invariant
                i <= self.subscriptions@.len(),
                out@ == filtered_handlers(self.subscriptions@, kind, true) + filtered_handlers(
                    self.subscriptions@.take(i as int),
                    kind,
                    false,
                ),
            decreases self.subscriptions@.len() - i,
        {
            proof {
                lemma_filtered_push(self.subscriptions@.take(i as int), self.subscriptions@[
                    i as int], kind, false);
                assert(self.subscriptions@.take(i as int).push(self.subscriptions@[i as int])
                    =~= self.subscriptions@.take(i as int + 1));
            }
            let sub = self.subscriptions[i];
            if sub.kind == kind && !sub.synchronous {
                out.push(sub.handler);
                proof {
                    assert(out@ =~= filtered_handlers(self.subscriptions@, kind, true)
                        + filtered_handlers(
                        self.subscriptions@.take(i as int + 1),
                        kind,
                        false,
                    ));
                }
            }
            i += 1;
        }
        proof {
            assert(self.subscriptions@.take(self.subscriptions@.len() as int)
                =~= self.subscriptions@);
        }
        out
    }

    /// Dequeue the oldest pending event, if any: single consumer, strict
    /// FIFO.
    pub fn take_next(&mut self) -> (r: Option<AppEvent>)
        ensures
            old(self).queue@.len() == 0 ==> r is None && *final(self) == *old(self),
            old(self).queue@.len() > 0 ==> r == Some(old(self).queue@[0]) && final(self).queue@
                == old(self).queue@.drop_first(),
            final(self).subscriptions@ == old(self).subscriptions@,
            final(self).started == old(self).started,
    {
        if self.queue.len() == 0 {
            None
        } else {
            let e = self.queue.remove(0);
            proof {
                assert(self.queue@ =~= old(self).queue@.drop_first());
            }
            Some(e)
        }
    }
}

impl Default for EventBus {
    /// Same as an empty new bus.
    fn default() -> (r: EventBus)
        ensures
            r.queue@ == Seq::<AppEvent>::empty(),
            r.subscriptions@ == Seq::<Subscription>::empty(),
            !r.started,
    {
        EventBus::new()
    }
}

/// Filtering one more subscription appends its handler exactly when kind
/// and synchrony match.
pub proof fn lemma_filtered_push(
    subs: Seq<Subscription>,
    s: Subscription,
    kind: EventKind,
    synchronous: bool,
)
    ensures
        filtered_handlers(subs.push(s), kind, synchronous) == if s.kind == kind && s.synchronous
            == synchronous {
            filtered_handlers(subs, kind, synchronous).push(s.handler)
        } else {
            filtered_handlers(subs, kind, synchronous)
        },
    decreases subs.len(),
{
    if subs.len() == 0 {
        assert(subs.push(s).drop_first() =~= Seq::<Subscription>::empty());
        assert(subs.push(s)[0] == s);
        assert(filtered_handlers(Seq::<Subscription>::empty(), kind, synchronous) == Seq::<
            usize,
        >::empty());
        assert(filtered_handlers(subs, kind, synchronous) == Seq::<usize>::empty());
        if s.kind == kind && s.synchronous == synchronous {
            assert(filtered_handlers(subs.push(s), kind, synchronous) =~= filtered_handlers(
                subs,
                kind,
                synchronous,
            ).push(s.handler));
        } else {
            assert(filtered_handlers(subs.push(s), kind, synchronous) =~= filtered_handlers(
                subs,
                kind,
                synchronous,
            ));
        }
    } else {
        lemma_filtered_push(subs.drop_first(), s, kind, synchronous);
        assert(subs.push(s).drop_first() =~= subs.drop_first().push(s));
        assert(subs.push(s)[0] == subs[0]);
        if s.kind == kind && s.synchronous == synchronous {
            assert(filtered_handlers(subs.push(s), kind, synchronous) =~= filtered_handlers(
                subs,
                kind,
                synchronous,
            ).push(s.handler));
        } else {
            assert(filtered_handlers(subs.push(s), kind, synchronous) =~= filtered_handlers(
                subs,
                kind,
                synchronous,
            ));
        }
    }
}

} // verus!
