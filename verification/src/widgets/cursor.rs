//! Per-context cursor state and the manager that keeps at most one context
//! active and visible at a time.
//!
//! Each context (editor pane, command palette, the search boxes) owns one
//! cursor. Timestamps are plain milliseconds supplied by the caller, so the
//! solid-while-typing, blinking-while-idle rule is a pure function of the
//! clock value handed in at render time.

use vstd::prelude::*;

verus! {

/// The fixed set of surfaces that may own a cursor.
#[derive(Clone, Copy, Debug, PartialEq, Eq, Structural)]
pub enum CursorContext {
    Editor,
    CommandPalette,
    FileSearch,
    TextSearch,
}

/// A cell position on screen.
#[derive(Clone, Copy, Debug, PartialEq, Eq, Structural)]
pub struct ScreenPosition {
    pub x: u16,
    pub y: u16,
}

impl ScreenPosition {
    /// A position from its coordinates.
    pub fn new(x: u16, y: u16) -> (p: ScreenPosition)
        ensures
            p.x == x,
            p.y == y,
    {
        ScreenPosition { x, y }
    }
}

/// How long a cursor stays solid after activity before it starts to blink,
/// in milliseconds.
pub const ACTIVITY_TIMEOUT_MS: u64 = 1000;

/// The blink half-period once a cursor is idle, in milliseconds.
pub const BLINK_INTERVAL_MS: u64 = 500;

/// One context's cursor: position, visibility, and the idle/blink clock.
#[derive(Clone, Copy, Debug, PartialEq, Eq, Structural)]
pub struct CursorState {
    pub position: ScreenPosition,
    pub visible: bool,
    pub last_blink: u64,
    pub blink_on: bool,
    pub last_activity: u64,
    pub activity_timeout: u64,
}

impl Default for CursorState {
    /// Hidden, blink phase on, clocks at zero, one second activity window.
    fn default() -> (r: CursorState)
        ensures
            r == spec_default_cursor_state(),
    {
        CursorState {
            position: ScreenPosition { x: 0, y: 0 },
            visible: false,
            last_blink: 0,
            blink_on: true,
            last_activity: 0,
            activity_timeout: ACTIVITY_TIMEOUT_MS,
        }
    }
}

/// The state a fresh cursor starts in.
pub open spec fn spec_default_cursor_state() -> CursorState {
    CursorState {
        position: ScreenPosition { x: 0, y: 0 },
        visible: false,
        last_blink: 0,
        blink_on: true,
        last_activity: 0,
        activity_timeout: ACTIVITY_TIMEOUT_MS,
    }
}

/// `a - b`, stopping at zero.
pub open spec fn sat_sub(a: u64, b: u64) -> u64 {
    if a >= b {
        (a - b) as u64
    } else {
        0
    }
}

impl CursorState {
    /// Whether the cursor should be drawn now, advancing the blink clock.
    /// Within the activity window after the last activity the cursor is
    /// always drawn; afterwards it toggles every blink interval.
    pub fn render_visible(&mut self, now_ms: u64) -> (r: bool)
        ensures
            sat_sub(now_ms, old(self).last_activity) < old(self).activity_timeout ==> r && *final(self) == *old(self),
            sat_sub(now_ms, old(self).last_activity) >= old(self).activity_timeout ==> {
                &&& sat_sub(now_ms, old(self).last_blink) > BLINK_INTERVAL_MS ==> {
                    &&& final(self).blink_on == !old(self).blink_on
                    &&& final(self).last_blink == now_ms
                    &&& r == final(self).blink_on
                }
                &&& sat_sub(now_ms, old(self).last_blink) <= BLINK_INTERVAL_MS ==> *final(self)
                    == *old(self) && r == old(self).blink_on
            },
    {
        let since_activity = if now_ms >= self.last_activity {
            now_ms - self.last_activity
        } else {
            0
        };
        if since_activity < self.activity_timeout {
            true
        } else {
            let since_blink = if now_ms >= self.last_blink {
                now_ms - self.last_blink
            } else {
                0
            };
            if since_blink > BLINK_INTERVAL_MS {
                self.blink_on = !self.blink_on;
                self.last_blink = now_ms;
            }
            self.blink_on
        }
    }
}

/// A cursor widget: where to draw, whether it takes part in rendering, and
/// which context it belongs to.
#[derive(Debug, Clone)]
pub struct Cursor {
    pub position: ScreenPosition,
    pub active: bool,
    pub id: CursorContext,
}

impl Cursor {
    /// An active cursor for a context, at the origin.
    pub fn new(id: CursorContext) -> (r: Cursor)
        ensures
            r.position == (ScreenPosition { x: 0, y: 0 }),
            r.active,
            r.id == id,
    {
        Cursor { position: ScreenPosition { x: 0, y: 0 }, active: true, id }
    }

    /// The same cursor at a given position.
    pub fn with_position(self, x: u16, y: u16) -> (r: Cursor)
        ensures
            r.position == (ScreenPosition { x, y }),
            r.active == self.active,
            r.id == self.id,
    {
        Cursor { position: ScreenPosition { x, y }, ..self }
    }

    /// The same cursor with its activity flag set.
    pub fn active(self, active: bool) -> (r: Cursor)
        ensures
            r.position == self.position,
            r.active == active,
            r.id == self.id,
    {
        Cursor { active, ..self }
    }
}

/// The cursors of all contexts and the single active context, if any.
#[derive(Debug, Clone)]
pub struct CursorManager {
    pub editor: CursorState,
    pub command_palette: CursorState,
    pub file_search: CursorState,
    pub text_search: CursorState,
    pub active_context: Option<CursorContext>,
}

impl CursorManager {
    /// The state owned by a context.
    pub open spec fn state_of(self, context: CursorContext) -> CursorState {
        match context {
            CursorContext::Editor => self.editor,
            CursorContext::CommandPalette => self.command_palette,
            CursorContext::FileSearch => self.file_search,
            CursorContext::TextSearch => self.text_search,
        }
    }

    /// How many contexts report a visible cursor.
    pub open spec fn visible_count(self) -> int {
        (if self.editor.visible {
            1int
        } else {
            0int
        }) + (if self.command_palette.visible {
            1int
        } else {
            0int
        }) + (if self.file_search.visible {
            1int
        } else {
            0int
        }) + (if self.text_search.visible {
            1int
        } else {
            0int
        })
    }

    /// Exactly one context reports a visible cursor.
    pub open spec fn exactly_one_visible(self) -> bool {
        self.visible_count() == 1
    }

    /// All cursors hidden, none active.
    pub fn new() -> (r: CursorManager)
        ensures
            r.active_context is None,
            forall|c: CursorContext| r.state_of(c) == spec_default_cursor_state(),
    {
        CursorManager {
            editor: CursorState::default(),
            command_palette: CursorState::default(),
            file_search: CursorState::default(),
            text_search: CursorState::default(),
            active_context: None,
        }
    }

    /// Make one context the active one: its cursor becomes visible and the
    /// cursor of every other context is hidden, so that exactly one
    /// context reports a visible cursor afterwards, whatever the history
    /// of earlier activations.
    pub fn set_active_context(&mut self, context: CursorContext)
        ensures
            final(self).active_context == Some(context),
            final(self).state_of(context) == (CursorState {
                visible: true,
                ..old(self).state_of(context)
            }),
            forall|c: CursorContext| c != context ==> final(self).state_of(c) == (CursorState {
                visible: false,
                ..old(self).state_of(c)
            }),
            final(self).exactly_one_visible(),
    {
        self.editor.visible = false;
        self.command_palette.visible = false;
        self.file_search.visible = false;
        self.text_search.visible = false;
        self.active_context = Some(context);
        match context {
            CursorContext::Editor => {
                self.editor.visible = true;
            },
            CursorContext::CommandPalette => {
                self.command_palette.visible = true;
            },
            CursorContext::FileSearch => {
                self.file_search.visible = true;
            },
            CursorContext::TextSearch => {
                self.text_search.visible = true;
            },
        }
    }

    /// The currently active context, if any.
    pub fn get_active_context(&self) -> (r: Option<CursorContext>)
        ensures
            r == self.active_context,
    {
        self.active_context
    }

    /// Move a context's cursor. Only the active context may be updated; a
    /// real position change counts as activity and forces the blink phase
    /// on.
    pub fn update_cursor_position(&mut self, context: CursorContext, x: u16, y: u16, now_ms: u64)
        ensures
            old(self).active_context != Some(context) ==> *final(self) == *old(self),
            old(self).active_context == Some(context) ==> {
                &&& final(self).active_context == old(self).active_context
                &&& forall|c: CursorContext| c != context ==> final(self).state_of(c) == old(self).state_of(c)
                &&& final(self).state_of(context).position == (ScreenPosition { x, y })
                &&& final(self).state_of(context).visible
                &&& old(self).state_of(context).position != (ScreenPosition { x, y }) ==> final(self).state_of(context).last_activity == now_ms && final(self).state_of(
                    context,
                ).blink_on
                &&& old(self).state_of(context).position == (ScreenPosition { x, y }) ==> final(self).state_of(context).last_activity == old(self).state_of(context).last_activity
                    && final(self).state_of(context).blink_on == old(self).state_of(
                    context,
                ).blink_on
                &&& final(self).state_of(context).last_blink == old(self).state_of(
                    context,
                ).last_blink
                &&& final(self).state_of(context).activity_timeout == old(self).state_of(
                    context,
                ).activity_timeout
            },
    {
        let is_active = match self.active_context {
            Some(c) => c == context,
            None => false,
        };
        if is_active {
            let state = self.get_or_create_cursor(context);
            let position_changed = state.position.x != x || state.position.y != y;
            state.position = ScreenPosition { x, y };
            state.visible = true;
            if position_changed {
                state.last_activity = now_ms;
                state.blink_on = true;
            }
        }
    }

    /// A mutable borrow of a context's cursor state; every context's state
    /// exists from the start.
    pub fn get_or_create_cursor(&mut self, context: CursorContext) -> (r: &mut CursorState)
        ensures
            *r == old(self).state_of(context),
            final(self).active_context == old(self).active_context,
            final(self).state_of(context) == *final(r),
            forall|c: CursorContext| c != context ==> final(self).state_of(c) == old(self).state_of(c),
    {
        match context {
            CursorContext::Editor => &mut self.editor,
            CursorContext::CommandPalette => &mut self.command_palette,
            CursorContext::FileSearch => &mut self.file_search,
            CursorContext::TextSearch => &mut self.text_search,
        }
    }

    /// Hide a context's cursor; if that context was active, no context is
    /// active afterwards.
    pub fn hide_cursor(&mut self, context: CursorContext)
        ensures
            final(self).state_of(context) == (CursorState {
                visible: false,
                ..old(self).state_of(context)
            }),
            forall|c: CursorContext| c != context ==> final(self).state_of(c) == old(self).state_of(c),
            old(self).active_context == Some(context) ==> final(self).active_context is None,
            old(self).active_context != Some(context) ==> final(self).active_context == old(self).active_context,
    {
        let state = self.get_or_create_cursor(context);
        state.visible = false;
        let was_active = match self.active_context {
            Some(c) => c == context,
            None => false,
        };
        if was_active {
            self.active_context = None;
        }
    }

    /// Show a context's cursor, but only if it is the active context.
    pub fn show_cursor(&mut self, context: CursorContext)
        ensures
            old(self).active_context != Some(context) ==> *final(self) == *old(self),
            old(self).active_context == Some(context) ==> {
                &&& final(self).state_of(context) == (CursorState {
                    visible: true,
                    ..old(self).state_of(context)
                })
                &&& forall|c: CursorContext| c != context ==> final(self).state_of(c) == old(self).state_of(c)
                &&& final(self).active_context == old(self).active_context
            },
    {
        let is_active = match self.active_context {
            Some(c) => c == context,
            None => false,
        };
        if is_active {
            let state = self.get_or_create_cursor(context);
            state.visible = true;
        }
    }

    /// Where a context's cursor stands, if that context is active and its
    /// cursor visible.
    pub fn get_cursor_position(&self, context: CursorContext) -> (r: Option<ScreenPosition>)
        ensures
            (self.state_of(context).visible && self.active_context == Some(context)) ==> r
                == Some(self.state_of(context).position),
            !(self.state_of(context).visible && self.active_context == Some(context)) ==> r
                is None,
    {
        let is_active = match self.active_context {
            Some(c) => c == context,
            None => false,
        };
        let state = match context {
            CursorContext::Editor => &self.editor,
            CursorContext::CommandPalette => &self.command_palette,
            CursorContext::FileSearch => &self.file_search,
            CursorContext::TextSearch => &self.text_search,
        };
        if state.visible && is_active {
            Some(state.position)
        } else {
            None
        }
    }

    /// A mutable borrow of the active context's state, or nothing when the
    /// context asked for is not active.
    pub fn get_cursor_state_mut(&mut self, context: CursorContext) -> (r: Option<
        &mut CursorState,
    >)
        ensures
            old(self).active_context != Some(context) ==> r is None && *final(self) == *old(self),
            old(self).active_context == Some(context) ==> {
                &&& r matches Some(state) && *state == old(self).state_of(context) && final(self).state_of(context) == *final(state)
                &&& final(self).active_context == old(self).active_context
                &&& forall|c: CursorContext| c != context ==> final(self).state_of(c) == old(self).state_of(c)
            },
    {
        let is_active = match self.active_context {
            Some(c) => c == context,
            None => false,
        };
        if is_active {
            Some(self.get_or_create_cursor(context))
        } else {
            None
        }
    }

    /// Record activity for a context: the activity clock restarts and the
    /// blink phase is forced on.
    pub fn notify_activity(&mut self, context: CursorContext, now_ms: u64)
        ensures
            final(self).state_of(context) == (CursorState {
                last_activity: now_ms,
                blink_on: true,
                ..old(self).state_of(context)
            }),
            forall|c: CursorContext| c != context ==> final(self).state_of(c) == old(self).state_of(c),
            final(self).active_context == old(self).active_context,
    {
        let state = self.get_or_create_cursor(context);
        state.last_activity = now_ms;
        state.blink_on = true;
    }

    /// Record activity for the active context, if any.
    pub fn notify_activity_for_active(&mut self, now_ms: u64)
        ensures
            old(self).active_context is None ==> *final(self) == *old(self),
            old(self).active_context matches Some(ctx) ==> {
                &&& final(self).state_of(ctx) == (CursorState {
                    last_activity: now_ms,
                    blink_on: true,
                    ..old(self).state_of(ctx)
                })
                &&& forall|c: CursorContext| c != ctx ==> final(self).state_of(c) == old(self).state_of(c)
                &&& final(self).active_context == old(self).active_context
            },
    {
        match self.active_context {
            Some(context) => self.notify_activity(context, now_ms),
            None => (),
        }
    }

    /// Reset every cursor and clear the active context.
    pub fn clear_all(&mut self)
        ensures
            final(self).active_context is None,
            forall|c: CursorContext| final(self).state_of(c) == spec_default_cursor_state(),
    {
        self.editor = CursorState::default();
        self.command_palette = CursorState::default();
        self.file_search = CursorState::default();
        self.text_search = CursorState::default();
        self.active_context = None;
    }
}

impl Default for CursorManager {
    /// Same as a fresh manager.
    fn default() -> (r: CursorManager)
        ensures
            r.active_context is None,
            forall|c: CursorContext| r.state_of(c) == spec_default_cursor_state(),
    {
        CursorManager::new()
    }
}

} // verus!
