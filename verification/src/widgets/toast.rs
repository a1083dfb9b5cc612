//! Toast notifications: short-lived messages with a type, a creation time
//! and a duration, kept by a manager that holds at most five at a time and
//! drops the oldest first. Time is plain milliseconds supplied by callers.

use vstd::prelude::*;

verus! {

/// The default lifetime of a toast, in milliseconds.
pub const DEFAULT_TOAST_DURATION_MS: u64 = 3000;

/// How many toasts the manager keeps at most.
pub const MAX_TOASTS: usize = 5;

/// The flavor of a toast notification.
#[derive(Debug, Clone, Copy, PartialEq, Eq, Structural)]
pub enum ToastType {
    Info,
    Success,
    Warning,
    Error,
}

impl ToastType {
    /// The one-character icon shown beside the message.
    pub fn icon(&self) -> (r: &'static str)
        ensures
            *self is Info ==> r@ == "i"@,
            *self is Success ==> r@ == "+"@,
            *self is Warning ==> r@ == "!"@,
            *self is Error ==> r@ == "x"@,
    {
        match self {
            ToastType::Info => "i",
            ToastType::Success => "+",
            ToastType::Warning => "!",
            ToastType::Error => "x",
        }
    }
}

/// One notification.
#[derive(Debug)]
pub struct Toast {
    pub message: String,
    pub toast_type: ToastType,
    pub created_at_ms: u64,
    pub duration_ms: u64,
}

impl Clone for Toast {
    fn clone(&self) -> (r: Toast)
        ensures
            r == *self,
    {
        Toast {
            message: self.message.clone(),
            toast_type: self.toast_type,
            created_at_ms: self.created_at_ms,
            duration_ms: self.duration_ms,
        }
    }
}

/// `a - b`, stopping at zero.
pub open spec fn sat_sub(a: u64, b: u64) -> u64 {
    if a >= b {
        (a - b) as u64
    } else {
        0
    }
}

/// A toast has outlived its duration at the given time.
pub open spec fn spec_toast_expired(t: Toast, now_ms: u64) -> bool {
    sat_sub(now_ms, t.created_at_ms) > t.duration_ms
}

/// The predicate `update` keeps toasts by: not yet expired.
pub open spec fn keep_alive(now_ms: u64) -> spec_fn(Toast) -> bool {
    |t: Toast| !spec_toast_expired(t, now_ms)
}

impl Toast {
    /// A toast created now, with the default three-second duration.
    pub fn new(message: String, toast_type: ToastType, now_ms: u64) -> (r: Toast)
        ensures
            r.message == message,
            r.toast_type == toast_type,
            r.created_at_ms == now_ms,
            r.duration_ms == DEFAULT_TOAST_DURATION_MS,
    {
        Toast { message, toast_type, created_at_ms: now_ms, duration_ms: DEFAULT_TOAST_DURATION_MS }
    }

    /// The same toast with another duration.
    pub fn with_duration(self, duration_ms: u64) -> (r: Toast)
        ensures
            r.message == self.message,
            r.toast_type == self.toast_type,
            r.created_at_ms == self.created_at_ms,
            r.duration_ms == duration_ms,
    {
        Toast { duration_ms, ..self }
    }

    /// Whether the toast has outlived its duration.
    pub fn is_expired(&self, now_ms: u64) -> (r: bool)
        ensures
            r == spec_toast_expired(*self, now_ms),
    {
        let elapsed = if now_ms >= self.created_at_ms {
            now_ms - self.created_at_ms
        } else {
            0
        };
        elapsed > self.duration_ms
    }

    /// How much lifetime is left.
    pub fn remaining_time(&self, now_ms: u64) -> (r: u64)
        ensures
            r == sat_sub(self.duration_ms, sat_sub(now_ms, self.created_at_ms)),
    {
        let elapsed = if now_ms >= self.created_at_ms {
            now_ms - self.created_at_ms
        } else {
            0
        };
        if self.duration_ms >= elapsed {
            self.duration_ms - elapsed
        } else {
            0
        }
    }
}

/// Holds the live toasts, oldest first.
#[derive(Debug)]
pub struct ToastManager {
    pub toasts: Vec<Toast>,
    pub max_toasts: usize,
}

impl ToastManager {
    /// An empty manager keeping at most five toasts.
    pub fn new() -> (r: ToastManager)
        ensures
            r.toasts@ == Seq::<Toast>::empty(),
            r.max_toasts == MAX_TOASTS,
    {
        ToastManager { toasts: Vec::new(), max_toasts: MAX_TOASTS }
    }

    /// Append a toast; if the maximum is exceeded, the oldest toasts are
    /// dropped from the front until it is met again.
    pub fn add_toast(&mut self, toast: Toast)
        ensures
            final(self).max_toasts == old(self).max_toasts,
            ({
                let appended = old(self).toasts@.push(toast);
                let over = if appended.len() > old(self).max_toasts {
                    appended.len() - old(self).max_toasts
                } else {
                    0int
                };
                final(self).toasts@ == appended.skip(over)
            }),
    {
        self.toasts.push(toast);
        let ghost appended = self.toasts@;
        let ghost dropped: int = 0;
        while self.toasts.len() > self.max_toasts
            invariant
                self.max_toasts == old(self).max_toasts,
                0 <= dropped <= appended.len(),
                self.toasts@ == appended.skip(dropped),
                self.toasts@.len() < appended.len() ==> dropped > 0 && appended.len()
                    - dropped >= self.max_toasts,
            decreases self.toasts@.len(),
        {
            self.toasts.remove(0);
            proof {
                assert(self.toasts@ =~= appended.skip(dropped + 1));
                dropped = dropped + 1;
            }
        }
        proof {
            let over = if appended.len() > old(self).max_toasts {
                appended.len() - old(self).max_toasts
            } else {
                0int
            };
            assert(self.toasts@ =~= appended.skip(over));
        }
    }

    /// Add an informational toast with the default duration.
    pub fn add_info(&mut self, message: String, now_ms: u64)
        ensures
            final(self).max_toasts == old(self).max_toasts,
            ({
                let appended = old(self).toasts@.push(
                    Toast {
                        message,
                        toast_type: ToastType::Info,
                        created_at_ms: now_ms,
                        duration_ms: DEFAULT_TOAST_DURATION_MS,
                    },
                );
                let over = if appended.len() > old(self).max_toasts {
                    appended.len() - old(self).max_toasts
                } else {
                    0int
                };
                final(self).toasts@ == appended.skip(over)
            }),
    {
        let t = Toast::new(message, ToastType::Info, now_ms);
        self.add_toast(t);
    }

    /// Add a success toast with the default duration.
    pub fn add_success(&mut self, message: String, now_ms: u64)
        ensures
            final(self).max_toasts == old(self).max_toasts,
            ({
                let appended = old(self).toasts@.push(
                    Toast {
                        message,
                        toast_type: ToastType::Success,
                        created_at_ms: now_ms,
                        duration_ms: DEFAULT_TOAST_DURATION_MS,
                    },
                );
                let over = if appended.len() > old(self).max_toasts {
                    appended.len() - old(self).max_toasts
                } else {
                    0int
                };
                final(self).toasts@ == appended.skip(over)
            }),
    {
        let t = Toast::new(message, ToastType::Success, now_ms);
        self.add_toast(t);
    }

    /// Add a warning toast with the default duration.
    pub fn add_warning(&mut self, message: String, now_ms: u64)
        ensures
            final(self).max_toasts == old(self).max_toasts,
            ({
                let appended = old(self).toasts@.push(
                    Toast {
                        message,
                        toast_type: ToastType::Warning,
                        created_at_ms: now_ms,
                        duration_ms: DEFAULT_TOAST_DURATION_MS,
                    },
                );
                let over = if appended.len() > old(self).max_toasts {
                    appended.len() - old(self).max_toasts
                } else {
                    0int
                };
                final(self).toasts@ == appended.skip(over)
            }),
    {
        let t = Toast::new(message, ToastType::Warning, now_ms);
        self.add_toast(t);
    }

    /// Add an error toast with the default duration.
    pub fn add_error(&mut self, message: String, now_ms: u64)
        ensures
            final(self).max_toasts == old(self).max_toasts,
            ({
                let appended = old(self).toasts@.push(
                    Toast {
                        message,
                        toast_type: ToastType::Error,
                        created_at_ms: now_ms,
                        duration_ms: DEFAULT_TOAST_DURATION_MS,
                    },
                );
                let over = if appended.len() > old(self).max_toasts {
                    appended.len() - old(self).max_toasts
                } else {
                    0int
                };
                final(self).toasts@ == appended.skip(over)
            }),
    {
        let t = Toast::new(message, ToastType::Error, now_ms);
        self.add_toast(t);
    }

    /// Drop every toast that has expired by now; live toasts keep their
    /// order.
    pub fn update(&mut self, now_ms: u64)
        ensures
            final(self).max_toasts == old(self).max_toasts,
            final(self).toasts@ == old(self).toasts@.filter(keep_alive(now_ms)),
    {
        let mut kept: Vec<Toast> = Vec::new();
        let mut i: usize = 0;
        proof {
            reveal_with_fuel(Seq::filter, 2);
            assert(self.toasts@.take(0) =~= Seq::<Toast>::empty());
            assert(Seq::<Toast>::empty().filter(keep_alive(now_ms)) == Seq::<Toast>::empty());
        }
        while i < self.toasts.len()
            invariant
                i <= self.toasts@.len(),
                kept@ == self.toasts@.take(i as int).filter(keep_alive(now_ms)),
            decreases self.toasts@.len() - i,
        {
            let t = self.toasts[i].clone();
            proof {
                reveal_with_fuel(Seq::filter, 2);
                assert(self.toasts@.take(i as int + 1).drop_last() =~= self.toasts@.take(i as int));
                assert(self.toasts@.take(i as int + 1).last() == self.toasts@[i as int]);
            }
            if !t.is_expired(now_ms) {
                kept.push(t);
            }
            proof {
                reveal_with_fuel(Seq::filter, 2);
                assert(kept@ == self.toasts@.take(i as int + 1).filter(keep_alive(now_ms)));
            }
            i += 1;
        }
        proof {
            assert(self.toasts@.take(self.toasts@.len() as int) =~= self.toasts@);
        }
        self.toasts = kept;
    }

    /// Whether any toast is being shown.
    pub fn has_active_toasts(&self) -> (r: bool)
        ensures
            r == (self.toasts@.len() > 0),
    {
        self.toasts.len() > 0
    }
}

impl Default for ToastManager {
    /// Same as an empty manager.
    fn default() -> (r: ToastManager)
        ensures
            r.toasts@ == Seq::<Toast>::empty(),
            r.max_toasts == MAX_TOASTS,
    {
        ToastManager::new()
    }
}

/// Renders a manager's toasts; drawing itself happens outside the core.
pub struct ToastWidget<'a> {
    pub manager: &'a ToastManager,
}

impl<'a> ToastWidget<'a> {
    /// A widget over a manager.
    pub fn new(manager: &'a ToastManager) -> (r: ToastWidget<'a>)
        ensures
            r.manager == manager,
    {
        ToastWidget { manager }
    }
}

} // verus!
