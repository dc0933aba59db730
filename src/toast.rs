use vstd::prelude::*;
use crate::clock::now_millis;

verus! {

/// How long a notification stays on screen, in milliseconds.
pub const TOAST_LIFETIME_MS: i64 = 5000;

/// The kind of a notification.
#[derive(Clone, Copy, Debug, PartialEq, Eq, Structural)]
pub enum ToastLevel {
    Info,
    Success,
    Warning,
    Error,
}

/// A short-lived notification shown to the operator.
pub struct Toast {
    level: ToastLevel,
    message: String,
    created_at: i64,
    duration: i64,
}

impl Toast {
    pub closed spec fn spec_level(&self) -> ToastLevel {
        self.level
    }

    pub closed spec fn spec_message(&self) -> String {
        self.message
    }

    /// When the notification was created, in milliseconds since the Unix epoch.
    pub closed spec fn created(&self) -> int {
        self.created_at as int
    }

    /// How long it lives, in milliseconds.
    pub closed spec fn lifetime(&self) -> int {
        self.duration as int
    }

    /// Every notification lives the standard time.
    pub open spec fn wf(&self) -> bool {
        self.lifetime() == TOAST_LIFETIME_MS
    }

    /// Whether the notification is still shown at time `now`.
    pub open spec fn alive_at(&self, now: int) -> bool {
        now - self.created() < self.lifetime()
    }

    /// A notification created at `now_ms`, living five seconds.
    pub fn new_at(level: ToastLevel, message: String, now_ms: i64) -> (r: Toast)
        ensures
            r.spec_level() == level,
            r.spec_message() == message,
            r.created() == now_ms,
            r.lifetime() == TOAST_LIFETIME_MS,
            r.wf(),
    {
        Toast { level, message, created_at: now_ms, duration: TOAST_LIFETIME_MS }
    }

    /// A notification created now, living five seconds.
    pub fn new(level: ToastLevel, message: String) -> (r: Toast)
        ensures
            r.spec_level() == level,
            r.spec_message() == message,
            r.created() >= 0,
            r.lifetime() == TOAST_LIFETIME_MS,
            r.wf(),
    {
        let now = now_millis();
        Toast::new_at(level, message, now)
    }

    /// Whether the notification is still shown at time `now_ms`.
    pub fn is_alive_at(&self, now_ms: i64) -> (r: bool)
        ensures
            r == self.alive_at(now_ms as int),
    {
        (now_ms as i128) - (self.created_at as i128) < (self.duration as i128)
    }

    pub fn level(&self) -> (r: ToastLevel)
        ensures
            r == self.spec_level(),
    {
        self.level
    }

    pub fn message(&self) -> (r: &String)
        ensures
            *r == self.spec_message(),
    {
        &self.message
    }

    /// Whether the notification is still shown now.
    pub fn is_alive(&self) -> (r: bool)
        ensures
            exists|now: int| now >= 0 && r == self.alive_at(now),
    {
        let now = now_millis();
        self.is_alive_at(now)
    }
}

} // verus!
