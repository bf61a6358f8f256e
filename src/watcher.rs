//! The two debounce counters that guard auto-close: the bounded one run by
//! a leave event, and the one of the background cursor watcher. They are
//! tuned separately on purpose.
use vstd::prelude::*;

verus! {

/// Cursor checks that a leave event makes before it closes.
pub const LEAVE_CHECKS: u32 = 6;

/// Pause before each check of a leave event, in milliseconds.
pub const LEAVE_CHECK_MS: u64 = 50;

/// Pause before a cursor watcher starts, for the window to appear.
pub const WATCH_SETTLE_MS: u64 = 200;

/// Pause between two polls of a cursor watcher.
pub const WATCH_POLL_MS: u64 = 100;

/// Consecutive polls outside the safe zone after which a watcher closes.
pub const WATCH_CLOSE_AFTER: u32 = 5;

/// Pause after a GUI menu starts, before the pointer nudge.
pub const GUI_SETTLE_MS: u64 = 100;

/// Pause before the pinned border is applied, for the window to appear.
pub const HIGHLIGHT_SETTLE_MS: u64 = 100;

/// Pause after a click before the pointer nudge.
pub const CLICK_SETTLE_MS: u64 = 50;

/// Pause after a quick action before its status is published.
pub const ACTION_SETTLE_MS: u64 = 100;

/// Pause between two steps of the close animation.
pub const CLOSE_STEP_MS: u64 = 30;

/// What a debounce decides after one observation.
#[derive(PartialEq, Eq, Structural, Debug, Clone, Copy)]
pub enum Step {
    /// The cursor is safe: stop without closing.
    Stop,
    /// Keep observing.
    Wait,
    /// Close the menus now, and stop.
    Close,
}

/// The debounce of a leave event: any safe observation ends it without a
/// close; `LEAVE_CHECKS` unsafe ones in a row close.
pub struct LeaveDebounce {
    pub outside: u32,
}

impl LeaveDebounce {
    pub fn new() -> (r: Self)
        ensures
            r.outside == 0,
    {
        LeaveDebounce { outside: 0 }
    }

    /// Records whether the cursor was in the safe zone at the next check.
    pub fn observe(&mut self, safe: bool) -> (r: Step)
        requires
            old(self).outside < LEAVE_CHECKS,
        ensures
            safe ==> r == Step::Stop && final(self).outside == old(self).outside,
            !safe ==> final(self).outside == old(self).outside + 1,
            !safe ==> r == if final(self).outside == LEAVE_CHECKS { Step::Close } else { Step::Wait },
    {
        if safe {
            Step::Stop
        } else {
            self.outside = self.outside + 1;
            if self.outside == LEAVE_CHECKS {
                Step::Close
            } else {
                Step::Wait
            }
        }
    }
}

/// The counter of a cursor watcher bound to one generation: a safe poll
/// resets it, and `WATCH_CLOSE_AFTER` unsafe polls in a row close.
pub struct CursorWatch {
    pub generation: u64,
    pub outside: u32,
}

impl CursorWatch {
    pub fn new(generation: u64) -> (r: Self)
        ensures
            r.generation == generation,
            r.outside == 0,
    {
        CursorWatch { generation, outside: 0 }
    }

    /// Records whether the cursor was in the safe zone at the next poll.
    pub fn observe(&mut self, safe: bool) -> (r: Step)
        requires
            old(self).outside < WATCH_CLOSE_AFTER,
        ensures
            final(self).generation == old(self).generation,
            safe ==> r == Step::Wait && final(self).outside == 0,
            !safe ==> final(self).outside == old(self).outside + 1,
            !safe ==> r == if final(self).outside == WATCH_CLOSE_AFTER { Step::Close } else { Step::Wait },
    {
        if safe {
            self.outside = 0;
            Step::Wait
        } else {
            self.outside = self.outside + 1;
            if self.outside == WATCH_CLOSE_AFTER {
                Step::Close
            } else {
                Step::Wait
            }
        }
    }
}

} // verus!
