//! Pacing decisions for a caller-driven event loop.
//!
//! The shell that owns the window polls events and sleeps; the decisions
//! (how long to wait to hold sixty frames per second, whether to block for
//! the next event, when an extra redraw is owed) are pure functions of this
//! state and the caller's clock, and live here.

use vstd::prelude::*;

verus! {

/// The pacing interval: no faster than one pass per sixteen milliseconds.
pub const FRAME_MS: u64 = 16;

/// The state of the event loop between passes.
pub struct EventLoop {
    /// Whether the interface owes a redraw even without fresh events.
    pub ui_needs_update: bool,
    /// The caller's clock reading, in milliseconds, at the end of the last
    /// pass.
    pub last_update_ms: u64,
}

impl EventLoop {
    /// A fresh loop: an update is owed at once.
    pub fn new(now_ms: u64) -> (r: EventLoop)
        ensures
            r.ui_needs_update,
            r.last_update_ms == now_ms,
    {
        EventLoop { ui_needs_update: true, last_update_ms: now_ms }
    }

    /// Note that the interface requires another update whether or not any
    /// events are pending.
    pub fn needs_update(&mut self)
        ensures
            final(self).ui_needs_update,
            final(self).last_update_ms == old(self).last_update_ms,
    {
        self.ui_needs_update = true;
    }

    /// How many milliseconds the caller should sleep before the next pass,
    /// so that passes are at least `FRAME_MS` apart.
    pub fn wait_ms(&self, now_ms: u64) -> (r: u64)
        ensures
            r == if self.last_update_ms <= now_ms < self.last_update_ms + FRAME_MS {
                (self.last_update_ms + FRAME_MS - now_ms) as u64
            } else {
                0u64
            },
    {
        if self.last_update_ms <= now_ms {
            let elapsed = now_ms - self.last_update_ms;
            if elapsed < FRAME_MS {
                FRAME_MS - elapsed
            } else {
                0
            }
        } else {
            0
        }
    }

    /// Whether the caller should block waiting for the next event: only
    /// when no events are pending and no update is owed.
    pub fn should_block(&self, have_events: bool) -> (r: bool)
        ensures
            r == (!have_events && !self.ui_needs_update),
    {
        !have_events && !self.ui_needs_update
    }

    /// End one pass: the owed update is consumed and the clock is noted.
    pub fn end_pass(&mut self, now_ms: u64)
        ensures
            !final(self).ui_needs_update,
            final(self).last_update_ms == now_ms,
    {
        self.ui_needs_update = false;
        self.last_update_ms = now_ms;
    }
}

} // verus!
