//! Decides when the timer display refreshes, at most once per second,
//! independently of the beat cadence.
use vstd::prelude::*;

verus! {

/// Remembers when the timer display was last drawn.
#[derive(Debug, Clone, Copy, PartialEq, Eq, Structural)]
pub struct TimerRenderTracker {
    pub last_rerender_timestamp_nanos: u64,
}

impl TimerRenderTracker {
    /// A tracker that counts its first second from `now_nanos`.
    pub fn new(now_nanos: u64) -> (r: Self)
        ensures
            r.last_rerender_timestamp_nanos == now_nanos,
    {
        TimerRenderTracker { last_rerender_timestamp_nanos: now_nanos }
    }

    /// Whether the timer display is due a refresh: only while a timer is set,
    /// and only once a full second has passed since the last one.
    pub fn should_render_timer(&self, timer_is_set: bool, now_nanos: u64) -> (r: bool)
        requires
            now_nanos >= self.last_rerender_timestamp_nanos,
        ensures
            r == (timer_is_set && now_nanos - self.last_rerender_timestamp_nanos
                >= 1_000_000_000),
    {
        if !timer_is_set {
            return false;
        }
        now_nanos - self.last_rerender_timestamp_nanos >= 1_000_000_000
    }

    /// Records that the display was just drawn.
    pub fn just_rendered(&mut self, now_nanos: u64)
        ensures
            *final(self) == (TimerRenderTracker { last_rerender_timestamp_nanos: now_nanos }),
    {
        self.last_rerender_timestamp_nanos = now_nanos;
    }
}

} // verus!
