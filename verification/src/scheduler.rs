//! Tick scheduling and redraw coordination: the cache that suppresses
//! needless redraws, the per-cycle decision rule, and the full evaluation
//! cycle that turns a fresh clock reading into lamp states for the renderer.

use vstd::prelude::*;

verus! {

use crate::clock::TimeReading;
use crate::clock::read_local_time;
use crate::lamps::{GroupKind, LampColor, group_state, second_state, derive_group_state,
    derive_second_state};

/// Cached-minute sentinel stored before the first cycle; no valid minute
/// equals it, so the first comparison always reports a change.
pub const MINUTE_SENTINEL: u32 = 60;

/// Cached-hour sentinel stored before the first cycle; no valid hour equals
/// it.
pub const HOUR_SENTINEL: u32 = 24;

/// Saturation point of the settle counter: after a minute change (or
/// startup) this many further cycles redraw the minute and hour groups even
/// when their values look unchanged.
pub const SETTLE_LIMIT: u32 = 3;

/// Redraw-suppression state owned by the scheduler: the minute and hour whose
/// lamp groups were last drawn, and the short settle counter.
#[derive(Clone, Copy, Debug, PartialEq, Eq, Structural)]
pub struct RedrawCache {
    pub last_minute: u32,
    pub last_hour: u32,
    pub settle_counter: u32,
}

impl RedrawCache {
    /// The cached fields hold a previously seen value or the sentinel, and
    /// the settle counter never exceeds its saturation point.
    pub open spec fn wf(self) -> bool {
        self.last_minute <= MINUTE_SENTINEL && self.last_hour <= HOUR_SENTINEL
            && self.settle_counter <= SETTLE_LIMIT
    }

    /// A fresh cache: out-of-range sentinels so the first cycle redraws every
    /// group, and the settle counter at zero.
    pub fn new() -> (cache: RedrawCache)
        ensures
            cache.last_minute == MINUTE_SENTINEL,
            cache.last_hour == HOUR_SENTINEL,
            cache.settle_counter == 0,
            cache.wf(),
    {
        RedrawCache { last_minute: MINUTE_SENTINEL, last_hour: HOUR_SENTINEL, settle_counter: 0 }
    }
}

/// The minute groups must be redrawn when the minute differs from the cached
/// one, or while the settle window is still open.
pub open spec fn minute_redraw_due(cache: RedrawCache, t: TimeReading) -> bool {
    cache.last_minute != t.minute || cache.settle_counter < SETTLE_LIMIT
}

/// The hour groups must be redrawn when the hour differs from the cached one,
/// or while the settle window is open — including the reset that a minute
/// change performs earlier in the same cycle.
pub open spec fn hour_redraw_due(cache: RedrawCache, t: TimeReading) -> bool {
    cache.last_hour != t.hour || cache.last_minute != t.minute
        || cache.settle_counter < SETTLE_LIMIT
}

/// The settle counter after a cycle: a minute change resets it and the
/// end-of-cycle increment then leaves it at one; otherwise it climbs by one
/// per cycle until it saturates.
pub open spec fn next_settle_counter(cache: RedrawCache, t: TimeReading) -> u32 {
    if cache.last_minute != t.minute {
        1
    } else if cache.settle_counter < SETTLE_LIMIT {
        (cache.settle_counter + 1) as u32
    } else {
        cache.settle_counter
    }
}

/// Which lamp groups one cycle must redraw.
#[derive(Clone, Copy, Debug, PartialEq, Eq, Structural)]
pub struct CycleDecision {
    pub redraw_minutes: bool,
    pub redraw_hours: bool,
    pub redraw_seconds: bool,
}

/// One scheduling step: compares a reading against the cache, decides which
/// groups to redraw, and advances the cache. The second indicator is redrawn
/// on every cycle; the minute and hour groups only on a change or inside the
/// settle window.
pub fn evaluate_cycle(cache: &mut RedrawCache, t: TimeReading) -> (decision: CycleDecision)
    requires
        old(cache).wf(),
        t.valid(),
    ensures
        final(cache).wf(),
        decision.redraw_minutes == minute_redraw_due(*old(cache), t),
        decision.redraw_hours == hour_redraw_due(*old(cache), t),
        decision.redraw_seconds,
        final(cache).last_minute == t.minute,
        final(cache).last_hour == t.hour,
        final(cache).settle_counter == next_settle_counter(*old(cache), t),
{
    let minute_changed = cache.last_minute != t.minute;
    let redraw_minutes = minute_changed || cache.settle_counter < SETTLE_LIMIT;
    if minute_changed {
        cache.settle_counter = 0;
    }
    let redraw_hours = cache.last_hour != t.hour || cache.settle_counter < SETTLE_LIMIT;
    if redraw_minutes {
        cache.last_minute = t.minute;
    }
    if redraw_hours {
        cache.last_hour = t.hour;
    }
    if cache.settle_counter < SETTLE_LIMIT {
        cache.settle_counter = cache.settle_counter + 1;
    }
    CycleDecision { redraw_minutes, redraw_hours, redraw_seconds: true }
}

/// The ticker's wake rule: a signal is due exactly when the current second's
/// parity differs from the parity last observed.
pub fn wake_signal_due(last_second: u32, second: u32) -> (due: bool)
    ensures
        due == (second % 2 != last_second % 2),
{
    second % 2 != last_second % 2
}

/// Everything one cycle hands to the renderer: the reading it was computed
/// from, the redraw decision, and the lamp colors of every group.
pub struct CycleFrame {
    pub time: TimeReading,
    pub decision: CycleDecision,
    pub hour_fives: Vec<LampColor>,
    pub hour_ones: Vec<LampColor>,
    pub minute_fives: Vec<LampColor>,
    pub minute_ones: Vec<LampColor>,
    pub second_lamp: LampColor,
}

impl CycleFrame {
    /// The frame's lamp states are exactly those the tile-state deriver
    /// assigns to the frame's own reading.
    pub open spec fn consistent(self) -> bool {
        &&& self.time.valid()
        &&& self.hour_fives@ == group_state(GroupKind::HourFives, self.time.hour as int / 5)
        &&& self.hour_ones@ == group_state(GroupKind::HourOnes, self.time.hour as int % 5)
        &&& self.minute_fives@ == group_state(GroupKind::MinuteFives, self.time.minute as int / 5)
        &&& self.minute_ones@ == group_state(GroupKind::MinuteOnes, self.time.minute as int % 5)
        &&& self.second_lamp == second_state(self.time.second as int)
    }
}

/// One full evaluation cycle: reads the local clock, decides which groups to
/// redraw against the cache, and derives every group's lamp colors for the
/// reading. The reading comes from the wall clock, so the contract holds of
/// whatever time came back.
pub fn run_cycle(cache: &mut RedrawCache) -> (frame: CycleFrame)
    requires
        old(cache).wf(),
    ensures
        final(cache).wf(),
        frame.consistent(),
        frame.decision.redraw_minutes == minute_redraw_due(*old(cache), frame.time),
        frame.decision.redraw_hours == hour_redraw_due(*old(cache), frame.time),
        frame.decision.redraw_seconds,
        final(cache).last_minute == frame.time.minute,
        final(cache).last_hour == frame.time.hour,
        final(cache).settle_counter == next_settle_counter(*old(cache), frame.time),
{
    let t = read_local_time();
    let decision = evaluate_cycle(cache, t);
    CycleFrame {
        time: t,
        decision,
        hour_fives: derive_group_state(GroupKind::HourFives, t.hour / 5),
        hour_ones: derive_group_state(GroupKind::HourOnes, t.hour % 5),
        minute_fives: derive_group_state(GroupKind::MinuteFives, t.minute / 5),
        minute_ones: derive_group_state(GroupKind::MinuteOnes, t.minute % 5),
        second_lamp: derive_second_state(t.second),
    }
}

/// Law of the settle counter: a minute change restarts it — it leaves that
/// cycle at one — and within an unchanged minute it climbs by exactly one per
/// cycle until it saturates, never decreasing and never passing the limit.
pub proof fn lemma_settle_counter_progression(cache: RedrawCache, t: TimeReading)
    requires
        cache.wf(),
        t.valid(),
    ensures
        next_settle_counter(cache, t) <= SETTLE_LIMIT,
        cache.last_minute != t.minute ==> next_settle_counter(cache, t) == 1,
        cache.last_minute == t.minute ==> next_settle_counter(cache, t) >= cache.settle_counter,
        cache.last_minute == t.minute && cache.settle_counter < SETTLE_LIMIT
            ==> next_settle_counter(cache, t) == cache.settle_counter + 1,
        cache.last_minute == t.minute && cache.settle_counter == SETTLE_LIMIT
            ==> next_settle_counter(cache, t) == cache.settle_counter,
{
}

/// Law of the startup sentinel: while the cache still holds the minute
/// sentinel, no valid reading can equal it, so a minute redraw is forced
/// whatever the minute's value.
pub proof fn lemma_sentinel_forces_first_redraw(cache: RedrawCache, t: TimeReading)
    requires
        cache.last_minute == MINUTE_SENTINEL,
        t.valid(),
    ensures
        minute_redraw_due(cache, t),
{
}

/// Law of redraw suppression: once the settle counter has saturated and
/// neither the minute nor the hour has changed, the minute and hour groups
/// are not redrawn and the cache keeps its state, so every later cycle of the
/// same minute suppresses them too; the second indicator is still redrawn
/// every cycle.
pub proof fn lemma_saturated_cache_suppresses_redraw(cache: RedrawCache, t: TimeReading)
    requires
        cache.wf(),
        t.valid(),
        cache.settle_counter == SETTLE_LIMIT,
        cache.last_minute == t.minute,
        cache.last_hour == t.hour,
    ensures
        !minute_redraw_due(cache, t),
        !hour_redraw_due(cache, t),
        next_settle_counter(cache, t) == SETTLE_LIMIT,
{
}

} // verus!

