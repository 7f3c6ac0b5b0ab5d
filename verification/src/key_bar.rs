use vstd::prelude::*;
use crate::bar_rect::duration_since;

verus! {

pub const NANOS_PER_SEC: u64 = 1_000_000_000;

/// One finished press/release pair of an indicator. Both instants are in
/// nanoseconds since the caller's epoch.
#[derive(Debug, Clone, Copy, PartialEq, Eq, Structural)]
pub struct KeyBar {
    pub press_instant: u64,
    pub release_instant: u64,
}

/// The whole length units that something has travelled after `duration`
/// nanoseconds at `bar_speed` units per second; `u64::MAX` where they are
/// more than that.
pub open spec fn travelled(duration: u64, bar_speed: u32) -> u64 {
    if duration * bar_speed / (NANOS_PER_SEC as int) > u64::MAX {
        u64::MAX
    } else {
        (duration * bar_speed / (NANOS_PER_SEC as int)) as u64
    }
}

impl KeyBar {
    pub fn new(press_instant: u64, release_instant: u64) -> (bar: Self)
        ensures
            bar.press_instant == press_instant,
            bar.release_instant == release_instant,
    {
        Self { press_instant, release_instant }
    }

    /// time * speed = distance
    pub fn compute_pos(duration: u64, bar_speed: u32) -> (pos: u64)
        ensures
            pos == travelled(duration, bar_speed),
    {
        assert(0 <= duration * bar_speed <= 0xFFFF_FFFF_FFFF_FFFF * 0xFFFF_FFFF) by (nonlinear_arith)
            requires
                0 <= duration <= 0xFFFF_FFFF_FFFF_FFFF,
                0 <= bar_speed <= 0xFFFF_FFFF,
        ;
        let units: u128 = (duration as u128) * (bar_speed as u128) / (NANOS_PER_SEC as u128);
        if units > u64::MAX as u128 {
            u64::MAX
        } else {
            units as u64
        }
    }

    /// How far the bar's head is from its indicator at `instant_now`.
    pub open spec fn spec_head_pos(self, instant_now: u64, bar_speed: u32) -> u64 {
        travelled(duration_since(instant_now, self.press_instant), bar_speed)
    }

    /// How far the bar's tail is from its indicator at `instant_now`.
    pub open spec fn spec_tail_pos(self, instant_now: u64, bar_speed: u32) -> u64 {
        travelled(duration_since(instant_now, self.release_instant), bar_speed)
    }

    /// head corresponds to `press_instant`
    pub fn get_head_pos(&self, instant_now: u64, bar_speed: u32) -> (pos: u64)
        ensures
            pos == self.spec_head_pos(instant_now, bar_speed),
    {
        Self::compute_pos(instant_now.saturating_sub(self.press_instant), bar_speed)
    }

    /// tail corresponds to `release_instant`
    pub fn get_tail_pos(&self, instant_now: u64, bar_speed: u32) -> (pos: u64)
        ensures
            pos == self.spec_tail_pos(instant_now, bar_speed),
    {
        Self::compute_pos(instant_now.saturating_sub(self.release_instant), bar_speed)
    }

    /// bar_speed: unit: length units per second
    ///
    /// returns (head, tail)
    ///
    /// head corresponds to `press_instant`, tail corresponds to `release_instant`
    pub fn into_range(&self, instant_now: u64, bar_speed: u32) -> (range: (u64, u64))
        ensures
            range.0 == self.spec_head_pos(instant_now, bar_speed),
            range.1 == self.spec_tail_pos(instant_now, bar_speed),
    {
        (self.get_head_pos(instant_now, bar_speed), self.get_tail_pos(instant_now, bar_speed))
    }
}

/// What has travelled longer has travelled at least as far.
pub proof fn lemma_travelled_monotonic(shorter: u64, longer: u64, bar_speed: u32)
    requires
        shorter <= longer,
    ensures
        travelled(shorter, bar_speed) <= travelled(longer, bar_speed),
{
    let a = shorter * bar_speed;
    let b = longer * bar_speed;
    assert(0 <= a <= b) by (nonlinear_arith)
        requires
            0 <= shorter <= longer,
            0 <= bar_speed,
            a == shorter * bar_speed,
            b == longer * bar_speed,
    ;
    assert(a / (NANOS_PER_SEC as int) <= b / (NANOS_PER_SEC as int));
}

/// The head of a bar that ended no earlier than it began is at least as
/// far out as its tail.
pub proof fn lemma_head_beyond_tail(bar: KeyBar, instant_now: u64, bar_speed: u32)
    requires
        bar.press_instant <= bar.release_instant,
    ensures
        bar.spec_tail_pos(instant_now, bar_speed) <= bar.spec_head_pos(instant_now, bar_speed),
{
    lemma_travelled_monotonic(
        duration_since(instant_now, bar.release_instant),
        duration_since(instant_now, bar.press_instant),
        bar_speed,
    );
}

} // verus!
