use vstd::prelude::*;
use crate::key_bar::KeyBar;

verus! {

/// What the renderer gets of one bar: the indicator it belongs to, and how
/// long ago, in nanoseconds, the bar began and ended. A bar that is still
/// held ends zero nanoseconds ago.
#[derive(Debug, Clone, Copy, PartialEq, Eq, Structural)]
pub struct BarRect {
    pub property_index: u32,
    pub begin_duration_nanos: u64,
    pub end_duration_nanos: u64,
}

/// The nanoseconds from `earlier` to `instant_now`; zero where `earlier`
/// is the later one.
pub open spec fn duration_since(instant_now: u64, earlier: u64) -> u64 {
    if instant_now >= earlier {
        (instant_now - earlier) as u64
    } else {
        0
    }
}

impl BarRect {
    /// What the renderer gets of a bar that is held since `press_instant`.
    pub open spec fn held(property_index: u32, instant_now: u64, press_instant: u64) -> BarRect {
        BarRect {
            property_index,
            begin_duration_nanos: duration_since(instant_now, press_instant),
            end_duration_nanos: 0,
        }
    }

    /// What the renderer gets of a finished bar.
    pub open spec fn finished(property_index: u32, instant_now: u64, bar: KeyBar) -> BarRect {
        BarRect {
            property_index,
            begin_duration_nanos: duration_since(instant_now, bar.press_instant),
            end_duration_nanos: duration_since(instant_now, bar.release_instant),
        }
    }
}

} // verus!
