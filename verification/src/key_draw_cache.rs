use vstd::prelude::*;
use std::collections::VecDeque;
use crate::bar_rect::duration_since;
use crate::key_bar::{KeyBar, NANOS_PER_SEC};
use crate::key_message::KeyMessage;
use crate::key_property::{KeyDirection, KeyProperty};
use crate::setting::WindowSetting;

verus! {

/// How far a bar of the indicator travels before it is out of sight: the
/// indicator's own limit where it has one, else the way from the indicator
/// to the window's edge on the side to which its bars travel, and zero where
/// the indicator lies beyond that edge.
pub open spec fn travel_distance(window_setting: WindowSetting, key_property: KeyProperty) -> int {
    match key_property.max_distance {
        Some(max_distance) => max_distance as int,
        None => {
            let to_edge = match key_property.key_direction {
                KeyDirection::Up => key_property.position.y as int,
                KeyDirection::Down => window_setting.height - key_property.position.y
                    - key_property.height,
                KeyDirection::Left => key_property.position.x as int,
                KeyDirection::Right => window_setting.width - key_property.position.x
                    - key_property.width,
            };
            if to_edge > 0 {
                to_edge
            } else {
                0
            }
        },
    }
}

/// The whole nanoseconds that a bar needs for `distance` at `bar_speed`
/// length units per second.
pub open spec fn travel_time(distance: int, bar_speed: int) -> int {
    distance * NANOS_PER_SEC / bar_speed
}

/// Whether a bar that ended at `release_instant` has been out of sight
/// before `instant_now`: it left more than `max_bar_duration` ago.
pub open spec fn is_outer(bar: KeyBar, instant_now: u64, max_bar_duration: u64) -> bool {
    bar.release_instant + max_bar_duration < instant_now
}

/// The bars that stay when those that are out of sight are taken from the
/// front, one by one, up to the first that is still in sight.
pub open spec fn without_outer_bars(
    bars: Seq<KeyBar>,
    instant_now: u64,
    max_bar_duration: u64,
) -> Seq<KeyBar>
    decreases bars.len(),
{
    if bars.len() > 0 && is_outer(bars.first(), instant_now, max_bar_duration) {
        without_outer_bars(bars.drop_first(), instant_now, max_bar_duration)
    } else {
        bars
    }
}

/// Whether each bar ended no later than the bars behind it.
pub open spec fn in_release_order(bars: Seq<KeyBar>) -> bool {
    forall|i: int, j: int|
        0 <= i <= j < bars.len() ==> (#[trigger] bars[i]).release_instant <= (
        #[trigger] bars[j]).release_instant
}

/// Taking the outer bars from the front takes a run from the front and
/// nothing else: what stays is the rest of the queue, every bar before it
/// is out of sight, and the bar at its front, if there is one, is in sight.
pub proof fn lemma_without_outer_bars(bars: Seq<KeyBar>, instant_now: u64, max_bar_duration: u64)
    ensures
        ({
            let rest = without_outer_bars(bars, instant_now, max_bar_duration);
            let taken = bars.len() - rest.len();
            &&& rest.len() <= bars.len()
            &&& rest == bars.skip(taken)
            &&& forall|i: int|
                0 <= i < taken ==> is_outer(#[trigger] bars[i], instant_now, max_bar_duration)
            &&& rest.len() > 0 ==> !is_outer(rest.first(), instant_now, max_bar_duration)
        }),
    decreases bars.len(),
{
    if bars.len() > 0 && is_outer(bars.first(), instant_now, max_bar_duration) {
        let tail = bars.drop_first();
        lemma_without_outer_bars(tail, instant_now, max_bar_duration);
        let rest = without_outer_bars(bars, instant_now, max_bar_duration);
        let taken = bars.len() - rest.len();
        assert forall|i: int| 0 <= i < taken implies is_outer(
            #[trigger] bars[i],
            instant_now,
            max_bar_duration,
        ) by {
            if i > 0 {
                assert(bars[i] == tail[i - 1]);
            }
        }
    }
}

/// Taking the outer bars a second time at the same instant takes nothing.
pub proof fn lemma_without_outer_bars_idempotent(
    bars: Seq<KeyBar>,
    instant_now: u64,
    max_bar_duration: u64,
)
    ensures
        without_outer_bars(
            without_outer_bars(bars, instant_now, max_bar_duration),
            instant_now,
            max_bar_duration,
        ) == without_outer_bars(bars, instant_now, max_bar_duration),
{
    lemma_without_outer_bars(bars, instant_now, max_bar_duration);
}

/// In a queue in release order no bar that stays is out of sight, and what
/// stays is in release order too.
pub proof fn lemma_without_outer_bars_in_order(
    bars: Seq<KeyBar>,
    instant_now: u64,
    max_bar_duration: u64,
)
    requires
        in_release_order(bars),
    ensures
        in_release_order(without_outer_bars(bars, instant_now, max_bar_duration)),
        forall|i: int|
            0 <= i < without_outer_bars(bars, instant_now, max_bar_duration).len() ==> !is_outer(
                #[trigger] without_outer_bars(bars, instant_now, max_bar_duration)[i],
                instant_now,
                max_bar_duration,
            ),
{
    lemma_without_outer_bars(bars, instant_now, max_bar_duration);
}

/// The state of one indicator as a value: what `KeyDrawCache` holds, with
/// its queue as a sequence, the oldest bar first.
pub struct KeyDrawCacheView {
    pub max_bar_duration: u64,
    pub count: u32,
    pub bar_queue: Seq<KeyBar>,
    pub begin_hold_instant: Option<u64>,
}

impl KeyDrawCacheView {
    /// The state with one more press counted; the count starts over after
    /// `u32::MAX`.
    pub open spec fn counted(self) -> KeyDrawCacheView {
        KeyDrawCacheView {
            count: if self.count == u32::MAX {
                0u32
            } else {
                (self.count + 1) as u32
            },
            ..self
        }
    }

    /// The state after the key went down at `instant`, on an indicator that
    /// counts or does not.
    pub open spec fn pressed(self, key_counter: bool, instant: u64) -> KeyDrawCacheView {
        let state = if key_counter {
            self.counted()
        } else {
            self
        };
        KeyDrawCacheView { begin_hold_instant: Some(instant), ..state }
    }

    /// The state with `bar` behind the bars of the queue.
    pub open spec fn with_bar(self, bar: KeyBar) -> KeyDrawCacheView {
        KeyDrawCacheView { bar_queue: self.bar_queue.push(bar), ..self }
    }

    /// The state after the key came up at `instant`: the hold has become a
    /// bar. An indicator that was not held stays as it is.
    pub open spec fn released(self, instant: u64) -> KeyDrawCacheView {
        match self.begin_hold_instant {
            Some(press_instant) => KeyDrawCacheView { begin_hold_instant: None, ..self }.with_bar(
                KeyBar { press_instant, release_instant: instant },
            ),
            None => self,
        }
    }

    /// The state after `message` changed what the key does: pressed where
    /// the message says that the key went down, released where it says
    /// that the key came up.
    pub open spec fn changed(self, key_counter: bool, message: KeyMessage) -> KeyDrawCacheView {
        if message.is_pressed {
            self.pressed(key_counter, message.instant)
        } else {
            self.released(message.instant)
        }
    }

    /// The state without the bars that are out of sight at `instant_now`.
    pub open spec fn without_outer_bars(self, instant_now: u64) -> KeyDrawCacheView {
        KeyDrawCacheView {
            bar_queue: without_outer_bars(self.bar_queue, instant_now, self.max_bar_duration),
            ..self
        }
    }

    /// Whether there is anything to draw: a hold or a bar.
    pub open spec fn need_repaint(self) -> bool {
        self.bar_queue.len() > 0 || self.begin_hold_instant.is_some()
    }

    /// The state of an indicator that was never pressed.
    pub open spec fn initial(
        window_setting: WindowSetting,
        bar_speed: u32,
        key_property: KeyProperty,
    ) -> KeyDrawCacheView {
        KeyDrawCacheView {
            max_bar_duration: travel_time(
                travel_distance(window_setting, key_property),
                bar_speed as int,
            ) as u64,
            count: 0,
            bar_queue: Seq::empty(),
            begin_hold_instant: None,
        }
    }
}

/// The time that a bar stays in sight fits the field that holds it.
pub proof fn lemma_travel_time_bounds(
    window_setting: WindowSetting,
    bar_speed: u32,
    key_property: KeyProperty,
)
    requires
        bar_speed > 0,
    ensures
        0 <= travel_distance(window_setting, key_property) <= 3 * 0x8000_0000,
        0 <= travel_time(travel_distance(window_setting, key_property), bar_speed as int)
            <= travel_distance(window_setting, key_property) * NANOS_PER_SEC <= u64::MAX,
{
    let distance = travel_distance(window_setting, key_property);
    let nanos = distance * NANOS_PER_SEC;
    assert(0 <= nanos / (bar_speed as int) <= nanos) by (nonlinear_arith)
        requires
            nanos >= 0,
            bar_speed > 0,
    ;
}

/// Bars are dropped when they have left, and not before: the tail of a bar
/// that is out of sight has travelled the whole distance, and the tail of a
/// bar that is not has travelled no further than the distance. Here the
/// time that a bar stays in sight is the travel time over `distance`.
pub proof fn lemma_outer_bar_has_left(
    bar: KeyBar,
    instant_now: u64,
    distance: int,
    bar_speed: u32,
)
    requires
        bar_speed > 0,
        0 <= distance,
        travel_time(distance, bar_speed as int) <= u64::MAX,
    ensures
        is_outer(bar, instant_now, travel_time(distance, bar_speed as int) as u64)
            ==> bar.spec_tail_pos(instant_now, bar_speed) >= distance || bar.spec_tail_pos(
            instant_now,
            bar_speed,
        ) == u64::MAX,
        !is_outer(bar, instant_now, travel_time(distance, bar_speed as int) as u64)
            ==> bar.spec_tail_pos(instant_now, bar_speed) <= distance,
{
    let speed = bar_speed as int;
    let nanos = NANOS_PER_SEC as int;
    let time = travel_time(distance, speed);
    let age = duration_since(instant_now, bar.release_instant) as int;
    assert(time >= 0 && time * speed <= distance * nanos < (time + 1) * speed) by (nonlinear_arith)
        requires
            speed > 0,
            distance >= 0,
            nanos > 0,
            time == (distance * nanos) / speed,
    ;
    if is_outer(bar, instant_now, time as u64) {
        assert(age >= time + 1);
        assert(age * speed >= distance * nanos) by (nonlinear_arith)
            requires
                age >= time + 1,
                speed > 0,
                distance * nanos < (time + 1) * speed,
        ;
        assert((age * speed) / nanos >= distance) by (nonlinear_arith)
            requires
                age * speed >= distance * nanos,
                nanos > 0,
        ;
    } else {
        assert(age <= time);
        assert(age * speed <= distance * nanos) by (nonlinear_arith)
            requires
                0 <= age <= time,
                speed > 0,
                time * speed <= distance * nanos,
        ;
        assert((age * speed) / nanos <= distance) by (nonlinear_arith)
            requires
                age * speed <= distance * nanos,
                nanos > 0,
        ;
    }
}

/// The moving state of one indicator: whether it is held and since when,
/// the finished bars that are still in sight, how long a bar stays in
/// sight, and how often the key was pressed.
#[derive(Debug)]
pub struct KeyDrawCache {
    /// Nanoseconds after which a finished bar is out of sight.
    pub max_bar_duration: u64,
    pub count: u32,
    pub bar_queue: VecDeque<KeyBar>,
    pub begin_hold_instant: Option<u64>,
}

impl View for KeyDrawCache {
    type V = KeyDrawCacheView;

    open spec fn view(&self) -> KeyDrawCacheView {
        KeyDrawCacheView {
            max_bar_duration: self.max_bar_duration,
            count: self.count,
            bar_queue: self.bar_queue@,
            begin_hold_instant: self.begin_hold_instant,
        }
    }
}

impl KeyDrawCache {
    pub fn new(window_setting: &WindowSetting, bar_speed: u32, key_property: &KeyProperty) -> (cache:
        Self)
        requires
            bar_speed > 0,
        ensures
            cache@ == KeyDrawCacheView::initial(*window_setting, bar_speed, *key_property),
    {
        let max_distance: u64 = match key_property.max_distance {
            Some(max_distance) => max_distance as u64,
            None => {
                let to_edge: i64 = match key_property.key_direction {
                    KeyDirection::Up => key_property.position.y as i64,
                    KeyDirection::Down => window_setting.height as i64
                        - key_property.position.y as i64 - key_property.height as i64,
                    KeyDirection::Left => key_property.position.x as i64,
                    KeyDirection::Right => window_setting.width as i64
                        - key_property.position.x as i64 - key_property.width as i64,
                };
                if to_edge > 0 {
                    to_edge as u64
                } else {
                    0
                }
            },
        };
        proof {
            lemma_travel_time_bounds(*window_setting, bar_speed, *key_property);
        }
        let max_bar_duration = max_distance * NANOS_PER_SEC / (bar_speed as u64);
        Self {
            max_bar_duration,
            count: 0,
            bar_queue: VecDeque::with_capacity(64),
            begin_hold_instant: None,
        }
    }

    pub fn increase_count(&mut self)
        ensures
            final(self)@ == old(self)@.counted(),
    {
        self.count = self.count.wrapping_add(1);
    }

    pub fn need_repaint(&self) -> (need: bool)
        ensures
            need == self@.need_repaint(),
    {
        self.bar_queue.len() > 0 || self.begin_hold_instant.is_some()
    }

    pub fn add_bar(&mut self, bar: KeyBar)
        ensures
            final(self)@ == old(self)@.with_bar(bar),
    {
        self.bar_queue.push_back(bar);
    }

    /// The key went down at `instant`: the indicator is held from then on,
    /// and the press is counted where `key_counter` says so.
    pub fn press(&mut self, key_counter: bool, instant: u64)
        ensures
            final(self)@ == old(self)@.pressed(key_counter, instant),
    {
        if key_counter {
            self.increase_count();
        }
        self.begin_hold_instant = Some(instant);
    }

    /// The key came up at `instant`: the hold, if there is one, ends and
    /// becomes a bar.
    pub fn release(&mut self, instant: u64)
        ensures
            final(self)@ == old(self)@.released(instant),
    {
        match self.begin_hold_instant {
            Some(press_instant) => {
                self.begin_hold_instant = None;
                self.add_bar(KeyBar::new(press_instant, instant));
            },
            None => {},
        }
    }

    /// Takes a message that changes what the key does.
    pub fn change(&mut self, key_counter: bool, key_message: KeyMessage)
        ensures
            final(self)@ == old(self)@.changed(key_counter, key_message),
    {
        if key_message.is_pressed {
            self.press(key_counter, key_message.instant);
        } else {
            self.release(key_message.instant);
        }
    }

    pub fn remove_outer_bar(&mut self, instant_now: u64)
        ensures
            final(self)@ == old(self)@.without_outer_bars(instant_now),
    {
        match instant_now.checked_sub(self.max_bar_duration) {
            Some(dead_line) => {
                while self.bar_queue.len() > 0 && self.bar_queue[0].release_instant < dead_line
                    invariant
                        dead_line + self.max_bar_duration == instant_now,
                        self.max_bar_duration == old(self).max_bar_duration,
                        self.count == old(self).count,
                        self.begin_hold_instant == old(self).begin_hold_instant,
                        without_outer_bars(self.bar_queue@, instant_now, self.max_bar_duration)
                            == without_outer_bars(
                            old(self).bar_queue@,
                            instant_now,
                            self.max_bar_duration,
                        ),
                    decreases self.bar_queue@.len(),
                {
                    self.bar_queue.pop_front();
                }
            },
            None => {},
        }
    }
}

} // verus!
