use vstd::prelude::*;
use crate::bar_rect::BarRect;
use crate::key::Key;
use crate::key_bar::KeyBar;
use crate::key_draw_cache::{KeyDrawCache, KeyDrawCacheView};
use crate::key_map::{key_indices, lemma_key_indices, KeyMap};
use crate::key_message::KeyMessage;
use crate::key_property::KeyProperty;
use crate::setting::{Setting, WindowSetting};

verus! {

impl KeyDrawCacheView {
    /// What the renderer gets of one indicator at `instant_now`: the bar
    /// that is held, if the key is down, then the finished bars, oldest
    /// first.
    pub open spec fn bar_rects(self, property_index: u32, instant_now: u64) -> Seq<BarRect> {
        let held = match self.begin_hold_instant {
            Some(press_instant) => seq![BarRect::held(property_index, instant_now, press_instant)],
            None => Seq::empty(),
        };
        held + self.bar_queue.map_values(
            |bar: KeyBar| BarRect::finished(property_index, instant_now, bar),
        )
    }
}

/// The indicators and their states as values.
pub struct KeyHandlerView {
    pub key_properties: Seq<KeyProperty>,
    pub key_draw_caches: Seq<KeyDrawCacheView>,
}

impl KeyHandlerView {
    /// The states of indicators none of which was pressed yet.
    pub open spec fn initial(
        window_setting: WindowSetting,
        key_properties: Seq<KeyProperty>,
    ) -> KeyHandlerView {
        KeyHandlerView {
            key_properties,
            key_draw_caches: Seq::new(
                key_properties.len(),
                |i: int|
                    KeyDrawCacheView::initial(
                        window_setting,
                        key_properties[i].bar_speed,
                        key_properties[i],
                    ),
            ),
        }
    }

    /// There is one state for each indicator, there are no more indicators
    /// than can be numbered, and the indicators of one key are held
    /// together, since one instant, or not at all.
    pub open spec fn wf(self) -> bool {
        &&& self.key_draw_caches.len() == self.key_properties.len()
        &&& self.key_properties.len() <= Setting::MAX_KEY_PROPERTIES
        &&& forall|i: int, j: int|
            0 <= i < self.key_properties.len() && 0 <= j < self.key_properties.len()
                && self.key_properties[i].key_bind == self.key_properties[j].key_bind
                && self.key_properties[i].key_bind != Key::Unknown ==> (
            #[trigger] self.key_draw_caches[i]).begin_hold_instant == (
            #[trigger] self.key_draw_caches[j]).begin_hold_instant
    }

    /// Whether `key` counts as held: it drives an indicator, and the first
    /// indicator that it drives is held.
    pub open spec fn is_held(self, key: Key) -> bool {
        let indices = key_indices(self.key_properties, key);
        indices.len() > 0 && self.key_draw_caches[indices.first() as int].begin_hold_instant.is_some()
    }

    /// The states after `message` changed what its key does, on each
    /// indicator that the key drives.
    pub open spec fn changed(self, message: KeyMessage) -> KeyHandlerView {
        KeyHandlerView {
            key_draw_caches: Seq::new(
                self.key_draw_caches.len(),
                |i: int|
                    if self.key_properties[i].key_bind == message.key {
                        self.key_draw_caches[i].changed(self.key_properties[i].key_counter, message)
                    } else {
                        self.key_draw_caches[i]
                    },
            ),
            ..self
        }
    }

    /// The states after one message. Only a change counts: a key that goes
    /// down while it is not held is pressed, one that comes up while it is
    /// held is released, and every other message changes nothing, as does
    /// a message of a key that drives no indicator.
    pub open spec fn after(self, message: KeyMessage) -> KeyHandlerView {
        if key_indices(self.key_properties, message.key).len() > 0 && self.is_held(message.key)
            != message.is_pressed {
            self.changed(message)
        } else {
            self
        }
    }

    /// The states after the messages of `messages`, one after the other.
    pub open spec fn after_all(self, messages: Seq<KeyMessage>) -> KeyHandlerView
        decreases messages.len(),
    {
        if messages.len() == 0 {
            self
        } else {
            self.after(messages.first()).after_all(messages.drop_first())
        }
    }

    /// The states without the bars that are out of sight at `instant_now`.
    pub open spec fn without_outer_bars(self, instant_now: u64) -> KeyHandlerView {
        KeyHandlerView {
            key_draw_caches: Seq::new(
                self.key_draw_caches.len(),
                |i: int| self.key_draw_caches[i].without_outer_bars(instant_now),
            ),
            ..self
        }
    }

    /// Whether any indicator has something to draw.
    pub open spec fn need_repaint(self) -> bool {
        exists|i: int|
            0 <= i < self.key_draw_caches.len() && (#[trigger] self.key_draw_caches[i]).need_repaint()
    }

    /// What the renderer gets of the first `count` indicators at
    /// `instant_now`, indicator by indicator.
    pub open spec fn bar_rects_before(self, count: int, instant_now: u64) -> Seq<BarRect>
        decreases count,
    {
        if count <= 0 {
            Seq::empty()
        } else {
            self.bar_rects_before(count - 1, instant_now) + self.key_draw_caches[count
                - 1].bar_rects((count - 1) as u32, instant_now)
        }
    }

    /// What the renderer gets at `instant_now`: for each indicator in the
    /// order of their numbers, the bar that is held, if any, and the
    /// finished bars, oldest first.
    pub open spec fn bar_rects(self, instant_now: u64) -> Seq<BarRect> {
        self.bar_rects_before(self.key_draw_caches.len() as int, instant_now)
    }
}

impl KeyHandlerView {
    /// A message leaves the indicators as they are and keeps the states in
    /// step.
    pub proof fn lemma_after_wf(self, message: KeyMessage)
        requires
            self.wf(),
        ensures
            self.after(message).wf(),
            self.after(message).key_properties == self.key_properties,
    {
        lemma_key_indices(self.key_properties, message.key);
    }
}

/// Whether `i` is one of the numbers that `indexes` lists.
pub open spec fn is_listed(indexes: Seq<usize>, i: int) -> bool {
    exists|a: int| 0 <= a < indexes.len() && #[trigger] indexes[a] == i
}

/// Turns key messages into the hold states and finished bars of the
/// indicators, and hands out what the renderer draws of them.
#[derive(Debug)]
pub struct KeyHandler {
    key_properties: Vec<KeyProperty>,
    key_draw_caches: Vec<KeyDrawCache>,
    key_map: KeyMap,
}

impl View for KeyHandler {
    type V = KeyHandlerView;

    closed spec fn view(&self) -> KeyHandlerView {
        KeyHandlerView {
            key_properties: self.key_properties@,
            key_draw_caches: Seq::new(
                self.key_draw_caches@.len(),
                |i: int| self.key_draw_caches@[i]@,
            ),
        }
    }
}

impl KeyHandler {
    /// Holds of every handler that `new` made, whatever has happened to
    /// it since.
    pub closed spec fn wf(&self) -> bool {
        &&& self@.wf()
        &&& self.key_map.maps(self.key_properties@)
    }

    /// A handler is never out of step: it has one state for each indicator,
    /// and the indicators of one key are held together or not at all.
    pub proof fn lemma_wf(&self)
        requires
            self.wf(),
        ensures
            self@.wf(),
    {
    }

    fn new_key_draw_caches(
        window_setting: &WindowSetting,
        key_properties: &Vec<KeyProperty>,
    ) -> (key_draw_caches: Vec<KeyDrawCache>)
        requires
            forall|i: int| 0 <= i < key_properties@.len() ==> (#[trigger] key_properties@[i]).wf(),
        ensures
            key_draw_caches@.len() == key_properties@.len(),
            forall|i: int|
                0 <= i < key_properties@.len() ==> (#[trigger] key_draw_caches@[i])@
                    == KeyDrawCacheView::initial(
                    *window_setting,
                    key_properties@[i].bar_speed,
                    key_properties@[i],
                ),
    {
        let mut key_draw_caches: Vec<KeyDrawCache> = Vec::with_capacity(key_properties.len());
        let mut index: usize = 0;
        while index < key_properties.len()
            invariant
                index <= key_properties@.len(),
                key_draw_caches@.len() == index,
                forall|i: int|
                    0 <= i < key_properties@.len() ==> (#[trigger] key_properties@[i]).wf(),
                forall|i: int|
                    0 <= i < index ==> (#[trigger] key_draw_caches@[i])@
                        == KeyDrawCacheView::initial(
                        *window_setting,
                        key_properties@[i].bar_speed,
                        key_properties@[i],
                    ),
            decreases key_properties@.len() - index,
        {
            let key_property = &key_properties[index];
            key_draw_caches.push(
                KeyDrawCache::new(window_setting, key_property.bar_speed, key_property),
            );
            index = index + 1;
        }
        key_draw_caches
    }

    /// A handler for the indicators of `setting`, none of them pressed yet.
    pub fn new(setting: Setting) -> (key_handler: Self)
        requires
            setting.wf(),
        ensures
            key_handler.wf(),
            key_handler@ == KeyHandlerView::initial(
                setting.window_setting,
                setting.key_properties@,
            ),
    {
        let Setting { window_setting, key_properties } = setting;
        let key_map = KeyMap::new(key_properties.as_slice());
        let key_draw_caches = Self::new_key_draw_caches(&window_setting, &key_properties);
        let key_handler = Self { key_properties, key_draw_caches, key_map };
        assert(key_handler@.key_draw_caches =~= KeyHandlerView::initial(
            window_setting,
            key_properties@,
        ).key_draw_caches);
        key_handler
    }

    /// Takes over the indicators of `setting` and forgets all that was:
    /// holds, bars and counts.
    pub fn reload(&mut self, setting: &Setting)
        requires
            setting.wf(),
        ensures
            final(self).wf(),
            final(self)@ == KeyHandlerView::initial(
                setting.window_setting,
                setting.key_properties@,
            ),
    {
        let mut new_key_properties: Vec<KeyProperty> = Vec::with_capacity(
            setting.key_properties.len(),
        );
        let mut index: usize = 0;
        while index < setting.key_properties.len()
            invariant
                index <= setting.key_properties@.len(),
                new_key_properties@ == setting.key_properties@.take(index as int),
            decreases setting.key_properties@.len() - index,
        {
            new_key_properties.push(setting.key_properties[index]);
            index = index + 1;
        }
        assert(new_key_properties@ =~= setting.key_properties@);
        let new_key_map = KeyMap::new(new_key_properties.as_slice());
        let new_key_draw_caches = Self::new_key_draw_caches(
            &setting.window_setting,
            &new_key_properties,
        );
        self.key_properties = new_key_properties;
        self.key_map = new_key_map;
        self.key_draw_caches = new_key_draw_caches;
        assert(self@.key_draw_caches =~= KeyHandlerView::initial(
            setting.window_setting,
            setting.key_properties@,
        ).key_draw_caches);
    }

    /// Lets `key_message` change each of the listed indicators.
    fn change_each(
        key_draw_caches: &mut Vec<KeyDrawCache>,
        key_properties: &Vec<KeyProperty>,
        indexes: &[usize],
        key_message: KeyMessage,
    )
        requires
            old(key_draw_caches)@.len() == key_properties@.len(),
            forall|a: int, b: int|
                0 <= a < b < indexes@.len() ==> #[trigger] indexes@[a] != #[trigger] indexes@[b],
            forall|a: int| 0 <= a < indexes@.len() ==> (#[trigger] indexes@[a]) < key_properties@.len(),
        ensures
            final(key_draw_caches)@.len() == old(key_draw_caches)@.len(),
            forall|i: int|
                0 <= i < final(key_draw_caches)@.len() ==> (#[trigger] final(key_draw_caches)@[i])@
                    == if is_listed(indexes@, i) {
                    old(key_draw_caches)@[i]@.changed(key_properties@[i].key_counter, key_message)
                } else {
                    old(key_draw_caches)@[i]@
                },
    {
        let mut n: usize = 0;
        while n < indexes.len()
            invariant
                n <= indexes@.len(),
                key_draw_caches@.len() == key_properties@.len(),
                key_draw_caches@.len() == old(key_draw_caches)@.len(),
                forall|a: int, b: int|
                    0 <= a < b < indexes@.len() ==> #[trigger] indexes@[a] != #[trigger] indexes@[b],
                forall|a: int|
                    0 <= a < indexes@.len() ==> (#[trigger] indexes@[a]) < key_properties@.len(),
                forall|i: int|
                    0 <= i < key_draw_caches@.len() ==> (#[trigger] key_draw_caches@[i])@
                        == if is_listed(indexes@.take(n as int), i) {
                        old(key_draw_caches)@[i]@.changed(
                            key_properties@[i].key_counter,
                            key_message,
                        )
                    } else {
                        old(key_draw_caches)@[i]@
                    },
            decreases indexes@.len() - n,
        {
            let index = indexes[n];
            key_draw_caches[index].change(key_properties[index].key_counter, key_message);
            assert(indexes@.take(n + 1)[n as int] == index);
            n = n + 1;
        }
        assert(indexes@.take(n as int) =~= indexes@);
    }

    /// Takes one message. Only a change counts: see `KeyHandlerView::after`.
    /// What the key's first indicator shows decides for all indicators of
    /// the key.
    pub fn update(&mut self, key_message: KeyMessage)
        requires
            old(self).wf(),
        ensures
            final(self).wf(),
            final(self)@ == old(self)@.after(key_message),
    {
        proof {
            lemma_key_indices(self.key_properties@, key_message.key);
            old(self)@.lemma_after_wf(key_message);
        }
        match self.key_map.get(key_message.key) {
            Some(indexes) => {
                let prev_pressed = self.key_draw_caches[indexes[0]].begin_hold_instant.is_some();
                let now_pressed = key_message.is_pressed;
                if prev_pressed != now_pressed {
                    Self::change_each(
                        &mut self.key_draw_caches,
                        &self.key_properties,
                        indexes,
                        key_message,
                    );
                    assert(self@.key_draw_caches =~= old(self)@.changed(
                        key_message,
                    ).key_draw_caches);
                }
            },
            None => {},
        }
    }

    /// Drops, of each indicator, the bars that are out of sight at
    /// `instant_now`.
    pub fn remove_outer_bar(&mut self, instant_now: u64)
        requires
            old(self).wf(),
        ensures
            final(self).wf(),
            final(self)@ == old(self)@.without_outer_bars(instant_now),
    {
        let mut index: usize = 0;
        while index < self.key_draw_caches.len()
            invariant
                index <= self.key_draw_caches@.len(),
                self.key_properties@ == old(self).key_properties@,
                self.key_map == old(self).key_map,
                self.key_draw_caches@.len() == old(self).key_draw_caches@.len(),
                forall|i: int|
                    0 <= i < index ==> (#[trigger] self.key_draw_caches@[i])@ == old(
                        self,
                    ).key_draw_caches@[i]@.without_outer_bars(instant_now),
                forall|i: int|
                    index <= i < self.key_draw_caches@.len() ==> (
                    #[trigger] self.key_draw_caches@[i])@ == old(self).key_draw_caches@[i]@,
            decreases self.key_draw_caches@.len() - index,
        {
            self.key_draw_caches[index].remove_outer_bar(instant_now);
            index = index + 1;
        }
        assert(self@.key_draw_caches =~= old(self)@.without_outer_bars(
            instant_now,
        ).key_draw_caches);
    }

    /// Whether any indicator is held or has a bar in its queue.
    pub fn need_repaint(&self) -> (need: bool)
        ensures
            need == self@.need_repaint(),
    {
        let mut index: usize = 0;
        while index < self.key_draw_caches.len()
            invariant
                index <= self.key_draw_caches@.len(),
                forall|i: int| 0 <= i < index ==> !(#[trigger] self@.key_draw_caches[i]).need_repaint(),
            decreases self.key_draw_caches@.len() - index,
        {
            if self.key_draw_caches[index].need_repaint() {
                assert(self@.key_draw_caches[index as int].need_repaint());
                return true;
            }
            index = index + 1;
        }
        false
    }

    /// Writes into `bar_rects`, in place of what it held, what the
    /// renderer draws at `instant_now`: for each indicator in the order of
    /// their numbers, the bar that is held, if any, and the finished bars,
    /// oldest first.
    pub fn collect_bar_rects(&self, instant_now: u64, bar_rects: &mut Vec<BarRect>)
        requires
            self.wf(),
        ensures
            final(bar_rects)@ == self@.bar_rects(instant_now),
            forall|k: int|
                0 <= k < final(bar_rects)@.len() ==> (#[trigger] final(bar_rects)@[k]).property_index
                    < self@.key_properties.len(),
            final(bar_rects)@.len() > 0 <==> self@.need_repaint(),
    {
        proof {
            self@.lemma_bar_rects(instant_now);
        }
        bar_rects.clear();
        let mut index: usize = 0;
        while index < self.key_draw_caches.len()
            invariant
                self.wf(),
                index <= self.key_draw_caches@.len(),
                bar_rects@ == self@.bar_rects_before(index as int, instant_now),
            decreases self.key_draw_caches@.len() - index,
        {
            let key_draw_cache = &self.key_draw_caches[index];
            let property_index = index as u32;
            match key_draw_cache.begin_hold_instant {
                Some(press_instant) => {
                    bar_rects.push(
                        BarRect {
                            property_index,
                            begin_duration_nanos: instant_now.saturating_sub(press_instant),
                            end_duration_nanos: 0,
                        },
                    );
                },
                None => {},
            }
            let ghost with_held = bar_rects@;
            let mut n: usize = 0;
            while n < key_draw_cache.bar_queue.len()
                invariant
                    n <= key_draw_cache.bar_queue@.len(),
                    bar_rects@.len() == with_held.len() + n,
                    bar_rects@.take(with_held.len() as int) == with_held,
                    forall|k: int|
                        0 <= k < n ==> #[trigger] bar_rects@[with_held.len() + k]
                            == BarRect::finished(
                            property_index,
                            instant_now,
                            key_draw_cache.bar_queue@[k],
                        ),
                decreases key_draw_cache.bar_queue@.len() - n,
            {
                let bar = key_draw_cache.bar_queue[n];
                bar_rects.push(
                    BarRect {
                        property_index,
                        begin_duration_nanos: instant_now.saturating_sub(bar.press_instant),
                        end_duration_nanos: instant_now.saturating_sub(bar.release_instant),
                    },
                );
                n = n + 1;
            }
            proof {
                let finished = key_draw_cache.bar_queue@.map_values(
                    |bar: KeyBar| BarRect::finished(property_index, instant_now, bar),
                );
                assert forall|k: int| 0 <= k < bar_rects@.len() implies bar_rects@[k] == (with_held
                    + finished)[k] by {
                    if k >= with_held.len() {
                        assert(bar_rects@[with_held.len() + (k - with_held.len())]
                            == finished[k - with_held.len()]);
                    }
                }
                assert(bar_rects@ =~= with_held + finished);
            }
            index = index + 1;
        }
    }

    /// What the renderer draws at `instant_now`, in a vector of its own.
    pub fn bar_rects(&self, instant_now: u64) -> (bar_rects: Vec<BarRect>)
        requires
            self.wf(),
        ensures
            bar_rects@ == self@.bar_rects(instant_now),
            forall|k: int|
                0 <= k < bar_rects@.len() ==> (#[trigger] bar_rects@[k]).property_index
                    < self@.key_properties.len(),
            bar_rects@.len() > 0 <==> self@.need_repaint(),
    {
        let mut bar_rects: Vec<BarRect> = Vec::new();
        self.collect_bar_rects(instant_now, &mut bar_rects);
        bar_rects
    }

    pub fn key_properties(&self) -> (key_properties: &[KeyProperty])
        ensures
            key_properties@ == self@.key_properties,
    {
        self.key_properties.as_slice()
    }

    pub fn key_draw_caches(&self) -> (key_draw_caches: &[KeyDrawCache])
        ensures
            key_draw_caches@.len() == self@.key_draw_caches.len(),
            forall|i: int|
                0 <= i < key_draw_caches@.len() ==> (#[trigger] key_draw_caches@[i])@
                    == self@.key_draw_caches[i],
    {
        self.key_draw_caches.as_slice()
    }
}

} // verus!
