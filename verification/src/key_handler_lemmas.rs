use vstd::prelude::*;
use crate::key::Key;
use crate::key_draw_cache::{in_release_order, lemma_without_outer_bars_idempotent};
use crate::key_handler::KeyHandlerView;
use crate::key_map::lemma_key_indices;
use crate::key_message::KeyMessage;
use crate::key_property::KeyProperty;
use crate::setting::{Setting, WindowSetting};

verus! {

/// How often `key` goes down in `messages` while it is up: a message that
/// says down after one that said up, or, where it is the key's first
/// message, while the key was not `held` before. Messages of other keys
/// do not count and change nothing.
pub open spec fn press_edges(key: Key, held: bool, messages: Seq<KeyMessage>) -> nat
    decreases messages.len(),
{
    if messages.len() == 0 {
        0
    } else if messages.first().key != key {
        press_edges(key, held, messages.drop_first())
    } else if !held && messages.first().is_pressed {
        1 + press_edges(key, true, messages.drop_first())
    } else {
        press_edges(key, messages.first().is_pressed, messages.drop_first())
    }
}

/// Whether `key` is down after `messages`: as its last message says, or as
/// it was `held` before where no message is its own.
pub open spec fn held_after(key: Key, held: bool, messages: Seq<KeyMessage>) -> bool
    decreases messages.len(),
{
    if messages.len() == 0 {
        held
    } else if messages.first().key != key {
        held_after(key, held, messages.drop_first())
    } else {
        held_after(key, messages.first().is_pressed, messages.drop_first())
    }
}

/// Whether no message comes before one with an earlier instant.
pub open spec fn in_instant_order(messages: Seq<KeyMessage>) -> bool {
    forall|i: int, j: int|
        0 <= i <= j < messages.len() ==> (#[trigger] messages[i]).instant <= (
        #[trigger] messages[j]).instant
}

impl KeyHandlerView {
    /// Whether the queue of every indicator is in release order.
    pub open spec fn bars_in_release_order(self) -> bool {
        forall|i: int|
            0 <= i < self.key_draw_caches.len() ==> in_release_order(
                (#[trigger] self.key_draw_caches[i]).bar_queue,
            )
    }

    /// Whether no bar in any queue ended after `instant`.
    pub open spec fn bars_end_by(self, instant: u64) -> bool {
        forall|i: int, k: int|
            0 <= i < self.key_draw_caches.len() && 0 <= k < self.key_draw_caches[i].bar_queue.len()
                ==> (#[trigger] self.key_draw_caches[i].bar_queue[k]).release_instant <= instant
    }

    /// Messages leave the indicators as they are and keep the states in
    /// step, however many there are.
    pub proof fn lemma_after_all_wf(self, messages: Seq<KeyMessage>)
        requires
            self.wf(),
        ensures
            self.after_all(messages).wf(),
            self.after_all(messages).key_properties == self.key_properties,
        decreases messages.len(),
    {
        if messages.len() > 0 {
            self.lemma_after_wf(messages.first());
            self.after(messages.first()).lemma_after_all_wf(messages.drop_first());
        }
    }

    /// The time that a bar stays in sight is fixed when the indicators are
    /// loaded: no message and no dropping of bars changes it.
    pub proof fn lemma_max_bar_duration_stays(
        self,
        messages: Seq<KeyMessage>,
        instant_now: u64,
        i: int,
    )
        requires
            self.key_draw_caches.len() == self.key_properties.len(),
            0 <= i < self.key_draw_caches.len(),
        ensures
            self.after_all(messages).key_draw_caches.len() == self.key_draw_caches.len(),
            self.after_all(messages).key_draw_caches[i].max_bar_duration
                == self.key_draw_caches[i].max_bar_duration,
            self.without_outer_bars(instant_now).key_draw_caches[i].max_bar_duration
                == self.key_draw_caches[i].max_bar_duration,
        decreases messages.len(),
    {
        if messages.len() > 0 {
            self.after(messages.first()).lemma_max_bar_duration_stays(
                messages.drop_first(),
                instant_now,
                i,
            );
        }
    }

    /// What one message does to one indicator: an indicator of another key,
    /// or of none, stays as it is. An indicator of the message's key goes by
    /// its own state, which is that of all indicators of the key: it is
    /// pressed where it was idle and the key went down, released where it
    /// was held and the key came up, and else stays as it is.
    pub proof fn lemma_after_one(self, message: KeyMessage, i: int)
        requires
            self.wf(),
            0 <= i < self.key_properties.len(),
        ensures
            ({
                let key_property = self.key_properties[i];
                let before = self.key_draw_caches[i];
                let after = self.after(message).key_draw_caches[i];
                let held = before.begin_hold_instant.is_some();
                if key_property.key_bind != message.key || message.key == Key::Unknown {
                    after == before
                } else if !held && message.is_pressed {
                    after == before.pressed(key_property.key_counter, message.instant)
                } else if held && !message.is_pressed {
                    after == before.released(message.instant)
                } else {
                    after == before
                }
            }),
    {
        lemma_key_indices(self.key_properties, message.key);
    }

    /// A press is counted once for each time the key goes down while it is
    /// up, and at no other time: after any messages, the count of an
    /// indicator that counts has grown by the number of such messages of its
    /// key, starting over after `u32::MAX`; the count of an indicator that
    /// does not count, or is bound to no key, is what it was; and an
    /// indicator is held if and only if its key is down.
    pub proof fn lemma_counts_press_edges(self, messages: Seq<KeyMessage>, i: int)
        requires
            self.wf(),
            0 <= i < self.key_properties.len(),
        ensures
            ({
                let key_property = self.key_properties[i];
                let before = self.key_draw_caches[i];
                let after = self.after_all(messages).key_draw_caches[i];
                let held = before.begin_hold_instant.is_some();
                &&& key_property.key_bind != Key::Unknown && key_property.key_counter
                    ==> after.count == (before.count + press_edges(
                    key_property.key_bind,
                    held,
                    messages,
                )) % 0x1_0000_0000
                &&& key_property.key_bind == Key::Unknown || !key_property.key_counter
                    ==> after.count == before.count
                &&& key_property.key_bind != Key::Unknown ==> after.begin_hold_instant.is_some()
                    == held_after(key_property.key_bind, held, messages)
                &&& key_property.key_bind == Key::Unknown ==> after == before
            }),
        decreases messages.len(),
    {
        if messages.len() > 0 {
            let message = messages.first();
            self.lemma_after_wf(message);
            self.lemma_after_one(message, i);
            self.after(message).lemma_counts_press_edges(messages.drop_first(), i);
        }
    }

    /// Releases that come in the order of their instants leave every queue
    /// in release order: where the queues are in release order, no bar in
    /// them ended after the first message, and no message comes before an
    /// earlier one, the queues are in release order after the messages.
    pub proof fn lemma_bars_stay_in_release_order(self, messages: Seq<KeyMessage>)
        requires
            self.key_draw_caches.len() == self.key_properties.len(),
            self.bars_in_release_order(),
            in_instant_order(messages),
            messages.len() > 0 ==> self.bars_end_by(messages.first().instant),
        ensures
            self.after_all(messages).bars_in_release_order(),
            messages.len() > 0 ==> self.after_all(messages).bars_end_by(messages.last().instant),
        decreases messages.len(),
    {
        if messages.len() > 0 {
            self.after(messages.first()).lemma_bars_stay_in_release_order(messages.drop_first());
        }
    }

    /// Dropping the outer bars leaves the indicators as they are and keeps
    /// the states in step: it touches neither holds nor counts.
    pub proof fn lemma_without_outer_bars_wf(self, instant_now: u64)
        requires
            self.wf(),
        ensures
            self.without_outer_bars(instant_now).wf(),
            self.without_outer_bars(instant_now).key_properties == self.key_properties,
            forall|i: int|
                0 <= i < self.key_draw_caches.len() ==> {
                    &&& (#[trigger] self.without_outer_bars(
                        instant_now,
                    ).key_draw_caches[i]).begin_hold_instant
                        == self.key_draw_caches[i].begin_hold_instant
                    &&& self.without_outer_bars(instant_now).key_draw_caches[i].count
                        == self.key_draw_caches[i].count
                },
    {
    }

    /// Dropping the outer bars a second time at the same instant changes
    /// nothing.
    pub proof fn lemma_without_outer_bars_idempotent(self, instant_now: u64)
        ensures
            self.without_outer_bars(instant_now).without_outer_bars(instant_now)
                == self.without_outer_bars(instant_now),
    {
        let once = self.without_outer_bars(instant_now);
        let twice = once.without_outer_bars(instant_now);
        assert forall|i: int| 0 <= i < once.key_draw_caches.len() implies #[trigger]
            twice.key_draw_caches[i] == once.key_draw_caches[i] by {
            lemma_without_outer_bars_idempotent(
                self.key_draw_caches[i].bar_queue,
                instant_now,
                self.key_draw_caches[i].max_bar_duration,
            );
        }
        assert(twice.key_draw_caches =~= once.key_draw_caches);
    }

    /// Every bar that is handed to the renderer belongs to one of the
    /// first `count` indicators.
    pub proof fn lemma_bar_rects_before(self, count: int, instant_now: u64)
        requires
            0 <= count <= self.key_draw_caches.len() <= Setting::MAX_KEY_PROPERTIES,
        ensures
            forall|k: int|
                0 <= k < self.bar_rects_before(count, instant_now).len() ==> (
                #[trigger] self.bar_rects_before(count, instant_now)[k]).property_index < count,
            self.bar_rects_before(count, instant_now).len() == 0 <==> forall|i: int|
                0 <= i < count ==> !(#[trigger] self.key_draw_caches[i]).need_repaint(),
        decreases count,
    {
        if count > 0 {
            self.lemma_bar_rects_before(count - 1, instant_now);
        }
    }

    /// The renderer never gets a bar of an indicator that is not there, and
    /// it gets a bar if and only if there is something to draw.
    pub proof fn lemma_bar_rects(self, instant_now: u64)
        requires
            self.wf(),
        ensures
            forall|k: int|
                0 <= k < self.bar_rects(instant_now).len() ==> (#[trigger] self.bar_rects(
                    instant_now,
                )[k]).property_index < self.key_properties.len(),
            self.bar_rects(instant_now).len() > 0 <==> self.need_repaint(),
    {
        self.lemma_bar_rects_before(self.key_draw_caches.len() as int, instant_now);
    }

    /// Indicators that were just loaded are in step, none of them is held,
    /// none has a bar or a count, and there is nothing to draw at any time.
    pub proof fn lemma_initial(
        window_setting: WindowSetting,
        key_properties: Seq<KeyProperty>,
        instant_now: u64,
    )
        requires
            key_properties.len() <= Setting::MAX_KEY_PROPERTIES,
        ensures
            ({
                let loaded = KeyHandlerView::initial(window_setting, key_properties);
                &&& loaded.wf()
                &&& loaded.key_properties == key_properties
                &&& loaded.key_draw_caches.len() == key_properties.len()
                &&& forall|i: int|
                    0 <= i < key_properties.len() ==> {
                        &&& (#[trigger] loaded.key_draw_caches[i]).begin_hold_instant.is_none()
                        &&& loaded.key_draw_caches[i].bar_queue.len() == 0
                        &&& loaded.key_draw_caches[i].count == 0
                    }
                &&& !loaded.need_repaint()
                &&& loaded.bar_rects(instant_now).len() == 0
            }),
    {
        KeyHandlerView::initial(window_setting, key_properties).lemma_bar_rects(instant_now);
    }
}

} // verus!
