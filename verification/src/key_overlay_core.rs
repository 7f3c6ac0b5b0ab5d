use vstd::prelude::*;
use crate::key_handler::{KeyHandler, KeyHandlerView};
use crate::key_message::KeyMessage;
use crate::setting::Setting;
use crate::transport::{after_send, dropped_by_send, Transport};

verus! {

/// The transport and the handler that it feeds: once per tick the messages
/// that wait are taken, in the order of their arrival, and the bars that
/// have left are dropped.
pub struct KeyOverlayCore {
    keys_receiver: Transport,
    key_handler: KeyHandler,
}

impl KeyOverlayCore {
    /// The indicators and their states.
    pub closed spec fn handler(&self) -> KeyHandlerView {
        self.key_handler@
    }

    /// The messages that wait for the next tick, oldest first.
    pub closed spec fn waiting(&self) -> Seq<KeyMessage> {
        self.keys_receiver@
    }

    /// The number of messages that can wait at most.
    pub closed spec fn capacity(&self) -> nat {
        self.keys_receiver.capacity()
    }

    /// Holds of every core that `new` made, whatever has happened to it
    /// since.
    pub closed spec fn wf(&self) -> bool {
        &&& self.keys_receiver.wf()
        &&& self.key_handler.wf()
    }

    /// The states of a core are in step, and no more messages wait than
    /// there is room for.
    pub proof fn lemma_wf(&self)
        requires
            self.wf(),
        ensures
            self.handler().wf(),
            0 < self.capacity(),
            self.waiting().len() <= self.capacity(),
    {
        self.key_handler.lemma_wf();
        self.keys_receiver.lemma_bounds();
    }

    pub fn new(setting: Setting, keys_receiver: Transport) -> (overlay: Self)
        requires
            setting.wf(),
            keys_receiver.wf(),
        ensures
            overlay.wf(),
            overlay.handler() == KeyHandlerView::initial(
                setting.window_setting,
                setting.key_properties@,
            ),
            overlay.waiting() == keys_receiver@,
            overlay.capacity() == keys_receiver.capacity(),
    {
        Self { keys_receiver, key_handler: KeyHandler::new(setting) }
    }

    /// Puts `key_message` behind the messages that wait for the next tick.
    /// Where there is no room left, the oldest of them is dropped and
    /// handed back.
    pub fn send(&mut self, key_message: KeyMessage) -> (oldest: Option<KeyMessage>)
        requires
            old(self).wf(),
        ensures
            final(self).wf(),
            final(self).handler() == old(self).handler(),
            final(self).capacity() == old(self).capacity(),
            final(self).waiting() == after_send(
                old(self).waiting(),
                old(self).capacity(),
                key_message,
            ),
            oldest == dropped_by_send(old(self).waiting(), old(self).capacity()),
    {
        self.keys_receiver.send(key_message)
    }

    /// One tick: takes the messages that wait, one after the other, and
    /// then drops the bars that are out of sight at `instant_now`.
    pub fn update(&mut self, instant_now: u64)
        requires
            old(self).wf(),
        ensures
            final(self).wf(),
            final(self).capacity() == old(self).capacity(),
            final(self).waiting() == Seq::<KeyMessage>::empty(),
            final(self).handler() == old(self).handler().after_all(
                old(self).waiting(),
            ).without_outer_bars(instant_now),
    {
        let key_messages = self.keys_receiver.try_drain();
        assert(key_messages@.skip(0) =~= key_messages@);
        let mut index: usize = 0;
        while index < key_messages.len()
            invariant
                index <= key_messages@.len(),
                self.wf(),
                self.waiting() == Seq::<KeyMessage>::empty(),
                self.capacity() == old(self).capacity(),
                self.handler().after_all(key_messages@.skip(index as int)) == old(
                    self,
                ).handler().after_all(key_messages@),
            decreases key_messages@.len() - index,
        {
            assert(key_messages@.skip(index as int).drop_first() =~= key_messages@.skip(
                index + 1,
            ));
            self.key_handler.update(key_messages[index]);
            index = index + 1;
        }
        self.key_handler.remove_outer_bar(instant_now);
    }

    /// Takes over the indicators of `setting` and forgets all holds, bars
    /// and counts. The messages that wait stay.
    pub fn reload(&mut self, setting: &Setting)
        requires
            old(self).wf(),
            setting.wf(),
        ensures
            final(self).wf(),
            final(self).capacity() == old(self).capacity(),
            final(self).waiting() == old(self).waiting(),
            final(self).handler() == KeyHandlerView::initial(
                setting.window_setting,
                setting.key_properties@,
            ),
    {
        self.key_handler.reload(setting);
    }

    pub fn keys_receiver(&self) -> (keys_receiver: &Transport)
        ensures
            keys_receiver@ == self.waiting(),
            keys_receiver.capacity() == self.capacity(),
            self.wf() ==> keys_receiver.wf(),
    {
        &self.keys_receiver
    }

    pub fn key_handler(&self) -> (key_handler: &KeyHandler)
        ensures
            key_handler@ == self.handler(),
            self.wf() ==> key_handler.wf(),
    {
        &self.key_handler
    }

    /// Whether any indicator is held or has a bar in its queue.
    pub fn need_repaint(&self) -> (need: bool)
        ensures
            need == self.handler().need_repaint(),
    {
        self.key_handler.need_repaint()
    }
}

} // verus!
