use vstd::prelude::*;
use crossbeam::queue::ArrayQueue;
use crate::key_message::KeyMessage;

verus! {

/// The capacity that the overlay gives its transport: large enough to avoid jam.
pub const CHANNEL_CAP: usize = 0x1_0000;

/// `crossbeam::queue::ArrayQueue`, a bounded queue over a buffer that is
/// allocated once, when the queue is made.
#[verifier::external_type_specification]
#[verifier::external_body]
#[verifier::reject_recursive_types(T)]
pub struct ExArrayQueue<T>(ArrayQueue<T>);

/// The messages that a queue holds, oldest first.
pub uninterp spec fn queue_messages(queue: ArrayQueue<KeyMessage>) -> Seq<KeyMessage>;

/// The capacity that a queue was made with.
pub uninterp spec fn queue_capacity(queue: ArrayQueue<KeyMessage>) -> nat;

/// `ArrayQueue::new`: an empty queue of the capacity asked for. The outside
/// function panics on a capacity of zero, and on one whose buffer cannot be
/// laid out; both are left out.
#[verifier::external_body]
fn queue_new(capacity: usize) -> (queue: ArrayQueue<KeyMessage>)
    requires
        0 < capacity <= Transport::MAX_CAPACITY,
    ensures
        queue_messages(queue) == Seq::<KeyMessage>::empty(),
        queue_capacity(queue) == capacity,
{
    ArrayQueue::new(capacity)
}

/// `ArrayQueue::force_push`, on a queue that nothing else holds: the message
/// goes to the back; where the queue was full, the oldest message leaves
/// from the front and is handed back, else nothing is.
#[verifier::external_body]
fn queue_force_push(queue: &mut ArrayQueue<KeyMessage>, message: KeyMessage) -> (oldest: Option<
    KeyMessage,
>)
    ensures
        queue_capacity(*final(queue)) == queue_capacity(*old(queue)),
        queue_messages(*old(queue)).len() < queue_capacity(*old(queue)) ==> oldest.is_none()
            && queue_messages(*final(queue)) == queue_messages(*old(queue)).push(message),
        queue_messages(*old(queue)).len() >= queue_capacity(*old(queue)) ==> oldest == Some(
            queue_messages(*old(queue)).first(),
        ) && queue_messages(*final(queue)) == queue_messages(*old(queue)).drop_first().push(
            message,
        ),
{
    queue.force_push(message)
}

/// `ArrayQueue::pop_mut`: the oldest message leaves from the front and is
/// handed back; an empty queue stays as it is and hands back nothing.
#[verifier::external_body]
fn queue_pop(queue: &mut ArrayQueue<KeyMessage>) -> (oldest: Option<KeyMessage>)
    ensures
        queue_capacity(*final(queue)) == queue_capacity(*old(queue)),
        queue_messages(*old(queue)).len() == 0 ==> oldest.is_none() && queue_messages(
            *final(queue),
        ) == queue_messages(*old(queue)),
        queue_messages(*old(queue)).len() > 0 ==> oldest == Some(
            queue_messages(*old(queue)).first(),
        ) && queue_messages(*final(queue)) == queue_messages(*old(queue)).drop_first(),
{
    queue.pop_mut()
}

/// What a transport of the given capacity holds after one more message was
/// sent into it.
pub open spec fn after_send(held: Seq<KeyMessage>, capacity: nat, message: KeyMessage) -> Seq<
    KeyMessage,
> {
    if held.len() < capacity {
        held.push(message)
    } else {
        held.drop_first().push(message)
    }
}

/// The message that sending one more message drops, if it drops one.
pub open spec fn dropped_by_send(held: Seq<KeyMessage>, capacity: nat) -> Option<KeyMessage> {
    if held.len() < capacity {
        None
    } else {
        Some(held.first())
    }
}

/// What a transport holds after the messages of `sent` went into it one by one.
pub open spec fn after_sends(held: Seq<KeyMessage>, capacity: nat, sent: Seq<KeyMessage>) -> Seq<
    KeyMessage,
>
    decreases sent.len(),
{
    if sent.len() == 0 {
        held
    } else {
        after_sends(after_send(held, capacity, sent.first()), capacity, sent.drop_first())
    }
}

/// The messages that were dropped while the messages of `sent` went into a
/// transport one by one, in the order in which they were dropped.
pub open spec fn dropped_by_sends(
    held: Seq<KeyMessage>,
    capacity: nat,
    sent: Seq<KeyMessage>,
) -> Seq<KeyMessage>
    decreases sent.len(),
{
    if sent.len() == 0 {
        Seq::empty()
    } else {
        let rest = dropped_by_sends(
            after_send(held, capacity, sent.first()),
            capacity,
            sent.drop_first(),
        );
        match dropped_by_send(held, capacity) {
            Some(oldest) => seq![oldest] + rest,
            None => rest,
        }
    }
}

/// How many messages too many there are when `sent` comes upon `held`.
pub open spec fn overflow(held: Seq<KeyMessage>, capacity: nat, sent: Seq<KeyMessage>) -> int {
    if held.len() + sent.len() > capacity {
        held.len() + sent.len() - capacity
    } else {
        0
    }
}

/// Sending never reorders and only ever drops from the old end: after any
/// run of sends the transport holds the newest messages of all that it has
/// seen, as many as fit, in the order of their arrival, and the dropped
/// messages are all the older ones, oldest first.
pub proof fn lemma_sends_keep_newest(held: Seq<KeyMessage>, capacity: nat, sent: Seq<KeyMessage>)
    requires
        0 < capacity,
        held.len() <= capacity,
    ensures
        after_sends(held, capacity, sent) == (held + sent).skip(overflow(held, capacity, sent)),
        dropped_by_sends(held, capacity, sent) == (held + sent).take(
            overflow(held, capacity, sent),
        ),
        after_sends(held, capacity, sent).len() <= capacity,
    decreases sent.len(),
{
    if sent.len() > 0 {
        lemma_sends_keep_newest(
            after_send(held, capacity, sent.first()),
            capacity,
            sent.drop_first(),
        );
    }
}

/// A transport of capacity `capacity` that takes one message more than it
/// can hold drops exactly one, the first that was sent, and keeps the
/// others in the order in which they were sent.
pub proof fn lemma_one_too_many(capacity: nat, sent: Seq<KeyMessage>)
    requires
        0 < capacity,
        sent.len() == capacity + 1,
    ensures
        dropped_by_sends(Seq::empty(), capacity, sent) == seq![sent.first()],
        after_sends(Seq::empty(), capacity, sent) == sent.skip(1),
{
    lemma_sends_keep_newest(Seq::empty(), capacity, sent);
}

/// A bounded channel for key messages that never blocks and never fails:
/// when it is full, sending drops the oldest message that was not yet read.
pub struct Transport {
    queue: ArrayQueue<KeyMessage>,
}

impl Transport {
    /// The most messages that a transport can be made to hold.
    pub const MAX_CAPACITY: usize = 0x10_0000;

    /// The messages that wait to be read, oldest first.
    pub closed spec fn view(&self) -> Seq<KeyMessage> {
        queue_messages(self.queue)
    }

    /// The number of messages that the transport holds at most.
    pub closed spec fn capacity(&self) -> nat {
        queue_capacity(self.queue)
    }

    /// Holds of every transport that `new` made, whatever was sent and
    /// drained since.
    pub closed spec fn wf(&self) -> bool {
        &&& 0 < queue_capacity(self.queue) <= Self::MAX_CAPACITY
        &&& queue_messages(self.queue).len() <= queue_capacity(self.queue)
    }

    /// A transport has room for a message, and never holds more than it has
    /// room for.
    pub proof fn lemma_bounds(&self)
        requires
            self.wf(),
        ensures
            0 < self.capacity() <= Self::MAX_CAPACITY,
            self@.len() <= self.capacity(),
    {
    }

    /// An empty transport that holds up to `capacity` messages.
    pub fn new(capacity: usize) -> (transport: Self)
        requires
            0 < capacity <= Self::MAX_CAPACITY,
        ensures
            transport.wf(),
            transport@ == Seq::<KeyMessage>::empty(),
            transport.capacity() == capacity,
    {
        Self { queue: queue_new(capacity) }
    }

    /// Puts `message` behind the messages that wait. A full transport first
    /// drops the oldest of them and hands it back.
    pub fn send(&mut self, message: KeyMessage) -> (oldest: Option<KeyMessage>)
        requires
            old(self).wf(),
        ensures
            final(self).wf(),
            final(self).capacity() == old(self).capacity(),
            final(self)@ == after_send(old(self)@, old(self).capacity(), message),
            oldest == dropped_by_send(old(self)@, old(self).capacity()),
    {
        queue_force_push(&mut self.queue, message)
    }

    /// Sends the messages of `messages` one by one and hands back those
    /// that were dropped for them, in the order in which they were dropped.
    pub fn send_all(&mut self, messages: &Vec<KeyMessage>) -> (dropped: Vec<KeyMessage>)
        requires
            old(self).wf(),
        ensures
            final(self).wf(),
            final(self).capacity() == old(self).capacity(),
            final(self)@ == after_sends(old(self)@, old(self).capacity(), messages@),
            dropped@ == dropped_by_sends(old(self)@, old(self).capacity(), messages@),
    {
        let mut dropped: Vec<KeyMessage> = Vec::new();
        let mut index: usize = 0;
        assert(messages@.skip(0) =~= messages@);
        while index < messages.len()
            invariant
                index <= messages@.len(),
                self.wf(),
                self.capacity() == old(self).capacity(),
                after_sends(self@, self.capacity(), messages@.skip(index as int)) == after_sends(
                    old(self)@,
                    old(self).capacity(),
                    messages@,
                ),
                dropped@ + dropped_by_sends(self@, self.capacity(), messages@.skip(index as int))
                    == dropped_by_sends(old(self)@, old(self).capacity(), messages@),
            decreases messages@.len() - index,
        {
            assert(messages@.skip(index as int).drop_first() =~= messages@.skip(index + 1));
            match self.send(messages[index]) {
                Some(oldest) => {
                    dropped.push(oldest);
                },
                None => {},
            }
            index = index + 1;
        }
        dropped
    }

    /// Takes out the oldest message that waits, if any does.
    pub fn try_recv(&mut self) -> (oldest: Option<KeyMessage>)
        requires
            old(self).wf(),
        ensures
            final(self).wf(),
            final(self).capacity() == old(self).capacity(),
            old(self)@.len() == 0 ==> oldest.is_none() && final(self)@ == old(self)@,
            old(self)@.len() > 0 ==> oldest == Some(old(self)@.first()) && final(self)@ == old(
                self,
            )@.drop_first(),
    {
        queue_pop(&mut self.queue)
    }

    /// Takes out all messages that wait, in the order of their arrival.
    pub fn try_drain(&mut self) -> (messages: Vec<KeyMessage>)
        requires
            old(self).wf(),
        ensures
            final(self).wf(),
            final(self).capacity() == old(self).capacity(),
            messages@ == old(self)@,
            final(self)@ == Seq::<KeyMessage>::empty(),
    {
        let mut messages: Vec<KeyMessage> = Vec::new();
        loop
            invariant
                self.wf(),
                self.capacity() == old(self).capacity(),
                messages@ + self@ == old(self)@,
            ensures
                self@.len() == 0,
            decreases self@.len(),
        {
            match self.try_recv() {
                Some(message) => {
                    messages.push(message);
                },
                None => {
                    break ;
                },
            }
        }
        messages
    }
}

} // verus!
