//! The bounded outbound queue: messages destined for the wire, enqueued by
//! the handshake logic, the ticker and the compute engine, and drained by
//! the router in first-in-first-out order.
//!
//! The queue's bounded capacity is the sole flow-control mechanism: a full
//! queue refuses the message back to the producer and keeps what is already
//! queued untouched — nothing is ever silently dropped or reordered.

use vstd::prelude::*;

use crate::message::Message;

verus! {

/// A bounded first-in-first-out queue of outbound messages.
pub struct OutboundQueue {
    items: Vec<Message>,
    capacity: usize,
}

impl OutboundQueue {
    /// The messages currently queued, oldest first.
    pub closed spec fn view(&self) -> Seq<Message> {
        self.items@
    }

    /// The bound the queue was created with.
    pub closed spec fn cap(&self) -> usize {
        self.capacity
    }

    /// The queue never holds more than its capacity.
    pub open spec fn wf(&self) -> bool {
        self@.len() <= self.cap()
    }

    /// An empty queue with the given bound.
    pub fn new(capacity: usize) -> (q: OutboundQueue)
        requires
            capacity > 0,
        ensures
            q@ == Seq::<Message>::empty(),
            q.cap() == capacity,
            q.wf(),
    {
        OutboundQueue { items: Vec::new(), capacity }
    }

    /// How many messages are queued.
    pub fn len(&self) -> (n: usize)
        ensures
            n == self@.len(),
    {
        self.items.len()
    }

    /// Append a message, unless the queue is full. A full queue hands the
    /// message back unchanged and keeps the queued messages, and their
    /// order, exactly as they were.
    pub fn enqueue(&mut self, m: Message) -> (r: Result<(), Message>)
        requires
            old(self).wf(),
        ensures
            final(self).wf(),
            final(self).cap() == old(self).cap(),
            old(self)@.len() < old(self).cap() ==> r is Ok && final(self)@ == old(self)@.push(m),
            old(self)@.len() >= old(self).cap() ==> r == Result::<(), Message>::Err(m)
                && final(self)@ == old(self)@,
    {
        if self.items.len() < self.capacity {
            self.items.push(m);
            Result::Ok(())
        } else {
            Result::Err(m)
        }
    }

    /// Remove and return the oldest message; `None` on an empty queue.
    pub fn dequeue(&mut self) -> (r: Option<Message>)
        requires
            old(self).wf(),
        ensures
            final(self).wf(),
            final(self).cap() == old(self).cap(),
            old(self)@.len() == 0 ==> r is None && final(self)@ == old(self)@,
            old(self)@.len() > 0 ==> r == Option::Some(old(self)@[0])
                && final(self)@ == old(self)@.subrange(1, old(self)@.len() as int),
    {
        if self.items.len() == 0 {
            Option::None
        } else {
            let m = self.items.remove(0);
            Option::Some(m)
        }
    }
}

/// Enqueuing onto a queue with room keeps every already-queued message in
/// its place and appends the new one at the back: backpressure never
/// corrupts the order of what was already accepted.
pub proof fn lemma_enqueue_preserves_order(pre: Seq<Message>, post: Seq<Message>, m: Message)
    requires
        post == pre.push(m),
    ensures
        post.len() == pre.len() + 1,
        forall|i: int| 0 <= i < pre.len() ==> post[i] == pre[i],
        post[pre.len() as int] == m,
{
}

} // verus!
