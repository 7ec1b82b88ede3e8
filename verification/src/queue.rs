//! The ordered message queue.
//!
//! FIFO by default: handlers append to the back, so causal order among
//! same-priority emissions is preserved.  A handler that must see a
//! just-derived message processed before anything already queued inserts it
//! at the front instead.

use vstd::prelude::*;
use crate::messages::Message;

verus! {

/// An ordered sequence of messages, viewed as the `Seq` of its contents with
/// the front at index zero.
pub struct MessageQueue {
    items: Vec<Message>,
}

impl MessageQueue {
    /// The queue's contents, front first.
    pub closed spec fn view(self) -> Seq<Message> {
        self.items@
    }

    /// Creates an empty queue.
    pub fn new() -> (r: MessageQueue)
        ensures
            r@ == Seq::<Message>::empty(),
    {
        MessageQueue { items: Vec::new() }
    }

    /// The number of queued messages.
    pub fn len(&self) -> (r: usize)
        ensures
            r == self@.len(),
    {
        self.items.len()
    }

    /// Appends `m` behind everything queued: normal causal order.
    pub fn add(&mut self, m: Message)
        ensures
            final(self)@ == old(self)@.push(m),
    {
        self.items.push(m);
    }

    /// Inserts `m` as the next message to process, ahead of everything
    /// queued: priority re-injection.
    pub fn add_front(&mut self, m: Message)
        ensures
            final(self)@ == seq![m] + old(self)@,
    {
        self.items.insert(0, m);
        proof {
            assert(self.items@ =~= seq![m] + old(self)@);
        }
    }

    /// Removes and returns the front message, or `None` when the queue is
    /// empty.
    pub fn pop_front(&mut self) -> (r: Option<Message>)
        ensures
            old(self)@.len() == 0 ==> r is None && final(self)@ == old(self)@,
            old(self)@.len() > 0 ==> r == Some(old(self)@[0]) && final(self)@ == old(
                self,
            )@.subrange(1, old(self)@.len() as int),
    {
        if self.items.len() == 0 {
            None
        } else {
            let m = self.items.remove(0);
            Some(m)
        }
    }
}

} // verus!
