//! The broker's store: a first-in first-out queue of messages.
use vstd::prelude::*;
use std::collections::VecDeque;
use crate::message_broker::payload::{bytes_contents, bytes_from_vec};

verus! {

/// The messages that producers have published and no consumer has taken
/// yet, oldest first.
pub struct MessageQueue {
    items: VecDeque<bytes::Bytes>,
}

impl View for MessageQueue {
    type V = Seq<Seq<u8>>;

    /// Each waiting message by its bytes, oldest first.
    closed spec fn view(&self) -> Seq<Seq<u8>> {
        self.items@.map_values(|b: bytes::Bytes| bytes_contents(b))
    }
}

impl MessageQueue {
    /// An empty queue.
    pub fn new() -> (q: MessageQueue)
        ensures
            q@ == Seq::<Seq<u8>>::empty(),
    {
        let q = MessageQueue { items: VecDeque::new() };
        assert(q@ =~= Seq::<Seq<u8>>::empty());
        q
    }

    /// The number of waiting messages.
    pub fn len(&self) -> (n: usize)
        ensures
            n == self@.len(),
    {
        self.items.len()
    }

    /// Appends a message at the back.
    pub fn push_back(&mut self, message: bytes::Bytes)
        ensures
            final(self)@ == old(self)@.push(bytes_contents(message)),
    {
        self.items.push_back(message);
        assert(self@ =~= old(self)@.push(bytes_contents(message)));
    }

    /// Appends the bytes of `message` at the back.
    pub fn publish(&mut self, message: Vec<u8>)
        ensures
            final(self)@ == old(self)@.push(message@),
    {
        let b = bytes_from_vec(message);
        self.push_back(b);
    }

    /// Removes and returns the oldest message, or `None` when the queue is empty.
    pub fn pop_front(&mut self) -> (m: Option<bytes::Bytes>)
        ensures
            old(self)@.len() == 0 ==> m is None && final(self)@ == old(self)@,
            old(self)@.len() > 0 ==> m is Some
                && bytes_contents(m->0) == old(self)@[0]
                && final(self)@ == old(self)@.drop_first(),
    {
        let m = self.items.pop_front();
        proof {
            if old(self)@.len() > 0 {
                assert(self@ =~= old(self)@.drop_first());
            }
        }
        m
    }
}

} // verus!
