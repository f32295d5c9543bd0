use vstd::prelude::*;

use crate::weapon::Weapon;
use rg3d_core::pool::Handle;
use std::collections::VecDeque;

verus! {

/// A gameplay event handed from input handling to the simulation step.
#[derive(Clone, Copy, Debug, PartialEq, Eq)]
pub enum Message {
    ShootWeapon { weapon: Handle<Weapon> },
}

/// First-in first-out queue of messages: each posted message is received once, in the
/// order of posting.
pub struct MessageQueue {
    items: VecDeque<Message>,
}

impl View for MessageQueue {
    type V = Seq<Message>;

    closed spec fn view(&self) -> Seq<Message> {
        self.items@
    }
}

impl MessageQueue {
    pub fn new() -> (r: MessageQueue)
        ensures
            r@ == Seq::<Message>::empty(),
    {
        MessageQueue { items: VecDeque::new() }
    }

    /// Appends `message` behind every message not yet received.
    pub fn send(&mut self, message: Message)
        ensures
            final(self)@ == old(self)@.push(message),
    {
        self.items.push_back(message);
    }

    /// Takes the oldest message not yet received, if any.
    pub fn try_recv(&mut self) -> (r: Option<Message>)
        ensures
            old(self)@.len() == 0 ==> r.is_none() && final(self)@ == old(self)@,
            old(self)@.len() > 0 ==> r == Some(old(self)@[0]) && final(self)@ == old(
                self,
            )@.drop_first(),
    {
        self.items.pop_front()
    }

    pub fn len(&self) -> (r: usize)
        ensures
            r == self@.len(),
    {
        self.items.len()
    }

    /// Takes every message not yet received, oldest first.
    pub fn drain(&mut self) -> (r: Vec<Message>)
        ensures
            r@ == old(self)@,
            final(self)@ == Seq::<Message>::empty(),
    {
        let mut out: Vec<Message> = Vec::new();
        let ghost start = self@;
        while self.len() > 0
            invariant
                out@ + self@ == start,
            decreases self@.len(),
        {
            if let Some(m) = self.try_recv() {
                out.push(m);
                assert(out@ + self@ =~= start);
            }
        }
        assert(out@ =~= start);
        out
    }
}

/// Whatever sends and receives interleave, the messages received so far followed by
/// those still queued are exactly the messages sent, in order: sending appends to both
/// sides, and receiving hands out the oldest queued message and moves it from the queue
/// to the received ones. So every message is received once, in the order of sending.
pub proof fn lemma_fifo(received: Seq<Message>, queued: Seq<Message>, m: Message)
    ensures
        (received + queued).push(m) == received + queued.push(m),
        queued.len() > 0 ==> received.push(queued[0]) + queued.drop_first() == received
            + queued,
{
    assert((received + queued).push(m) =~= received + queued.push(m));
    if queued.len() > 0 {
        assert(received.push(queued[0]) + queued.drop_first() =~= received + queued);
    }
}

} // verus!
