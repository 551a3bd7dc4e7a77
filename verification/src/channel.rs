//! The bounded queue between the loader tasks and the assembler.

use vstd::prelude::*;
use std::collections::VecDeque;
use crate::message::{Delivery, MessageView, ShaderMessage};

verus! {

/// A message together with the number of the sender handle that sent it.
pub struct Envelope {
    pub sender: usize,
    pub message: ShaderMessage,
}

/// Mathematical content of an envelope.
pub struct Entry {
    pub sender: usize,
    pub message: MessageView,
}

impl View for Envelope {
    type V = Entry;

    open spec fn view(&self) -> Entry {
        Entry { sender: self.sender, message: self.message@ }
    }
}

/// The entries of `entries` that came from `sender`, in their order.
pub open spec fn sent_by(entries: Seq<Entry>, sender: usize) -> Seq<Entry> {
    entries.filter(|e: Entry| e.sender == sender)
}

/// A first-in first-out queue of fixed capacity with several sender handles
/// and one receiver.
///
/// Beside the queue it keeps, as ghost state, everything it ever accepted
/// and everything it ever delivered.
pub struct Channel {
    capacity: usize,
    queue: VecDeque<Envelope>,
    opened: usize,
    live: usize,
    accepted: Ghost<Seq<Entry>>,
    delivered: Ghost<Seq<Entry>>,
}

impl Channel {
    /// The number of slots.
    pub closed spec fn capacity_spec(&self) -> nat {
        self.capacity as nat
    }

    /// The entries that wait in the queue, oldest first.
    pub closed spec fn pending(&self) -> Seq<Entry> {
        self.queue@.map_values(|e: Envelope| e@)
    }

    /// Every entry that was ever accepted, in the order of acceptance.
    pub closed spec fn accepted(&self) -> Seq<Entry> {
        self.accepted@
    }

    /// Every entry that was ever handed to the receiver, in that order.
    pub closed spec fn delivered(&self) -> Seq<Entry> {
        self.delivered@
    }

    /// How many sender handles were ever opened.
    pub closed spec fn opened(&self) -> nat {
        self.opened as nat
    }

    /// How many sender handles are still held.
    pub closed spec fn live(&self) -> nat {
        self.live as nat
    }

    /// The queue respects its capacity, and what was accepted is what was
    /// delivered followed by what still waits.
    pub closed spec fn wf(&self) -> bool {
        &&& self.queue@.len() <= self.capacity
        &&& self.live <= self.opened
        &&& self.accepted@ == self.delivered@ + self.pending()
    }

    /// An empty channel of `capacity` slots, without senders.
    pub fn new(capacity: usize) -> (c: Channel)
        ensures
            c.wf(),
            c.capacity_spec() == capacity,
            c.pending() == Seq::<Entry>::empty(),
            c.accepted() == Seq::<Entry>::empty(),
            c.delivered() == Seq::<Entry>::empty(),
            c.opened() == 0,
            c.live() == 0,
    {
        let c = Channel {
            capacity,
            queue: VecDeque::new(),
            opened: 0,
            live: 0,
            accepted: Ghost(Seq::empty()),
            delivered: Ghost(Seq::empty()),
        };
        assert(c.pending() =~= Seq::<Entry>::empty());
        assert(c.delivered@ + c.pending() =~= c.accepted@);
        c
    }

    /// The number of slots.
    pub fn capacity(&self) -> (n: usize)
        ensures
            n == self.capacity_spec(),
    {
        self.capacity
    }

    /// The number of messages that wait.
    pub fn len(&self) -> (n: usize)
        ensures
            n == self.pending().len(),
    {
        self.queue.len()
    }

    /// Whether a send would be rejected.
    pub fn is_full(&self) -> (b: bool)
        ensures
            b == (self.pending().len() >= self.capacity_spec()),
    {
        self.queue.len() >= self.capacity
    }

    /// The number of sender handles still held.
    pub fn senders(&self) -> (n: usize)
        ensures
            n == self.live(),
    {
        self.live
    }

    /// Opens a sender handle and returns its number. Handles are numbered in
    /// the order of their opening, from zero.
    pub fn open_sender(&mut self) -> (id: Option<usize>)
        requires
            old(self).wf(),
        ensures
            final(self).wf(),
            final(self).capacity_spec() == old(self).capacity_spec(),
            final(self).pending() == old(self).pending(),
            final(self).accepted() == old(self).accepted(),
            final(self).delivered() == old(self).delivered(),
            id is Some <==> old(self).opened() < usize::MAX,
            id matches Some(n) ==> n == old(self).opened() && final(self).opened() == n + 1
                && final(self).live() == old(self).live() + 1,
            id is None ==> final(self).opened() == old(self).opened() && final(self).live() == old(
                self,
            ).live(),
    {
        if self.opened == usize::MAX {
            return None;
        }
        let id = self.opened;
        self.opened = self.opened + 1;
        self.live = self.live + 1;
        Some(id)
    }

    /// Gives one sender handle back. Returns whether there was one to give.
    pub fn release_sender(&mut self) -> (released: bool)
        requires
            old(self).wf(),
        ensures
            final(self).wf(),
            final(self).capacity_spec() == old(self).capacity_spec(),
            final(self).pending() == old(self).pending(),
            final(self).accepted() == old(self).accepted(),
            final(self).delivered() == old(self).delivered(),
            final(self).opened() == old(self).opened(),
            released == (old(self).live() > 0),
            final(self).live() == if released {
                old(self).live() - 1
            } else {
                0
            },
    {
        if self.live == 0 {
            return false;
        }
        self.live = self.live - 1;
        true
    }

    /// Offers a message without waiting. It is accepted exactly when a slot
    /// is free, and then joins the end of the queue. A rejected message comes
    /// back unchanged, for the caller to offer again.
    pub fn try_send(&mut self, sender: usize, message: ShaderMessage) -> (r: Result<
        (),
        ShaderMessage,
    >)
        requires
            old(self).wf(),
        ensures
            final(self).wf(),
            final(self).capacity_spec() == old(self).capacity_spec(),
            final(self).opened() == old(self).opened(),
            final(self).live() == old(self).live(),
            final(self).delivered() == old(self).delivered(),
            r is Ok <==> old(self).pending().len() < old(self).capacity_spec(),
            r is Ok ==> {
                let entry = Entry { sender, message: message@ };
                &&& final(self).pending() == old(self).pending().push(entry)
                &&& final(self).accepted() == old(self).accepted().push(entry)
            },
            r matches Err(back) ==> {
                &&& back@ == message@
                &&& final(self).pending() == old(self).pending()
                &&& final(self).accepted() == old(self).accepted()
            },
    {
        if self.queue.len() >= self.capacity {
            return Err(message);
        }
        let ghost entry = Entry { sender, message: message@ };
        self.queue.push_back(Envelope { sender, message });
        proof {
            self.accepted@ = self.accepted@.push(entry);
            assert(self.pending() =~= old(self).pending().push(entry));
            assert(self.delivered@ + self.pending() =~= self.accepted@);
        }
        Ok(())
    }

    /// Takes the oldest waiting message, if there is one. With an empty queue
    /// the answer is the end of the stream once every sender handle is given
    /// back, and `None` while a sender may still send: the receiver then
    /// suspends and asks again.
    pub fn receive(&mut self) -> (r: Option<Delivery>)
        requires
            old(self).wf(),
        ensures
            final(self).wf(),
            final(self).capacity_spec() == old(self).capacity_spec(),
            final(self).opened() == old(self).opened(),
            final(self).live() == old(self).live(),
            final(self).accepted() == old(self).accepted(),
            old(self).pending().len() > 0 ==> {
                let first = old(self).pending()[0];
                &&& r matches Some(Delivery::Message(m))
                &&& m@ == first.message
                &&& final(self).pending() == old(self).pending().drop_first()
                &&& final(self).delivered() == old(self).delivered().push(first)
            },
            old(self).pending().len() == 0 ==> {
                &&& final(self).pending() == old(self).pending()
                &&& final(self).delivered() == old(self).delivered()
                &&& old(self).live() == 0 ==> r == Some(Delivery::EndOfStream)
                &&& old(self).live() > 0 ==> r is None
            },
    {
        match self.queue.pop_front() {
            Some(envelope) => {
                proof {
                    self.delivered@ = self.delivered@.push(envelope@);
                    assert(self.pending() =~= old(self).pending().drop_first());
                    assert(old(self).pending()[0] == envelope@);
                    assert(self.delivered@ + self.pending() =~= self.accepted@);
                }
                Some(Delivery::Message(envelope.message))
            },
            None => {
                assert(self.pending() =~= old(self).pending());
                if self.live == 0 {
                    Some(Delivery::EndOfStream)
                } else {
                    None
                }
            },
        }
    }
}

/// What was accepted is delivered at most once and in the order of
/// acceptance; with nothing left waiting, all of it was delivered, exactly
/// once.
pub proof fn lemma_delivered_in_order(c: Channel)
    requires
        c.wf(),
    ensures
        c.accepted() == c.delivered() + c.pending(),
        c.delivered().is_prefix_of(c.accepted()),
        c.pending().len() == 0 ==> c.delivered() == c.accepted(),
{
    assert(c.pending().len() == 0 ==> c.delivered() + c.pending() =~= c.delivered());
}

/// Each sender's messages are delivered in the order in which that sender
/// sent them: what was delivered of a sender is the beginning of what was
/// accepted of it, and the rest waits in the same order.
pub proof fn lemma_sender_order_preserved(c: Channel, sender: usize)
    requires
        c.wf(),
    ensures
        sent_by(c.accepted(), sender) == sent_by(c.delivered(), sender) + sent_by(
            c.pending(),
            sender,
        ),
        sent_by(c.delivered(), sender).is_prefix_of(sent_by(c.accepted(), sender)),
{
    Seq::filter_distributes_over_add(c.delivered(), c.pending(), |e: Entry| e.sender == sender);
}

} // verus!
