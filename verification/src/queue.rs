//! The hand-off queue between the receive loop and the delivery worker.
//!
//! The queue is first in, first out, and never holds more than its capacity.
//! Its overflow policy is backpressure: a payload that meets a full queue is
//! not dropped but handed back, and whoever offered it waits for room and
//! offers it again before taking anything new.

use std::collections::VecDeque;
use vstd::prelude::*;

verus! {

/// The capacity of the queue where nothing else is asked for.
pub const DEFAULT_CAPACITY: usize = 1000;

/// What became of a payload that was offered to the queue.
#[derive(Debug, PartialEq, Eq)]
pub enum Offer {
    /// The payload is in the queue, behind all that were there.
    Queued,
    /// The queue was full. The payload comes back unchanged.
    Full(String),
    /// The queue was closed. The payload comes back unchanged.
    Closed(String),
}

/// What the queue had for the worker.
#[derive(Debug, PartialEq, Eq)]
pub enum Take {
    /// The payload that had waited longest.
    Item(String),
    /// Nothing now, but more may come.
    Empty,
    /// Nothing, and nothing more will come.
    Closed,
}

/// A bounded queue of payloads. Seen as a sequence, the payload that leaves
/// next is the first.
pub struct HandoffQueue {
    items: VecDeque<String>,
    capacity: usize,
    closed: bool,
}

impl View for HandoffQueue {
    type V = Seq<Seq<char>>;

    closed spec fn view(&self) -> Seq<Seq<char>> {
        self.items@.map_values(|payload: String| payload@)
    }
}

impl HandoffQueue {
    #[verifier::type_invariant]
    spec fn well_formed(self) -> bool {
        0 < self.capacity && self.items@.len() <= self.capacity
    }

    /// The number of payloads that the queue can hold.
    pub closed spec fn capacity(self) -> nat {
        self.capacity as nat
    }

    /// Whether the producers have shut the queue.
    pub closed spec fn is_closed(self) -> bool {
        self.closed
    }

    /// An empty, open queue that holds up to `capacity` payloads.
    pub fn new(capacity: usize) -> (queue: Self)
        requires
            capacity > 0,
        ensures
            queue@ == Seq::<Seq<char>>::empty(),
            queue.capacity() == capacity,
            !queue.is_closed(),
    {
        let queue = HandoffQueue { items: VecDeque::new(), capacity, closed: false };
        assert(queue@ =~= Seq::<Seq<char>>::empty());
        queue
    }

    /// The number of payloads that wait.
    pub fn len(&self) -> (len: usize)
        ensures
            len == self@.len(),
            len <= self.capacity(),
    {
        proof {
            use_type_invariant(self);
        }
        self.items.len()
    }

    /// The number of payloads that the queue can hold.
    pub fn limit(&self) -> (limit: usize)
        ensures
            limit == self.capacity(),
            limit > 0,
    {
        proof {
            use_type_invariant(self);
        }
        self.capacity
    }

    /// Whether no payload waits.
    pub fn is_empty(&self) -> (empty: bool)
        ensures
            empty == (self@.len() == 0),
    {
        self.items.len() == 0
    }

    /// Whether the queue has no room for another payload.
    pub fn is_full(&self) -> (full: bool)
        ensures
            full == (self@.len() >= self.capacity()),
    {
        self.items.len() >= self.capacity
    }

    /// Whether the producers have shut the queue.
    pub fn closed(&self) -> (closed: bool)
        ensures
            closed == self.is_closed(),
    {
        self.closed
    }

    /// Offers a payload. It is queued behind all others where the queue is
    /// open and has room; else it comes back unchanged and the queue stays as
    /// it was.
    pub fn enqueue(&mut self, payload: String) -> (offer: Offer)
        ensures
            final(self).capacity() == old(self).capacity(),
            final(self).is_closed() == old(self).is_closed(),
            final(self)@ == enqueued(old(self)@, old(self).capacity(), old(self).is_closed(), payload@),
            old(self).is_closed() ==> offer == Offer::Closed(payload),
            !old(self).is_closed() && old(self)@.len() >= old(self).capacity() ==> offer
                == Offer::Full(payload),
            !old(self).is_closed() && old(self)@.len() < old(self).capacity() ==> offer
                == Offer::Queued,
    {
        proof {
            use_type_invariant(&*self);
        }
        if self.closed {
            Offer::Closed(payload)
        } else if self.items.len() >= self.capacity {
            Offer::Full(payload)
        } else {
            let ghost text = payload@;
            let mut items: VecDeque<String> = VecDeque::new();
            std::mem::swap(&mut self.items, &mut items);
            items.push_back(payload);
            std::mem::swap(&mut self.items, &mut items);
            assert(self@ =~= old(self)@.push(text));
            Offer::Queued
        }
    }

    /// Takes the payload that has waited longest, if there is one. A closed
    /// queue still gives out what it holds.
    pub fn dequeue(&mut self) -> (take: Take)
        ensures
            final(self).capacity() == old(self).capacity(),
            final(self).is_closed() == old(self).is_closed(),
            final(self)@ == dequeued(old(self)@),
            old(self)@.len() > 0 ==> (take matches Take::Item(payload) && payload@ == old(self)@[0]),
            old(self)@.len() == 0 && old(self).is_closed() ==> take == Take::Closed,
            old(self)@.len() == 0 && !old(self).is_closed() ==> take == Take::Empty,
    {
        proof {
            use_type_invariant(&*self);
        }
        let mut items: VecDeque<String> = VecDeque::new();
        std::mem::swap(&mut self.items, &mut items);
        let first = items.pop_front();
        std::mem::swap(&mut self.items, &mut items);
        match first {
            Some(payload) => {
                assert(self@ =~= old(self)@.drop_first());
                Take::Item(payload)
            },
            None => {
                if self.closed {
                    Take::Closed
                } else {
                    Take::Empty
                }
            },
        }
    }

    /// Shuts the queue for good: nothing more is accepted, and what waits
    /// can still be taken.
    pub fn close(&mut self)
        ensures
            final(self).is_closed(),
            final(self).capacity() == old(self).capacity(),
            final(self)@ == old(self)@,
    {
        proof {
            use_type_invariant(&*self);
        }
        self.closed = true;
    }
}

/// The queue after a payload was offered to it.
pub open spec fn enqueued(queue: Seq<Seq<char>>, capacity: nat, closed: bool, payload: Seq<char>) -> Seq<
    Seq<char>,
> {
    if !closed && queue.len() < capacity {
        queue.push(payload)
    } else {
        queue
    }
}

/// The queue after the worker took from it.
pub open spec fn dequeued(queue: Seq<Seq<char>>) -> Seq<Seq<char>> {
    if queue.len() > 0 {
        queue.drop_first()
    } else {
        queue
    }
}

} // verus!
