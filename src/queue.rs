use std::collections::VecDeque;
use vstd::prelude::*;
use crate::update::CompletionUpdate;

verus! {

/// What became of an update offered to the queue.
pub enum SendOutcome {
    /// The update was appended behind every earlier one.
    Sent,
    /// The queue is at capacity: the update is handed back, and the producer
    /// must wait for the consumer and offer it again.
    Full(CompletionUpdate),
    /// The consumer is gone: the update is handed back and nobody will read it.
    Disconnected(CompletionUpdate),
}

/// What the consumer found when it looked at the queue.
pub enum RecvOutcome {
    /// The oldest update not yet received.
    Item(CompletionUpdate),
    /// Nothing is queued yet, but the producer may still send.
    Empty,
    /// Nothing is queued and the producer has closed its side.
    Closed,
}

/// A bounded, ordered, single-producer single-consumer queue of updates.
pub struct UpdateQueue {
    items: VecDeque<CompletionUpdate>,
    capacity: usize,
    sender_open: bool,
    receiver_open: bool,
    sent: Ghost<Seq<CompletionUpdate>>,
    received: Ghost<Seq<CompletionUpdate>>,
}

impl UpdateQueue {
    /// The updates queued and not yet received, oldest first.
    pub closed spec fn pending(&self) -> Seq<CompletionUpdate> {
        self.items@
    }

    /// The fixed number of updates that the queue can hold at once.
    pub closed spec fn spec_capacity(&self) -> nat {
        self.capacity as nat
    }

    /// Whether the producer may still send.
    pub closed spec fn spec_sender_open(&self) -> bool {
        self.sender_open
    }

    /// Whether the consumer is still there.
    pub closed spec fn spec_receiver_open(&self) -> bool {
        self.receiver_open
    }

    /// Every update that the queue has accepted, in the order accepted.
    pub closed spec fn sent(&self) -> Seq<CompletionUpdate> {
        self.sent@
    }

    /// Every update that the consumer has taken out, in the order taken.
    pub closed spec fn received(&self) -> Seq<CompletionUpdate> {
        self.received@
    }

    /// The queue never holds more than its capacity, and what was accepted is
    /// what was received followed by what is pending.
    pub closed spec fn wf(&self) -> bool {
        &&& self.capacity > 0
        &&& self.items@.len() <= self.capacity
        &&& self.sent@ == self.received@ + self.items@
    }

    /// What offering `u` now yields: `Disconnected` with the consumer gone,
    /// `Full` at capacity, `Sent` otherwise.
    pub open spec fn send_result(&self, u: CompletionUpdate) -> SendOutcome {
        if !self.spec_receiver_open() {
            SendOutcome::Disconnected(u)
        } else if self.pending().len() >= self.spec_capacity() {
            SendOutcome::Full(u)
        } else {
            SendOutcome::Sent
        }
    }

    /// An empty queue, open on both sides, that holds up to `capacity` updates.
    pub fn new(capacity: usize) -> (q: UpdateQueue)
        requires
            capacity > 0,
        ensures
            q.wf(),
            q.spec_capacity() == capacity,
            q.pending() == Seq::<CompletionUpdate>::empty(),
            q.sent() == Seq::<CompletionUpdate>::empty(),
            q.received() == Seq::<CompletionUpdate>::empty(),
            q.spec_sender_open(),
            q.spec_receiver_open(),
    {
        UpdateQueue {
            items: VecDeque::new(),
            capacity,
            sender_open: true,
            receiver_open: true,
            sent: Ghost(Seq::empty()),
            received: Ghost(Seq::empty()),
        }
    }

    /// The number of updates pending.
    pub fn len(&self) -> (n: usize)
        requires
            self.wf(),
        ensures
            n == self.pending().len(),
    {
        self.items.len()
    }

    /// The queue's capacity.
    pub fn capacity(&self) -> (n: usize)
        ensures
            n == self.spec_capacity(),
    {
        self.capacity
    }

    /// Whether the consumer is still there.
    pub fn receiver_open(&self) -> (r: bool)
        ensures
            r == self.spec_receiver_open(),
    {
        self.receiver_open
    }

    /// Whether the producer may still send.
    pub fn sender_open(&self) -> (r: bool)
        ensures
            r == self.spec_sender_open(),
    {
        self.sender_open
    }

    /// Offers `u` to the queue. With the consumer gone the update comes back as
    /// `Disconnected`; at capacity it comes back as `Full` and nothing changes,
    /// so no update is ever dropped or overtaken; otherwise it is appended.
    pub fn try_send(&mut self, u: CompletionUpdate) -> (r: SendOutcome)
        requires
            old(self).wf(),
            old(self).spec_sender_open(),
        ensures
            final(self).wf(),
            final(self).spec_capacity() == old(self).spec_capacity(),
            final(self).spec_sender_open() == old(self).spec_sender_open(),
            final(self).spec_receiver_open() == old(self).spec_receiver_open(),
            final(self).received() == old(self).received(),
            r == old(self).send_result(u),
            !old(self).spec_receiver_open() ==> r == SendOutcome::Disconnected(u)
                && *final(self) == *old(self),
            old(self).spec_receiver_open() && old(self).pending().len() >= old(self).spec_capacity()
                ==> r == SendOutcome::Full(u) && *final(self) == *old(self),
            old(self).spec_receiver_open() && old(self).pending().len() < old(self).spec_capacity()
                ==> r == SendOutcome::Sent
                && final(self).pending() == old(self).pending().push(u)
                && final(self).sent() == old(self).sent().push(u),
    {
        if !self.receiver_open {
            SendOutcome::Disconnected(u)
        } else if self.items.len() >= self.capacity {
            SendOutcome::Full(u)
        } else {
            proof {
                self.sent@ = self.sent@.push(u);
            }
            self.items.push_back(u);
            proof {
                assert(self.sent@ =~= self.received@ + self.items@);
            }
            SendOutcome::Sent
        }
    }

    /// Takes the oldest pending update. With none pending the result is `Closed`
    /// once the producer has closed its side, and `Empty` before.
    pub fn try_recv(&mut self) -> (r: RecvOutcome)
        requires
            old(self).wf(),
        ensures
            final(self).wf(),
            final(self).spec_capacity() == old(self).spec_capacity(),
            final(self).spec_sender_open() == old(self).spec_sender_open(),
            final(self).spec_receiver_open() == old(self).spec_receiver_open(),
            final(self).sent() == old(self).sent(),
            old(self).pending().len() > 0 ==> r == RecvOutcome::Item(old(self).pending()[0])
                && final(self).pending() == old(self).pending().drop_first()
                && final(self).received() == old(self).received().push(old(self).pending()[0]),
            old(self).pending().len() == 0 ==> final(self).pending() == old(self).pending()
                && final(self).received() == old(self).received()
                && r == (if old(self).spec_sender_open() {
                    RecvOutcome::Empty
                } else {
                    RecvOutcome::Closed
                }),
    {
        match self.items.pop_front() {
            Some(u) => {
                proof {
                    assert(self.sent@ =~= self.received@.push(u) + self.items@);
                    self.received@ = self.received@.push(u);
                }
                RecvOutcome::Item(u)
            },
            None => {
                if self.sender_open {
                    RecvOutcome::Empty
                } else {
                    RecvOutcome::Closed
                }
            },
        }
    }

    /// The producer is done: no further update will be sent.
    pub fn close_sender(&mut self)
        requires
            old(self).wf(),
        ensures
            final(self).wf(),
            !final(self).spec_sender_open(),
            final(self).spec_receiver_open() == old(self).spec_receiver_open(),
            final(self).spec_capacity() == old(self).spec_capacity(),
            final(self).pending() == old(self).pending(),
            final(self).sent() == old(self).sent(),
            final(self).received() == old(self).received(),
    {
        self.sender_open = false;
    }

    /// The consumer is gone: every later send is refused.
    pub fn close_receiver(&mut self)
        requires
            old(self).wf(),
        ensures
            final(self).wf(),
            !final(self).spec_receiver_open(),
            final(self).spec_sender_open() == old(self).spec_sender_open(),
            final(self).spec_capacity() == old(self).spec_capacity(),
            final(self).pending() == old(self).pending(),
            final(self).sent() == old(self).sent(),
            final(self).received() == old(self).received(),
    {
        self.receiver_open = false;
    }
}

/// Delivery is exact: at every moment the updates received are a prefix of the
/// updates sent, and the rest are pending in order; once nothing is pending, the
/// consumer has received every update sent, each once, in the order sent.
pub proof fn lemma_delivery_in_order(q: UpdateQueue)
    requires
        q.wf(),
    ensures
        q.sent() == q.received() + q.pending(),
        q.received() == q.sent().subrange(0, q.received().len() as int),
        q.pending().len() == 0 ==> q.received() == q.sent(),
{
    assert(q.received() + q.pending() == q.sent());
    assert(q.received() =~= q.sent().subrange(0, q.received().len() as int));
    if q.pending().len() == 0 {
        assert(q.received() + q.pending() =~= q.received());
    }
}

} // verus!
