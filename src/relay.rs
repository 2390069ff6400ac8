use vstd::prelude::*;
use crate::queue::{RecvOutcome, UpdateQueue};
use crate::update::{CompletionUpdate, concat, concat_deltas, is_terminal_update};

verus! {

/// What the consumer does with what it found in the queue.
pub enum RelayStep {
    /// Push this update to the client as one frame.
    Frame(CompletionUpdate),
    /// Nothing to push yet: suspend until the producer sends or closes.
    Pending,
    /// The response stream ends.
    End,
}

/// The consumer side of one request: it turns each received update into one
/// outbound frame, in order, and ends the stream when the queue closes or
/// right after a terminal error frame.
pub struct Relay {
    ended: bool,
    frames: Ghost<Seq<CompletionUpdate>>,
}

impl Relay {
    /// Whether the stream has ended.
    pub closed spec fn spec_ended(&self) -> bool {
        self.ended
    }

    /// The updates pushed out as frames so far, in order.
    pub closed spec fn frames(&self) -> Seq<CompletionUpdate> {
        self.frames@
    }

    /// A relay that has pushed nothing.
    pub fn new() -> (r: Relay)
        ensures
            !r.spec_ended(),
            r.frames() == Seq::<CompletionUpdate>::empty(),
    {
        Relay { ended: false, frames: Ghost(Seq::empty()) }
    }

    /// Whether the stream has ended.
    pub fn is_ended(&self) -> (r: bool)
        ensures
            r == self.spec_ended(),
    {
        self.ended
    }

    /// Takes the next step straight from the queue: an ended relay leaves the
    /// queue alone; otherwise it receives once and decides as `next` does.
    /// A relay that has pushed exactly what the queue delivered keeps doing so.
    pub fn pull(&mut self, q: &mut UpdateQueue) -> (s: RelayStep)
        requires
            old(q).wf(),
        ensures
            final(q).wf(),
            final(q).sent() == old(q).sent(),
            final(q).spec_capacity() == old(q).spec_capacity(),
            final(q).spec_sender_open() == old(q).spec_sender_open(),
            final(q).spec_receiver_open() == old(q).spec_receiver_open(),
            old(self).spec_ended() ==> s == RelayStep::End && final(self).spec_ended()
                && final(self).frames() == old(self).frames()
                && final(q).pending() == old(q).pending()
                && final(q).received() == old(q).received(),
            !old(self).spec_ended() && old(q).pending().len() > 0 ==> s == RelayStep::Frame(
                old(q).pending()[0],
            ) && final(q).pending() == old(q).pending().drop_first()
                && final(self).frames() == old(self).frames().push(old(q).pending()[0])
                && final(self).spec_ended() == is_terminal_update(old(q).pending()[0]),
            !old(self).spec_ended() && old(q).pending().len() == 0 ==> final(q).pending()
                == old(q).pending() && final(self).frames() == old(self).frames()
                && s == (if old(q).spec_sender_open() {
                    RelayStep::Pending
                } else {
                    RelayStep::End
                }) && final(self).spec_ended() == !old(q).spec_sender_open(),
            old(self).frames() == old(q).received() ==> final(self).frames() == final(q).received(),
    {
        if self.ended {
            return RelayStep::End;
        }
        let r = q.try_recv();
        self.next(r)
    }

    /// Decides the next step from what the queue gave. Once ended, the stream
    /// stays ended. An update becomes one frame, and a terminal one ends the
    /// stream after it; an empty queue suspends; a closed one ends the stream.
    pub fn next(&mut self, r: RecvOutcome) -> (s: RelayStep)
        ensures
            old(self).spec_ended() ==> s == RelayStep::End && final(self).spec_ended()
                && final(self).frames() == old(self).frames(),
            !old(self).spec_ended() ==> match r {
                RecvOutcome::Item(u) => s == RelayStep::Frame(u)
                    && final(self).frames() == old(self).frames().push(u)
                    && final(self).spec_ended() == is_terminal_update(u),
                RecvOutcome::Empty => s == RelayStep::Pending
                    && final(self).frames() == old(self).frames()
                    && !final(self).spec_ended(),
                RecvOutcome::Closed => s == RelayStep::End
                    && final(self).frames() == old(self).frames()
                    && final(self).spec_ended(),
            },
    {
        if self.ended {
            return RelayStep::End;
        }
        match r {
            RecvOutcome::Item(u) => {
                self.ended = u.is_terminal();
                proof {
                    self.frames@ = self.frames@.push(u);
                }
                RelayStep::Frame(u)
            },
            RecvOutcome::Empty => RelayStep::Pending,
            RecvOutcome::Closed => {
                self.ended = true;
                RelayStep::End
            },
        }
    }
}

/// The client sees exactly the engine's text: when the relay has pushed every
/// update the queue delivered, nothing is left pending, and the updates sent
/// carried the engine's tokens one each, the frames' deltas joined are the
/// tokens joined, with nothing lost, repeated or reordered.
pub proof fn lemma_stream_is_exact(
    q: UpdateQueue,
    relay: Relay,
    tokens: Seq<Seq<char>>,
)
    requires
        q.wf(),
        q.pending().len() == 0,
        relay.frames() == q.received(),
        q.sent().len() == tokens.len(),
        forall|i: int| 0 <= i < tokens.len() ==> (#[trigger] q.sent()[i]).delta@ == tokens[i],
    ensures
        relay.frames() == q.sent(),
        concat_deltas(relay.frames()) == concat(tokens),
{
    crate::queue::lemma_delivery_in_order(q);
    crate::update::lemma_token_deltas_concat(tokens, q.sent());
}

} // verus!
