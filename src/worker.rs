use vstd::prelude::*;
use crate::access::AccessOutcome;
use crate::queue::{SendOutcome, UpdateQueue};
use crate::update::CompletionUpdate;

verus! {

/// Where a worker stands in serving its request.
pub enum Phase {
    /// In line for exclusive access to the engine.
    Waiting,
    /// Holding access; the engine is producing tokens.
    Generating,
    /// Holding access; the consumer is gone and generation was told to stop.
    Halted,
    /// Done: nothing more will be sent for this request.
    Finished,
}

/// What the worker tells the engine, or itself, after offering an update.
pub enum Feedback {
    /// The update was queued: the engine goes on.
    Continue,
    /// The queue is full: wait for the consumer, then offer this update again.
    Retry(CompletionUpdate),
    /// The consumer is gone: the engine stops at once.
    Halt,
}

/// The decision for a send outcome: go on, retry the same update, or halt.
pub open spec fn feedback_for(o: SendOutcome) -> Feedback {
    match o {
        SendOutcome::Sent => Feedback::Continue,
        SendOutcome::Full(u) => Feedback::Retry(u),
        SendOutcome::Disconnected(_) => Feedback::Halt,
    }
}

/// The message of the terminal update sent when access cannot be had.
pub open spec fn unavailable_message() -> Seq<char> {
    "model unavailable: an earlier generation ended abnormally"@
}

/// The decisions of the worker that serves one request: it waits for exclusive
/// access, wraps each token into an update, reacts to what the queue says, and
/// turns the engine's final result into at most one terminal update.
pub struct Worker {
    ticket: u64,
    phase: Phase,
}

impl Worker {
    /// The ticket of the request in the access slot's line.
    pub closed spec fn spec_ticket(&self) -> u64 {
        self.ticket
    }

    /// The worker's phase.
    pub closed spec fn spec_phase(&self) -> Phase {
        self.phase
    }

    /// Whether the worker holds exclusive access and must give it back.
    pub open spec fn holds_access(&self) -> bool {
        self.spec_phase() is Generating || self.spec_phase() is Halted
    }

    /// A worker in line with ticket `ticket`.
    pub fn new(ticket: u64) -> (w: Worker)
        ensures
            w.spec_ticket() == ticket,
            w.spec_phase() == Phase::Waiting,
    {
        Worker { ticket, phase: Phase::Waiting }
    }

    /// The worker's ticket.
    pub fn ticket(&self) -> (t: u64)
        ensures
            t == self.spec_ticket(),
    {
        self.ticket
    }

    /// Whether the worker is done.
    pub fn is_finished(&self) -> (r: bool)
        ensures
            r == (self.spec_phase() is Finished),
    {
        match self.phase {
            Phase::Finished => true,
            _ => false,
        }
    }

    /// Takes the slot's answer. Granted: generation starts. Wait: nothing
    /// changes. Poisoned: the request ends at once with a terminal update that
    /// says so, instead of hanging or touching the engine.
    pub fn on_access(&mut self, o: AccessOutcome) -> (r: Option<CompletionUpdate>)
        requires
            old(self).spec_phase() == Phase::Waiting,
        ensures
            final(self).spec_ticket() == old(self).spec_ticket(),
            o == AccessOutcome::Granted ==> r is None && final(self).spec_phase() == Phase::Generating,
            o == AccessOutcome::Wait ==> r is None && final(self).spec_phase() == Phase::Waiting,
            o == AccessOutcome::Poisoned ==> final(self).spec_phase() == Phase::Finished
                && r is Some && r.unwrap().delta@ == Seq::<char>::empty()
                && r.unwrap().err is Some && r.unwrap().err.unwrap()@ == unavailable_message(),
    {
        match o {
            AccessOutcome::Granted => {
                self.phase = Phase::Generating;
                None
            },
            AccessOutcome::Wait => None,
            AccessOutcome::Poisoned => {
                self.phase = Phase::Finished;
                proof {
                    reveal_strlit("model unavailable: an earlier generation ended abnormally");
                }
                let m = "model unavailable: an earlier generation ended abnormally".to_owned();
                Some(CompletionUpdate::failure(m))
            },
        }
    }

    /// Wraps a token that the engine produced into the update to offer.
    pub fn on_token(&self, token: String) -> (u: CompletionUpdate)
        requires
            self.spec_phase() == Phase::Generating,
        ensures
            u.delta == token,
            u.err is None,
    {
        CompletionUpdate::token(token)
    }

    /// Reacts to the queue's answer to an offered update: go on when it was
    /// queued, offer the same update again when the queue was full, and halt
    /// generation once the consumer is gone.
    pub fn on_send(&mut self, o: SendOutcome) -> (r: Feedback)
        requires
            old(self).spec_phase() == Phase::Generating,
        ensures
            final(self).spec_ticket() == old(self).spec_ticket(),
            r == feedback_for(o),
            final(self).spec_phase() == (if o is Disconnected {
                Phase::Halted
            } else {
                Phase::Generating
            }),
    {
        match o {
            SendOutcome::Sent => Feedback::Continue,
            SendOutcome::Full(u) => Feedback::Retry(u),
            SendOutcome::Disconnected(_) => {
                self.phase = Phase::Halted;
                Feedback::Halt
            },
        }
    }

    /// Offers `u` to the queue and reacts to its answer in one step: the
    /// queue changes exactly as `try_send` says, and the feedback is the one
    /// that `on_send` gives for that answer.
    pub fn offer(&mut self, q: &mut UpdateQueue, u: CompletionUpdate) -> (r: Feedback)
        requires
            old(self).spec_phase() == Phase::Generating,
            old(q).wf(),
            old(q).spec_sender_open(),
        ensures
            final(q).wf(),
            final(self).spec_ticket() == old(self).spec_ticket(),
            r == feedback_for(old(q).send_result(u)),
            final(self).spec_phase() == (if r is Halt {
                Phase::Halted
            } else {
                Phase::Generating
            }),
            final(q).spec_capacity() == old(q).spec_capacity(),
            final(q).spec_sender_open() == old(q).spec_sender_open(),
            final(q).spec_receiver_open() == old(q).spec_receiver_open(),
            final(q).received() == old(q).received(),
            r is Continue ==> final(q).sent() == old(q).sent().push(u)
                && final(q).pending() == old(q).pending().push(u),
            !(r is Continue) ==> final(q).sent() == old(q).sent()
                && final(q).pending() == old(q).pending(),
    {
        let o = q.try_send(u);
        self.on_send(o)
    }

    /// Takes the engine's final result, `Err` with its message on failure. A
    /// failure while the consumer is still there becomes exactly one terminal
    /// update; a success, or the stop that the worker itself asked for, ends
    /// the stream with no further update. The worker is then finished and
    /// gives access back.
    pub fn on_engine_done(&mut self, result: Result<(), String>) -> (r: Option<CompletionUpdate>)
        requires
            old(self).holds_access(),
        ensures
            final(self).spec_ticket() == old(self).spec_ticket(),
            final(self).spec_phase() == Phase::Finished,
            old(self).spec_phase() is Halted ==> r is None,
            old(self).spec_phase() is Generating ==> match result {
                Ok(()) => r is None,
                Err(m) => r is Some && r.unwrap().delta@ == Seq::<char>::empty()
                    && r.unwrap().err == Some(m),
            },
    {
        let r = match self.phase {
            Phase::Halted => None,
            _ => match result {
                Ok(()) => None,
                Err(m) => Some(CompletionUpdate::failure(m)),
            },
        };
        self.phase = Phase::Finished;
        r
    }
}

/// Cancellation is prompt: once the consumer is gone, the very next token the
/// engine produces is answered with `Halt`, so the worker stops and gives
/// access back after one token step, not after the rest of the generation.
pub proof fn lemma_halt_after_disconnect(q: UpdateQueue, u: CompletionUpdate)
    requires
        q.wf(),
        !q.spec_receiver_open(),
    ensures
        feedback_for(q.send_result(u)) == Feedback::Halt,
{
}

} // verus!
