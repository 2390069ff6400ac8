use std::collections::VecDeque;
use vstd::prelude::*;

verus! {

/// The answer to a request that asks for exclusive access to the engine.
pub enum AccessOutcome {
    /// The request now holds exclusive access.
    Granted,
    /// Another request holds access or is ahead in line: wait and ask again.
    Wait,
    /// A holder ended abnormally: the engine's state cannot be trusted and
    /// every request fails at once.
    Poisoned,
}

/// The single slot of exclusive access to the engine, with a first-come,
/// first-served line of waiting requests, each known by its ticket.
pub struct AccessSlot {
    holder: Option<u64>,
    waiting: VecDeque<u64>,
    next_ticket: u64,
    poisoned: bool,
}

impl AccessSlot {
    /// The ticket of the request that holds access, if any.
    pub closed spec fn spec_holder(&self) -> Option<u64> {
        self.holder
    }

    /// The tickets of the waiting requests, first in line first.
    pub closed spec fn line(&self) -> Seq<u64> {
        self.waiting@
    }

    /// The ticket that the next request to join will get.
    pub closed spec fn spec_next_ticket(&self) -> u64 {
        self.next_ticket
    }

    /// Whether a holder ended abnormally.
    pub closed spec fn spec_poisoned(&self) -> bool {
        self.poisoned
    }

    /// Tickets are handed out in increasing order and never twice: the line is
    /// in ticket order, and the holder came before everyone in line.
    pub closed spec fn wf(&self) -> bool {
        &&& forall|i: int, j: int|
            0 <= i < j < self.waiting@.len() ==> self.waiting@[i] < self.waiting@[j]
        &&& forall|i: int| 0 <= i < self.waiting@.len() ==> self.waiting@[i] < self.next_ticket
        &&& self.holder matches Some(h) ==> h < self.next_ticket && forall|i: int|
            0 <= i < self.waiting@.len() ==> h < self.waiting@[i]
    }

    /// Whether the request with ticket `t` holds access.
    pub open spec fn holds(&self, t: u64) -> bool {
        self.spec_holder() == Some(t)
    }

    /// The number of requests that hold access.
    pub open spec fn active_count(&self) -> nat {
        if self.spec_holder() is Some {
            1
        } else {
            0
        }
    }

    /// Whether a request with ticket `t` that asks now is granted access: the
    /// slot is not poisoned, nobody holds it and `t` is first in line.
    pub open spec fn grants(&self, t: u64) -> bool {
        &&& !self.spec_poisoned()
        &&& self.spec_holder() is None
        &&& self.line().len() > 0
        &&& self.line()[0] == t
    }

    /// A free slot with nobody in line.
    pub fn new() -> (g: AccessSlot)
        ensures
            g.wf(),
            g.spec_holder() is None,
            g.line() == Seq::<u64>::empty(),
            g.spec_next_ticket() == 0,
            !g.spec_poisoned(),
    {
        AccessSlot { holder: None, waiting: VecDeque::new(), next_ticket: 0, poisoned: false }
    }

    /// Puts a new request at the end of the line and returns its ticket; `None`
    /// once every ticket has been handed out, with the slot unchanged.
    pub fn join(&mut self) -> (r: Option<u64>)
        requires
            old(self).wf(),
        ensures
            final(self).wf(),
            final(self).spec_holder() == old(self).spec_holder(),
            final(self).spec_poisoned() == old(self).spec_poisoned(),
            old(self).spec_next_ticket() == u64::MAX ==> r is None
                && final(self).line() == old(self).line()
                && final(self).spec_next_ticket() == old(self).spec_next_ticket(),
            old(self).spec_next_ticket() < u64::MAX ==> r == Some(old(self).spec_next_ticket())
                && final(self).line() == old(self).line().push(old(self).spec_next_ticket())
                && final(self).spec_next_ticket() == old(self).spec_next_ticket() + 1,
    {
        if self.next_ticket == u64::MAX {
            None
        } else {
            let t = self.next_ticket;
            self.waiting.push_back(t);
            self.next_ticket = t + 1;
            Some(t)
        }
    }

    /// Asks for access on behalf of ticket `ticket`. After poisoning every
    /// request fails at once. Otherwise access is granted only when nobody
    /// holds it and the ticket is first in line; everyone else waits.
    pub fn try_acquire(&mut self, ticket: u64) -> (r: AccessOutcome)
        requires
            old(self).wf(),
        ensures
            final(self).wf(),
            final(self).spec_poisoned() == old(self).spec_poisoned(),
            final(self).spec_next_ticket() == old(self).spec_next_ticket(),
            (r == AccessOutcome::Poisoned) == old(self).spec_poisoned(),
            (r == AccessOutcome::Granted) == old(self).grants(ticket),
            r == AccessOutcome::Granted ==> final(self).spec_holder() == Some(ticket)
                && final(self).line() == old(self).line().drop_first(),
            r != AccessOutcome::Granted ==> final(self).spec_holder() == old(self).spec_holder()
                && final(self).line() == old(self).line(),
    {
        if self.poisoned {
            return AccessOutcome::Poisoned;
        }
        if self.holder.is_none() && self.waiting.len() > 0 && self.waiting[0] == ticket {
            let _ = self.waiting.pop_front();
            self.holder = Some(ticket);
            AccessOutcome::Granted
        } else {
            AccessOutcome::Wait
        }
    }

    /// The holder gives access back, having finished or halted normally.
    pub fn release(&mut self, ticket: u64)
        requires
            old(self).wf(),
            old(self).holds(ticket),
        ensures
            final(self).wf(),
            final(self).spec_holder() is None,
            final(self).line() == old(self).line(),
            final(self).spec_poisoned() == old(self).spec_poisoned(),
            final(self).spec_next_ticket() == old(self).spec_next_ticket(),
    {
        self.holder = None;
    }

    /// The holder ended abnormally: access is given back and the slot is
    /// poisoned, so that every later request fails fast instead of hanging.
    pub fn poison(&mut self, ticket: u64)
        requires
            old(self).wf(),
            old(self).holds(ticket),
        ensures
            final(self).wf(),
            final(self).spec_holder() is None,
            final(self).spec_poisoned(),
            final(self).line() == old(self).line(),
            final(self).spec_next_ticket() == old(self).spec_next_ticket(),
    {
        self.holder = None;
        self.poisoned = true;
    }

    /// Whether the slot is poisoned.
    pub fn is_poisoned(&self) -> (r: bool)
        ensures
            r == self.spec_poisoned(),
    {
        self.poisoned
    }

    /// Whether some request holds access.
    pub fn is_held(&self) -> (r: bool)
        ensures
            r == (self.spec_holder() is Some),
    {
        self.holder.is_some()
    }
}

/// At every moment at most one request executes against the engine: two
/// tickets that both hold access are the same ticket.
pub proof fn lemma_at_most_one_active(g: AccessSlot, a: u64, b: u64)
    requires
        g.wf(),
        g.holds(a),
        g.holds(b),
    ensures
        a == b,
        g.active_count() <= 1,
{
}

/// Requests never interleave: while `a` holds access, no request is granted
/// access, whatever its ticket.
pub proof fn lemma_no_overtaking(g: AccessSlot, a: u64, b: u64)
    requires
        g.wf(),
        g.holds(a),
    ensures
        !g.grants(b),
{
}

/// Access goes first come, first served: a request that is granted access
/// holds the smallest ticket in line.
pub proof fn lemma_first_in_line(g: AccessSlot, b: u64)
    requires
        g.wf(),
        g.grants(b),
    ensures
        forall|i: int| 0 <= i < g.line().len() ==> b <= g.line()[i],
{
    assert forall|i: int| 0 <= i < g.line().len() implies b <= g.line()[i] by {
        if i > 0 {
            assert(g.line()[0] < g.line()[i]);
        }
    }
}

} // verus!
