use vstd::prelude::*;

verus! {

/// One unit sent from a worker to its consumer: a text delta (possibly empty)
/// and, on the terminal update of a failed run, an error message.
pub struct CompletionUpdate {
    pub delta: String,
    pub err: Option<String>,
}

/// The text of the deltas of `s`, joined in order.
pub open spec fn concat_deltas(s: Seq<CompletionUpdate>) -> Seq<char>
    decreases s.len(),
{
    if s.len() == 0 {
        Seq::empty()
    } else {
        concat_deltas(s.drop_last()) + s.last().delta@
    }
}

/// The pieces of `s`, joined in order.
pub open spec fn concat(s: Seq<Seq<char>>) -> Seq<char>
    decreases s.len(),
{
    if s.len() == 0 {
        Seq::empty()
    } else {
        concat(s.drop_last()) + s.last()
    }
}

/// Whether an update ends a stream: it carries an error.
pub open spec fn is_terminal_update(u: CompletionUpdate) -> bool {
    u.err is Some
}

impl CompletionUpdate {
    /// The update that carries one generated token.
    pub fn token(delta: String) -> (u: CompletionUpdate)
        ensures
            u.delta == delta,
            u.err is None,
    {
        CompletionUpdate { delta, err: None }
    }

    /// The terminal update of a failed run: an empty delta and the message.
    pub fn failure(message: String) -> (u: CompletionUpdate)
        ensures
            u.delta@ == Seq::<char>::empty(),
            u.err == Some(message),
    {
        CompletionUpdate { delta: String::new(), err: Some(message) }
    }

    /// Whether this update ends its stream.
    pub fn is_terminal(&self) -> (r: bool)
        ensures
            r == is_terminal_update(*self),
    {
        self.err.is_some()
    }
}

/// The deltas of the token updates of `tokens`, joined, are the tokens joined:
/// wrapping tokens into updates loses, repeats and reorders no text.
pub proof fn lemma_token_deltas_concat(tokens: Seq<Seq<char>>, updates: Seq<CompletionUpdate>)
    requires
        updates.len() == tokens.len(),
        forall|i: int| 0 <= i < tokens.len() ==> (#[trigger] updates[i]).delta@ == tokens[i],
    ensures
        concat_deltas(updates) == concat(tokens),
    decreases tokens.len(),
{
    if tokens.len() > 0 {
        lemma_token_deltas_concat(tokens.drop_last(), updates.drop_last());
    }
}

} // verus!
