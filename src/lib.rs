//! The streaming bridge between a blocking, single-threaded text generation
//! engine and an asynchronous consumer: completion updates, the bounded queue
//! that carries them, the slot that serialises access to the engine, the
//! per-request worker decisions and the consumer-side relay.
use vstd::prelude::*;

pub mod access;
pub mod queue;
pub mod relay;
pub mod update;
pub mod worker;

verus! {

/// The fixed body of the readiness probe.
pub open spec fn health_body() -> Seq<char> {
    "Service Ready to Accept Traffic!"@
}

/// The readiness probe's body. It reads no shared state, so it answers the
/// same whether or not a generation holds exclusive access.
pub fn health() -> (r: &'static str)
    ensures
        r@ == health_body(),
{
    proof {
        reveal_strlit("Service Ready to Accept Traffic!");
    }
    "Service Ready to Accept Traffic!"
}

} // verus!
