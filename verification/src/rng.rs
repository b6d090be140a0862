//! Source of the randomized serve speeds drawn after each goal: the
//! thread-local generator of the `rand` crate, behind contracts that state
//! only what holds of every draw.

use vstd::prelude::*;

use rand::RngExt;

use crate::model::SERVE_MAX;
use crate::model::SERVE_MIN;

verus! {

#[verifier::external_type_specification]
#[verifier::external_body]
pub struct ExThreadRng(rand::rngs::ThreadRng);

/// The pseudo-random source for serve speeds, owned by the simulation.
pub struct ServeRng {
    rng: rand::rngs::ThreadRng,
}

impl ServeRng {
    /// Relies on rand::rng: a handle to the thread-local generator.
    #[verifier::external_body]
    pub(crate) fn new() -> ServeRng {
        ServeRng { rng: rand::rng() }
    }

    /// Draw one serve-speed component. Relies on RngExt::random_range over a
    /// half-open integer range: the sample lies in `[start, end)`, and the
    /// call panics only on an empty range, which `[SERVE_MIN, SERVE_MAX)`
    /// is not.
    #[verifier::external_body]
    pub(crate) fn serve_component(&mut self) -> (r: i64)
        ensures
            SERVE_MIN <= r < SERVE_MAX,
    {
        self.rng.random_range(SERVE_MIN..SERVE_MAX)
    }
}

} // verus!
