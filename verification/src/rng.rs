//! The randomness source for the collision jitter.
//!
//! The core consumes a uniform generator; its seeding and determinism are an
//! external concern.  Nothing is promised of a drawn value beyond its range,
//! and everything downstream of a draw is verified for every value of it.

use vstd::prelude::*;
use rand::Rng;

verus! {

/// A handle on the process-wide random generator.
pub struct RandomGen;

impl RandomGen {
    /// Relies on rand::thread_rng and rand::Rng::gen: a uniformly random
    /// machine word; nothing can be promised of its value.
    #[verifier::external_body]
    pub fn next_usize(&self) -> usize {
        rand::thread_rng().gen::<usize>()
    }

    /// A rotation jitter drawn uniformly from `[-FX_ONE/2, FX_ONE/2)`: the
    /// random word reduced to one fixed-point unit and centred on zero.
    pub fn next_jitter(&self) -> (j: i64)
        ensures
            -500 <= j < 500,
    {
        let u = self.next_usize();
        let m = (u % 1000) as i64;
        m - 500
    }
}

} // verus!
