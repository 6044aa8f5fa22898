use vstd::prelude::*;
use rand::Rng;

verus! {

/// A source of uniformly distributed integers, injected into the game so
/// that a host may choose the generator and a test may script one.
///
/// The game only ever asks for "an integer drawn from `[0, n)`"; nothing
/// beyond the range of the result is assumed of an implementation.
pub trait RngSource {
    /// Returns an integer in `[0, n)`.
    fn next_below(&mut self, n: u32) -> (r: u32)
        requires
            n >= 1,
        ensures
            r < n,
        ;
}

/// The ambient thread-local generator of the `rand` crate, packaged as an
/// [`RngSource`].
pub struct ThreadRandom;

impl RngSource for ThreadRandom {
    fn next_below(&mut self, n: u32) -> (r: u32) {
        random_below(n)
    }
}

/// Relies on `rand::Rng::gen_range` over the range `0..n`, on the
/// generator returned by `rand::thread_rng`: for a non-empty range it
/// returns a value drawn from the range (it panics only on an empty one).
#[verifier::external_body]
fn random_below(n: u32) -> (r: u32)
    requires
        n >= 1,
    ensures
        r < n,
{
    rand::thread_rng().gen_range(0..n)
}

} // verus!
