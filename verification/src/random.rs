//! The sources of randomness for a freshly made universe. Nothing in this
//! file is proved: each item states what is taken on trust of the `rand`
//! crate.

use rand::rngs::StdRng;
use rand::rngs::ThreadRng;
use rand::Rng;
use rand::SeedableRng;
use vstd::prelude::*;

verus! {

/// `rand::rngs::ThreadRng`, the handle to the generator that each thread
/// keeps and that the operating system seeds. It is carried through as an
/// opaque value.
#[verifier::external_type_specification]
#[verifier::external_body]
pub struct ExThreadRng(rand::rngs::ThreadRng);

/// `rand::thread_rng` hands out the calling thread's generator. Nothing is
/// claimed of the handle. The first call on a thread seeds the generator and
/// panics where the operating system has no entropy to give.
pub assume_specification[ rand::thread_rng ]() -> (rng: ThreadRng)
;

/// Draws one `bool` from the thread's generator with `Rng::gen`. The value
/// differs from call to call, so nothing is claimed of it.
#[verifier::external_body]
pub(crate) fn random_bool(rng: &mut ThreadRng) -> (bit: bool) {
    rng.gen()
}

/// The first `count` draws of `bool` from a `rand::rngs::StdRng` that was
/// seeded with `seed`. The generator has no other input, so the draws are a
/// function of the two numbers; which draws they are is left open.
pub uninterp spec fn seeded_draws(seed: u64, count: usize) -> Seq<bool>;

/// Seeds a `rand::rngs::StdRng` with `SeedableRng::seed_from_u64` and fills a
/// buffer of `count` places with `Rng::fill`, which draws a `bool` for each
/// place in turn. Claimed: the buffer keeps its length, and the same seed
/// and count give the same draws.
#[verifier::external_body]
pub(crate) fn draw_seeded(seed: u64, count: usize) -> (draws: Vec<bool>)
    ensures
        draws@ == seeded_draws(seed, count),
        draws@.len() == count,
{
    let mut draws = vec![false; count];
    StdRng::seed_from_u64(seed).fill(&mut draws[..]);
    draws
}

} // verus!
