//! The source of chance: the thread-local generator of the `rand` crate.
use rand::rngs::ThreadRng;
use rand::Rng;
use rand::RngCore;
use vstd::prelude::*;

verus! {

#[verifier::external_type_specification]
#[verifier::external_body]
pub struct ExThreadRng(ThreadRng);

/// `ThreadRng::clone`: another handle to the same generator. Nothing is
/// claimed of it.
pub assume_specification[ <ThreadRng as Clone>::clone ](rng: &ThreadRng) -> ThreadRng;

/// `rand::thread_rng`: a handle to the generator of the current thread. Nothing
/// is claimed of it.
#[verifier::external_body]
pub(crate) fn thread_generator() -> ThreadRng {
    rand::thread_rng()
}

/// `RngCore::next_u64` on the thread's generator: 64 random bits. Nothing is
/// claimed of them.
#[verifier::external_body]
pub(crate) fn next_word(rng: &mut ThreadRng) -> u64 {
    rng.next_u64()
}

/// `Rng::gen_range` on the thread's generator, for the range from 0 up to
/// `bound`, which must not be empty: a number of that range.
#[verifier::external_body]
pub(crate) fn pick_below(rng: &mut ThreadRng, bound: u32) -> (n: u32)
    requires
        bound > 0,
    ensures
        n < bound,
{
    rng.gen_range(0..bound)
}

} // verus!
