//! The source of chance: the thread-local generator of the `rand` crate.
//!
//! Nothing here is proved. Each item below states what `rand` documents of
//! one of its items, and the generator of items rests on those statements.

use vstd::prelude::*;
use rand::Rng;

verus! {

/// `rand::ThreadRng`, the handle to the random number generator of the
/// current thread. Nothing is known of what it holds.
#[verifier::external_type_specification]
#[verifier::external_body]
pub struct ExThreadRng(rand::ThreadRng);

/// `rand::thread_rng` hands out the generator of the current thread, seeded
/// by the system. Nothing is claimed of the generator that comes back.
pub assume_specification[ rand::thread_rng ]() -> (rng: rand::ThreadRng);

/// `rand::Rng::gen_range` on the thread's generator, for `i32`: a value in
/// the half-open range from `low` to `high`. It panics unless `low < high`,
/// so that is required. Which value of the range comes back is left open.
#[verifier::external_body]
pub(crate) fn gen_range(rng: &mut rand::ThreadRng, low: i32, high: i32) -> (n: i32)
    requires
        low < high,
    ensures
        low <= n < high,
{
    rng.gen_range(low, high)
}

} // verus!
