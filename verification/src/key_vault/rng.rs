//! Random draws for the allocator, from `rand` and `rand_chacha`.

use vstd::prelude::*;
use rand::{Rng, SeedableRng};
use rand_chacha::ChaCha8Rng;

verus! {

/// `rand_chacha::ChaCha8Rng`, carried as an opaque value.
#[verifier::external_type_specification]
#[verifier::external_body]
pub struct ExChaCha8Rng(ChaCha8Rng);

/// `SeedableRng::try_from_os_rng` for `ChaCha8Rng`: a generator seeded from the
/// operating system's entropy, or nothing when the system gave none. Nothing
/// is claimed of the generator.
#[verifier::external_body]
pub(crate) fn entropy_seeded() -> (rng: Option<ChaCha8Rng>) {
    ChaCha8Rng::try_from_os_rng().ok()
}

/// `Rng::random_range` over `0..bound`: some index below the bound. The call
/// panics on an empty range, so the bound must be positive.
#[verifier::external_body]
pub(crate) fn draw_below(rng: &mut ChaCha8Rng, bound: usize) -> (n: usize)
    requires
        bound > 0,
    ensures
        n < bound,
{
    rng.random_range(0..bound)
}

} // verus!
