//! The randomness capability handed into every operation that needs one:
//! a seedable generator from the `rand` crate, reached through trusted
//! wrappers that state only what holds of every draw.

use vstd::prelude::*;

verus! {

/// The `rand` crate's seedable standard generator, opaque to the verifier.
/// Callers construct one themselves (for example from a fixed seed, which
/// makes a run replayable) and pass it into each stepping or spawning call.
#[verifier::external_type_specification]
#[verifier::external_body]
pub struct ExStdRng(rand::rngs::StdRng);

/// Relies on `rand::Rng::gen_range` over the half-open range `0..n`: the
/// draw lies in `[0, n)`, and the call returns normally whenever the range
/// is nonempty. Nothing is assumed about which value comes back.
#[verifier::external_body]
pub(crate) fn rand_below(rng: &mut rand::rngs::StdRng, n: u32) -> (r: u32)
    requires
        n > 0,
    ensures
        r < n,
{
    rand::Rng::gen_range(rng, 0..n)
}

} // verus!
