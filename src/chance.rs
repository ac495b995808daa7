//! Uniform random draws.
use rand::Rng;
use vstd::prelude::*;

verus! {

/// Relies on `rand::Rng::gen_range` over the inclusive range `0..=n` of the
/// thread-local generator: it returns a value of that range, which is never
/// empty here, so it does not panic.
#[verifier::external_body]
pub(crate) fn random_up_to(n: u32) -> (r: u32)
    ensures
        r <= n,
{
    rand::thread_rng().gen_range(0..=n)
}

} // verus!
