use vstd::prelude::*;

verus! {

/// The standard pseudorandom generator of the rand crate. Opaque to the
/// verifier: values drawn through it carry no promise beyond their
/// bounds, so everything built from a draw is verified for every value
/// the draw can take.
#[verifier::external_type_specification]
#[verifier::external_body]
pub struct ExStdRng(rand::rngs::StdRng);

/// Relies on rand's RngExt::random_range over `0..bound`: the range is
/// non-empty by the precondition, and the draw lies within it. Nothing
/// else is promised of a random value.
#[verifier::external_body]
pub(crate) fn draw_below(rng: &mut rand::rngs::StdRng, bound: usize) -> (r: usize)
    requires
        bound >= 1,
    ensures
        r < bound,
{
    <rand::rngs::StdRng as rand::RngExt>::random_range(rng, 0..bound)
}

} // verus!
