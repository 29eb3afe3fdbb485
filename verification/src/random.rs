use vstd::prelude::*;

verus! {

/// Relies on fastrand::u8 over the range `0..bound`: the result is drawn
/// below `bound`. The call panics only on an empty range, which the
/// precondition rules out; nothing more can be promised of a random draw.
#[verifier::external_body]
pub(crate) fn random_u8_below(bound: u8) -> (r: u8)
    requires
        bound > 0,
    ensures
        r < bound,
{
    fastrand::u8(..bound)
}

/// Relies on fastrand::usize over the range `0..bound`: the result is drawn
/// below `bound`. The call panics only on an empty range, which the
/// precondition rules out.
#[verifier::external_body]
pub(crate) fn random_usize_below(bound: usize) -> (r: usize)
    requires
        bound > 0,
    ensures
        r < bound,
{
    fastrand::usize(..bound)
}

} // verus!
