use rand::Rng;
use vstd::prelude::*;

verus! {

/// Relies on `rand::Rng::gen_range` on the thread-local generator
/// (`rand::thread_rng`): the value lies in `[lo, hi)`; the call panics on an
/// empty range, which `requires` leaves out.
#[verifier::external_body]
pub(crate) fn random_below(lo: u16, hi: u16) -> (r: u16)
    requires
        lo < hi,
    ensures
        lo <= r < hi,
{
    rand::thread_rng().gen_range(lo..hi)
}

} // verus!
