use rand::Rng;
use vstd::prelude::*;

verus! {

/// Relies on rand::Rng::gen_range over rand::thread_rng: a value drawn from `lo..hi`.
/// The range must not be empty, where gen_range panics.
#[verifier::external_body]
pub(crate) fn random_range(lo: usize, hi: usize) -> (r: usize)
    requires
        lo < hi,
    ensures
        lo <= r < hi,
{
    rand::thread_rng().gen_range(lo..hi)
}

/// Relies on rand::Rng::gen_ratio over rand::thread_rng: `true` with probability
/// `num / den`. gen_ratio panics unless `0 < den` and `num <= den`.
#[verifier::external_body]
pub(crate) fn random_ratio(num: u32, den: u32) -> (r: bool)
    requires
        0 < den,
        num <= den,
{
    rand::thread_rng().gen_ratio(num, den)
}

} // verus!
