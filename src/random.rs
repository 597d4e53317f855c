use rand::Rng;
use vstd::prelude::*;

verus! {

/// Relies on `rand::Rng::gen_range` over `0..n` with the thread-local
/// generator: a uniform draw below `n` (it panics on an empty range, which
/// `n > 0` excludes).
#[verifier::external_body]
pub(crate) fn random_below(n: u32) -> (r: u32)
    requires
        n > 0,
    ensures
        r < n,
{
    rand::thread_rng().gen_range(0..n)
}

} // verus!

verus! {

/// Relies on `rand::Rng::gen` for `[u64; 2]` with the thread-local
/// generator: two independent uniform words, one fresh draw per call.
#[verifier::external_body]
pub(crate) fn random_words() -> (r: [u64; 2]) {
    rand::thread_rng().gen::<[u64; 2]>()
}

/// Relies on `rand::Rng::gen` for `u8` with the thread-local generator.
#[verifier::external_body]
pub(crate) fn random_byte() -> (r: u8) {
    rand::thread_rng().gen::<u8>()
}

} // verus!
