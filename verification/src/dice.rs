//! The source of chance: a `rand_chacha::ChaCha8Rng`.

use rand::Rng;
use rand_chacha::ChaCha8Rng;
use vstd::prelude::*;

verus! {

/// `rand_chacha::ChaCha8Rng`, handed through as it is: nothing is stated of
/// what is inside it.
#[verifier::external_type_specification]
#[verifier::external_body]
pub struct ExChaCha8Rng(ChaCha8Rng);

/// `rand::Rng::gen_range` on `low..high`: some number from `low` up to, but
/// not including, `high`. Which one is not stated. The range must hold a
/// number.
#[verifier::external_body]
pub(crate) fn roll(rng: &mut ChaCha8Rng, low: i32, high: i32) -> (r: i32)
    requires
        low < high,
    ensures
        low <= r < high,
{
    rng.gen_range(low..high)
}

} // verus!
