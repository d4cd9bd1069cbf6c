//! The random draws of the weather, taken from a seeded ChaCha stream of nanorand.

use vstd::prelude::*;
use nanorand::Rng;

verus! {

/// nanorand's ChaCha generator, carried through opaque.
#[verifier::external_type_specification]
#[verifier::external_body]
pub struct ExChaCha<const ROUNDS: u8>(nanorand::ChaCha<ROUNDS>);

/// The stream that drives a session's weather.
pub type Stream = nanorand::ChaCha<20>;

/// Relies on nanorand's `generate_range` for `u32` over `lo..=hi`: for an unsigned type
/// and an inclusive upper bound below the type's maximum the value lies in the range.
#[verifier::external_body]
pub(crate) fn draw(rng: &mut Stream, lo: u32, hi: u32) -> (r: u32)
    requires
        lo <= hi < u32::MAX,
    ensures
        lo <= r <= hi,
{
    rng.generate_range(lo..=hi)
}

/// Highest value of a chance roll: chances are counted out of 100000.
pub const ROLL_MAX: u32 = 100000;

/// A chance roll, in 0..=100000.
pub(crate) fn roll(rng: &mut Stream) -> (r: u32)
    ensures
        r <= 100000,
{
    draw(rng, 0, ROLL_MAX)
}

/// The size of a temperature step, in 1..=max.
pub(crate) fn roll_magnitude(rng: &mut Stream, max: u8) -> (r: u8)
    requires
        1 <= max,
    ensures
        1 <= r <= max,
{
    draw(rng, 1, max as u32) as u8
}

/// Relies on nanorand's `generate::<bool>`: a fair coin, of which nothing is promised.
#[verifier::external_body]
pub(crate) fn coin(rng: &mut Stream) -> (r: bool)
{
    rng.generate::<bool>()
}

} // verus!
