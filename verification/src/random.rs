//! The random source: the generator of the current thread, from the `rand`
//! crate. Nothing here is proved; each contract states what `rand` documents.

use rand::Rng;
use vstd::prelude::*;

verus! {

/// `rand::rngs::ThreadRng`, the handle to the generator that `rand` keeps for
/// each thread. Contracts cannot see inside it.
#[verifier::external_type_specification]
#[verifier::external_body]
pub struct ExThreadRng(rand::rngs::ThreadRng);

/// Calls `rand::thread_rng`, which hands out the generator of the current
/// thread, seeding it from the operating system at its first use on the
/// thread (and giving up where the system has no randomness to offer).
/// Nothing is claimed of the generator.
#[verifier::external_body]
pub(crate) fn thread_generator() -> rand::rngs::ThreadRng {
    rand::thread_rng()
}

/// Calls `Rng::gen_range` with the half-open range `low..high`. It panics on
/// an empty range, hence the `requires`. The contract claims that the number
/// drawn lies in the range, and nothing of which number it is.
#[verifier::external_body]
pub(crate) fn draw_in_range(
    generator: &mut rand::rngs::ThreadRng,
    low: i64,
    high: i64,
) -> (drawn: i64)
    requires
        low < high,
    ensures
        low <= drawn < high,
{
    generator.gen_range(low..high)
}

/// Calls `Rng::gen_ratio`, which returns `true` with a probability of
/// `numerator / denominator`. It panics on a zero denominator and on a ratio
/// above one, hence the `requires`. The contract claims what is documented of
/// the two certain cases, and nothing of any other.
#[verifier::external_body]
pub(crate) fn draw_with_ratio(
    generator: &mut rand::rngs::ThreadRng,
    numerator: u32,
    denominator: u32,
) -> (drawn: bool)
    requires
        denominator > 0,
        numerator <= denominator,
    ensures
        numerator == denominator ==> drawn,
        numerator == 0 ==> !drawn,
{
    generator.gen_ratio(numerator, denominator)
}

} // verus!
