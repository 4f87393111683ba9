//! The stateless random-integer utility the bridge exposes.
//!
//! Sampling itself is the generator's work and is taken on trust through a
//! narrow wrapper; the range check around it, and the bound on every value
//! handed back to the script, are verified.

use vstd::prelude::*;

use crate::error::SdlError;

verus! {

#[verifier::external_type_specification]
#[verifier::external_body]
pub struct ExThreadRng(rand::rngs::ThreadRng);

/// Relies on `rand::rng`: a fresh handle to the thread-local generator.
/// The call aborts the process only if the operating system's entropy
/// source cannot initialize that generator at its first use.
#[verifier::external_body]
fn thread_rng() -> rand::rngs::ThreadRng {
    rand::rng()
}

/// Relies on `rand::Rng::random_range` over an inclusive integer range: the
/// sample always lies within the range, and the call panics only on an
/// empty range, which the precondition rules out.
#[verifier::external_body]
fn sample_inclusive(rng: &mut rand::rngs::ThreadRng, min: i64, max: i64) -> (r: i64)
    requires
        min <= max,
    ensures
        min <= r <= max,
{
    rand::Rng::random_range(rng, min..=max)
}

/// Samples an integer from the inclusive range `[min, max]`: every returned
/// value `v` satisfies `min <= v <= max`. An inverted range (`min > max`)
/// is rejected as a validation error rather than inheriting the sampler's
/// own abort on an empty range.
pub fn rand_range(min: i64, max: i64) -> (r: Result<i64, SdlError>)
    ensures
        min <= max ==> (r matches Ok(v) && min <= v <= max),
        min > max ==> r == Err::<i64, SdlError>(SdlError::EmptyRandomRange),
{
    if min > max {
        return Err(SdlError::EmptyRandomRange);
    }
    let mut rng = thread_rng();
    Ok(sample_inclusive(&mut rng, min, max))
}

} // verus!
