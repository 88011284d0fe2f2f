//! The random source for OAEP seeds: a ChaCha generator that the caller owns,
//! seeded from the operating system when none is given.

use vstd::prelude::*;

verus! {

#[verifier::external_type_specification]
#[verifier::external_body]
pub struct ExStdRng(rand::rngs::StdRng);

#[verifier::external_type_specification]
#[verifier::external_body]
pub struct ExRandError(rand::Error);

/// Relies on `SeedableRng::from_rng` with `OsRng`: a generator seeded from the
/// operating system, or the error of an operating system source that failed.
#[verifier::external_body]
pub(crate) fn os_seeded_rng() -> (r: Result<rand::rngs::StdRng, rand::Error>) {
    <rand::rngs::StdRng as rand::SeedableRng>::from_rng(rand::rngs::OsRng)
}

} // verus!
