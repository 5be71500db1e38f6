use vstd::prelude::*;

verus! {

/// The thread-local pseudo-random generator of the `rand` crate, declared so
/// that a machine can own one. Verus sees the value as opaque.
#[verifier::external_type_specification]
#[verifier::external_body]
pub struct ExThreadRng(rand::rngs::ThreadRng);

/// Relies on rand::rng: returns a handle to the thread-local generator
/// (it panics only if the operating system cannot seed it).
#[verifier::external_body]
pub(crate) fn fresh_rng() -> rand::rngs::ThreadRng {
    rand::rng()
}

/// Relies on rand::RngExt::random: draws one pseudo-random byte. Nothing is
/// promised of the value; callers must hold for every byte that comes back.
#[verifier::external_body]
pub(crate) fn next_random(rng: &mut rand::rngs::ThreadRng) -> u8 {
    rand::RngExt::random(rng)
}

} // verus!
