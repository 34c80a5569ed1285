//! Draws of randomness, each behind a trusted wrapper. Nothing is assumed
//! of a random value beyond the range the generator is asked for.

use vstd::prelude::*;

verus! {

/// Relies on rand::Rng::gen_range over rand::thread_rng: a uniform sample
/// within the half-open range it is given.
#[verifier::external_body]
pub(crate) fn generate_code() -> (code: u32)
    ensures
        100_000 <= code <= 999_999,
{
    rand::Rng::gen_range(&mut rand::thread_rng(), 100_000..1_000_000)
}

/// Relies on rand::random: an arbitrary 32-bit value.
#[verifier::external_body]
pub(crate) fn random_u32() -> (r: u32)
{
    rand::random::<u32>()
}

/// Relies on rand::random to draw 32 arbitrary bytes.
#[verifier::external_body]
pub(crate) fn random_secret_bytes() -> (r: Vec<u8>)
    ensures
        r@.len() == 32,
{
    let bytes: [u8; 32] = rand::random();
    bytes.to_vec()
}

} // verus!
