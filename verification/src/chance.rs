//! Random numbers, from the `rand` crate.
use vstd::prelude::*;

verus! {

/// Trusted: calls `rand::random::<u32>()`, which draws from the thread-local
/// generator. Nothing is claimed about the value: any `u32` may come back.
#[verifier::external_body]
pub fn random_u32() -> (r: u32) {
    rand::random::<u32>()
}

} // verus!
