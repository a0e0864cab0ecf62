use vstd::prelude::*;

verus! {

/// Relies on `rand::random`: a value drawn from the thread-local generator,
/// which is safe to share across callers. Nothing is promised of the result.
#[verifier::external_body]
pub(crate) fn random_u128() -> u128 {
    rand::random::<u128>()
}

} // verus!
