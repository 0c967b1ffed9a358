use vstd::prelude::*;

verus! {

/// `rand::random::<u64>()`: a number drawn from the thread's generator.
/// Nothing is known of it but its type.
#[verifier::external_body]
pub(crate) fn random_u64() -> u64 {
    rand::random::<u64>()
}

} // verus!
