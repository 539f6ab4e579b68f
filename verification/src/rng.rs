//! The one source of randomness: a coin flip for the initial fill.

use vstd::prelude::*;

verus! {

/// Relies on rand::random::<bool>: an independent fair coin flip from the
/// thread's generator. Nothing is promised of the value; every caller must
/// hold for both outcomes.
#[verifier::external_body]
pub(crate) fn random_bool() -> bool {
    rand::random::<bool>()
}

} // verus!
