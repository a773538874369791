//! The source of random bytes.

use vstd::prelude::*;

verus! {

/// One byte from `rand::random`, which draws it from the thread-local generator of the
/// `rand` crate. Nothing is claimed of the value: any byte may come back, and two calls
/// need not agree.
#[verifier::external_body]
pub(crate) fn random_byte() -> (b: u8) {
    rand::random::<u8>()
}

} // verus!
