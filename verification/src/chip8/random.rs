//! The machine's source of random bytes.
use vstd::prelude::*;

verus! {

/// `random_number::random::<u8>`: a byte drawn from the thread's random
/// number generator, anywhere from 0 to 255. Which byte comes is not a
/// matter of the arguments, so nothing is claimed of it. The generator
/// panics if the operating system cannot seed it on first use; nothing a
/// caller passes in decides that.
#[verifier::external_body]
pub(crate) fn random_byte() -> u8 {
    random_number::random::<u8>()
}

} // verus!
