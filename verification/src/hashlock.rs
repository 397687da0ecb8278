//! Sizes of the hash locks of the protocol.

use vstd::prelude::*;

verus! {

/// Length of a preimage that unlocks a hash lock.
pub const PREIMAGE_SIZE: usize = 32;

/// Length of the SHA-256 digest that a hash lock commits to.
pub const HASH_SIZE: usize = 32;

} // verus!
