//! Cross-chain protocols.

use vstd::prelude::*;

verus! {

/// Protocol implementation.
pub struct Protocol;

impl Protocol {
    /// Creates a new protocol.
    pub fn new() -> (r: Self) {
        Protocol
    }
}

} // verus!
