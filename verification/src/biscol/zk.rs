//! Zero-knowledge proof support.

use vstd::prelude::*;

verus! {

/// Zero-knowledge proof implementation.
pub struct ZkProof;

impl ZkProof {
    /// Creates a new zero-knowledge proof.
    pub fn new() -> (r: Self) {
        ZkProof
    }
}

} // verus!
