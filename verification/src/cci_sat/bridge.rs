//! Bridge protocols.

use vstd::prelude::*;

verus! {

/// Bridge implementation.
pub struct Bridge;

/// Bridge protocol definition.
pub struct BridgeProtocol;

/// Fraud proof mechanism.
pub struct FraudProof;

impl Bridge {
    /// Creates a new bridge.
    pub fn new() -> (r: Self) {
        Bridge
    }
}

} // verus!
