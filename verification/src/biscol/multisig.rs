//! Multi-signature support.

use vstd::prelude::*;
use crate::biscol::error::Result;

verus! {

/// Multi-signature configuration.
pub struct MultiSig;

/// Builder for multi-signature setups.
pub struct MultiSigBuilder;

/// Threshold configuration.
pub struct Threshold;

impl MultiSig {
    /// Creates a new multi-signature builder.
    pub fn builder() -> (r: MultiSigBuilder) {
        MultiSigBuilder
    }
}

impl MultiSigBuilder {
    /// Builds the multi-signature configuration, which always succeeds.
    pub fn build(self) -> (r: Result<MultiSig>)
        ensures
            r is Ok,
    {
        Ok(MultiSig)
    }
}

} // verus!
