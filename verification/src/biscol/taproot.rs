//! Taproot scripts.

use vstd::prelude::*;
use crate::biscol::error::Result;

verus! {

/// Taproot script representation.
pub struct TaprootScript;

/// Builder for Taproot scripts.
pub struct TaprootBuilder;

impl TaprootScript {
    /// Creates a new Taproot script.
    pub fn new() -> (r: Self) {
        TaprootScript
    }
}

impl TaprootBuilder {
    /// Creates a new Taproot builder.
    pub fn new() -> (r: Self) {
        TaprootBuilder
    }

    /// Builds the Taproot script, which always succeeds.
    pub fn build(self) -> (r: Result<TaprootScript>)
        ensures
            r is Ok,
    {
        Ok(TaprootScript)
    }
}

} // verus!
