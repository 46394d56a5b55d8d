//! Mining operations.

use vstd::prelude::*;
use crate::imo_eo::error::Result;
use crate::imo_eo::optimization::Recommendations;

verus! {

/// Mining optimizer.
pub struct MiningOptimizer;

/// Pool manager.
pub struct PoolManager;

/// Mining strategy.
pub struct MiningStrategy;

impl MiningOptimizer {
    /// Creates a new mining optimizer.
    pub fn new() -> (r: Self) {
        MiningOptimizer
    }

    /// Creates a new mining optimizer builder.
    pub fn builder() -> (r: MiningOptimizerBuilder) {
        MiningOptimizerBuilder
    }

    /// Optimizes mining operations; an optimizer holds no targets yet, so this
    /// always succeeds.
    pub fn optimize(&self) -> (r: Result<Recommendations>)
        ensures
            r is Ok,
    {
        Ok(Recommendations)
    }
}

/// Builder for a mining optimizer.
pub struct MiningOptimizerBuilder;

impl MiningOptimizerBuilder {
    /// Builds the optimizer, which always succeeds.
    pub fn build(self) -> (r: Result<MiningOptimizer>)
        ensures
            r is Ok,
    {
        Ok(MiningOptimizer)
    }
}

} // verus!
