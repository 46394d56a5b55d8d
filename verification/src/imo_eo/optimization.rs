//! Optimization.

use vstd::prelude::*;

verus! {

/// Optimizer interface.
pub struct Optimizer;

/// Optimization strategy.
pub struct OptimizationStrategy;

/// Optimization recommendations.
pub struct Recommendations;

impl Optimizer {
    /// Creates a new optimizer.
    pub fn new() -> (r: Self) {
        Optimizer
    }
}

} // verus!
