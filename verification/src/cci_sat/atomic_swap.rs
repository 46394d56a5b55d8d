//! Atomic swaps.

use vstd::prelude::*;
use crate::cci_sat::error::Result;

verus! {

/// Atomic swap implementation.
pub struct AtomicSwap;

/// Builder for atomic swaps.
pub struct SwapBuilder;

/// Swap execution context.
pub struct SwapExecution;

impl AtomicSwap {
    /// Creates a new atomic swap.
    pub fn new() -> (r: Self) {
        AtomicSwap
    }

    /// Creates a new swap builder.
    pub fn builder() -> (r: SwapBuilder) {
        SwapBuilder
    }

    /// Executes the swap; a swap holds no amounts yet, so execution always succeeds.
    pub fn execute(&self) -> (r: Result<SwapExecution>)
        ensures
            r is Ok,
    {
        Ok(SwapExecution)
    }
}

impl SwapBuilder {
    /// Sets the Bitcoin source; a swap keeps none, so the builder is unchanged.
    pub fn from_bitcoin(self, amount: u64) -> (r: Self)
        ensures
            r == self,
    {
        self
    }

    /// Sets the Ethereum destination; a swap keeps none, so the builder is unchanged.
    pub fn to_ethereum(self, amount: u64) -> (r: Self)
        ensures
            r == self,
    {
        self
    }

    /// Sets the timeout; a swap keeps none, so the builder is unchanged.
    pub fn with_timeout(self, seconds: u64) -> (r: Self)
        ensures
            r == self,
    {
        self
    }

    /// Builds the swap, which always succeeds.
    pub fn build(self) -> (r: Result<AtomicSwap>)
        ensures
            r is Ok,
    {
        Ok(AtomicSwap)
    }
}

} // verus!
