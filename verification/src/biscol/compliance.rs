//! Compliance features for smart contracts.

use vstd::prelude::*;
use crate::biscol::error::{Error, Result};

verus! {

/// Compliance checking for contracts.
#[derive(Debug, Clone)]
pub struct ComplianceChecker;

impl ComplianceChecker {
    /// Creates a new compliance checker.
    pub fn new() -> (r: Self) {
        ComplianceChecker
    }

    /// Checks contract compliance; a checker holds no rule yet, so every contract passes.
    pub fn check(&self) -> (r: Result<bool>)
        ensures
            r == Ok::<bool, Error>(true),
    {
        Ok(true)
    }
}

impl Default for ComplianceChecker {
    fn default() -> (r: Self) {
        ComplianceChecker::new()
    }
}

} // verus!
