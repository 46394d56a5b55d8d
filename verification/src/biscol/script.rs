//! Bitcoin script execution and management.

use vstd::prelude::*;
use crate::biscol::error::Result;

verus! {

/// Bitcoin script representation.
pub struct Script;

/// Script builder for constructing Bitcoin scripts.
pub struct ScriptBuilder;

/// Execution context for script evaluation.
pub struct ExecutionContext;

/// Result of script execution.
pub struct ExecutionResult;

impl Script {
    /// Creates a script from a hex string; the text is not read, so this always succeeds.
    pub fn from_hex(hex: &str) -> (r: Result<Self>)
        ensures
            r is Ok,
    {
        Ok(Script)
    }
}

impl ScriptBuilder {
    /// Creates a new script builder.
    pub fn new() -> (r: Self) {
        ScriptBuilder
    }

    /// Builds the script, which always succeeds.
    pub fn build(self) -> (r: Result<Script>)
        ensures
            r is Ok,
    {
        Ok(Script)
    }
}

impl ExecutionContext {
    /// Creates a new execution context.
    pub fn new() -> (r: Self) {
        ExecutionContext
    }
}

impl ExecutionResult {
    /// Whether execution was successful, which it always is.
    pub fn is_success(&self) -> (r: bool)
        ensures
            r,
    {
        true
    }
}

} // verus!
