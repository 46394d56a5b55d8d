//! Smart contract orchestration.

use vstd::prelude::*;
use crate::biscol::error::Result;
use crate::biscol::script::{ExecutionContext, ExecutionResult, Script};

verus! {

/// Smart contract representation.
pub struct SmartContract;

/// Builder for creating smart contracts.
pub struct ContractBuilder;

/// Contract execution environment.
pub struct ContractExecution;

impl SmartContract {
    /// Creates a new smart contract.
    pub fn new() -> (r: Self) {
        SmartContract
    }

    /// Creates a new contract builder.
    pub fn builder() -> (r: ContractBuilder) {
        ContractBuilder
    }

    /// Executes the contract in `context`; a contract holds no script yet, so
    /// execution always succeeds.
    pub fn execute(&self, context: &ExecutionContext) -> (r: Result<ExecutionResult>)
        ensures
            r is Ok,
    {
        Ok(ExecutionResult)
    }
}

impl ContractBuilder {
    /// Sets the Taproot script; a contract keeps none, so the builder is unchanged.
    pub fn with_taproot_script(self, script: Script) -> (r: Self)
        ensures
            r == self,
    {
        self
    }

    /// Sets the multi-signature threshold; a contract keeps none, so the builder is unchanged.
    pub fn with_multi_sig_threshold(self, threshold: u8, total: u8) -> (r: Self)
        ensures
            r == self,
    {
        self
    }

    /// Builds the contract, which always succeeds.
    pub fn build(self) -> (r: Result<SmartContract>)
        ensures
            r is Ok,
    {
        Ok(SmartContract)
    }
}

} // verus!
