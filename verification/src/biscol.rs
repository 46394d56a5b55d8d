//! Smart-contract orchestration on Bitcoin: scripts, Taproot, multi-signature
//! setups and zero-knowledge proofs.

use vstd::prelude::*;

pub mod compliance;
pub mod contract;
pub mod error;
pub mod multisig;
pub mod prelude;
pub mod script;
pub mod taproot;
pub mod zk;

pub use compliance::ComplianceChecker;
pub use contract::{ContractBuilder, ContractExecution, SmartContract};
pub use error::{Error, Result, Secp256k1Error};
pub use multisig::{MultiSig, MultiSigBuilder, Threshold};
pub use script::{ExecutionContext, ExecutionResult, Script, ScriptBuilder};
pub use taproot::{TaprootBuilder, TaprootScript};
pub use zk::ZkProof;

verus! {

/// Version of this component family.
pub const VERSION: &'static str = "0.1.0";

/// Prepares the component family for use; there is nothing to set up, so this always succeeds.
pub fn init() -> (r: Result<()>)
    ensures
        r is Ok,
{
    Ok(())
}

} // verus!
