//! Common imports for users of smart-contract orchestration.

pub use crate::biscol::contract::{ContractBuilder, ContractExecution, SmartContract};
pub use crate::biscol::error::{Error, Result, Secp256k1Error};
pub use crate::biscol::multisig::{MultiSig, MultiSigBuilder, Threshold};
pub use crate::biscol::script::{ExecutionContext, ExecutionResult, Script, ScriptBuilder};
pub use crate::biscol::taproot::{TaprootBuilder, TaprootScript};
