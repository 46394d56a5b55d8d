//! Building blocks for enterprise Bitcoin services.
//!
//! The crate gathers four component families: [`aicrm`] scores transactions for
//! compliance risk and keeps the audit trail of every decision, [`biscol`]
//! orchestrates smart contracts, [`cci_sat`] coordinates cross-chain transfers
//! and [`imo_eo`] tunes mining operations.

pub mod aicrm;
pub mod biscol;
pub mod cci_sat;
pub mod imo_eo;
