//! Compliance risk scoring.
//!
//! A transaction record flows one way through the engine: features are
//! extracted from it, the rule engine and the scoring model turn them into a
//! risk score, the decision layer classifies the score, and the audit ledger
//! records the outcome.
//!
//! Weights, risks, thresholds and scores are fixed-point numbers measured in
//! millionths: `0` stands for zero, [`SCALE`] for one.

use vstd::prelude::*;

pub mod analytics;
pub mod compliance;
pub mod error;
pub mod ml;
pub mod monitoring;
pub mod prelude;
pub mod reporting;
pub mod risk;
pub mod transaction;

pub use analytics::{extract, Analytics, Dashboard, Feature, FeatureVector, Report};
pub use compliance::{
    AmlCheck, ComplianceEngine, KycVerification, Rule, RuleKind, RuleResult, TriggeredRule,
};
pub use error::{Error, Result};
pub use ml::MlModel;
pub use monitoring::{
    decide, Alert, AlertManager, Decision, Outcome, Thresholds, TransactionMonitor, TxState,
};
pub use reporting::{AuditCursor, AuditEntry, AuditLedger, ReportGenerator};
pub use risk::{
    Assessment, ModelKind, ModelRegistry, RiskAnalyzer, RiskAnalyzerBuilder, RiskModel, RiskScore,
};
pub use transaction::{
    CounterpartyProfile, HistorySnapshot, TransactionRecord, Transfer, TxInput, TxOutput,
};

verus! {

/// The fixed-point value that stands for one.
pub const SCALE: u64 = 1_000_000;

/// Version of this component family.
pub const VERSION: &'static str = "0.1.0";

/// Prepares the component family for use; there is nothing to set up, so this always succeeds.
pub fn init() -> (r: Result<()>)
    ensures
        r is Ok,
{
    Ok(())
}

} // verus!
