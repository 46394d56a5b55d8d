//! Common imports for users of the risk-scoring engine.

pub use crate::aicrm::error::{Error, Result};
pub use crate::aicrm::risk::{
    AnalyzerView, Assessment, Findings, ModelKind, ModelRegistry, ModelView, RiskAnalyzer,
    RiskAnalyzerBuilder, RiskModel, RiskScore, RiskScoreView, clamp_unit, entry_for, find_model,
    lemma_evaluate_follows_table, lemma_max_weight_monotone, lemma_model_score_monotone,
    lemma_model_version_leaves_inputs, lemma_raising_weight_never_lowers_score,
    lemma_replay_reproduces_score, lemma_scaled_monotone, lemma_table_raised_shrinks,
    lemma_total_weight_monotone, lemma_weights_raised_shrinks, max_weight, model_score, multiplier,
    spec_analyze, spec_score, standard_config, table_raised, total_weight, weighted_sum_score,
    weights_raised,
};
pub use crate::aicrm::compliance::{
    AmlCheck, ComplianceEngine, KycVerification, Rule, RuleKind, RuleKindView, RuleResult,
    RuleView, TriggeredRule, any_listed, first_unreadable, has_rule, input_present,
    lemma_first_unreadable_stays, lemma_triggered_rules_complete, lemma_triggered_rules_sound,
    lemma_triggered_weights_in_unit_range, rule_triggers, rules_valid, spec_evaluate,
    triggered_rules, with_weight,
};
pub use crate::aicrm::monitoring::{
    Alert, AlertManager, AlertView, Decision, DecisionView, Outcome, Thresholds,
    TransactionMonitor, TxState, decide, decision_consistent, lemma_high_threshold_escalates,
    lemma_low_threshold_holds, lemma_outcome_monotone, lemma_terminal_states_final, spec_outcome,
    texts,
};
pub use crate::aicrm::analytics::{
    Analytics, Dashboard, Feature, FeatureVector, Report, capped_risk, extract, feature_value,
    known_activity, known_risk, lemma_extract_is_deterministic, lemma_known_risk_in_unit_range,
    lemma_known_risk_is_highest, lemma_max_known_risk_in_unit_range, max_known_activity,
    max_known_risk, spec_extract, spec_features,
};
pub use crate::aicrm::transaction::{
    CounterpartyProfile, HistorySnapshot, ProfileView, TransactionRecord, TransactionView,
    Transfer, TransferView, TxInput, TxOutput, count_in_band, has_blank_address, max_value, rows,
    spec_implied_fee, sum_values, views,
};
pub use crate::aicrm::reporting::{
    AuditCursor, AuditEntry, AuditEntryView, AuditLedger, ReportGenerator, gap_free,
    lemma_positions_are_exact, lemma_range_is_exact, positions_of, range_of,
};
